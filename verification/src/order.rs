//! Ordering the nodes of a dependency graph for execution.
//!
//! Nodes are numbered `0..count`. An edge says that one node has to run
//! before another. An execution order lists every node exactly once and puts
//! each edge's source ahead of its target; one exists exactly when the edges
//! form no cycle.

use vstd::prelude::*;
use vstd::seq_lib::seq_to_set_is_finite;
use vstd::set_lib::{lemma_int_range, lemma_len_subset, lemma_subset_equality, set_int_range};

verus! {

/// One dependency: node `before` has to run ahead of node `after`.
#[derive(Clone, Copy, Debug)]
pub struct Edge {
    pub before: usize,
    pub after: usize,
}

/// Every edge joins two nodes of a graph with `count` nodes.
pub open spec fn edges_in_range(count: nat, edges: Seq<Edge>) -> bool {
    forall|k: int| 0 <= k < edges.len() ==> (#[trigger] edges[k]).before < count && edges[k].after
        < count
}

/// `order` runs every node of the graph exactly once.
pub open spec fn is_permutation(count: nat, order: Seq<usize>) -> bool {
    &&& order.len() == count
    &&& forall|i: int| 0 <= i < order.len() ==> (#[trigger] order[i]) < count
    &&& forall|i: int, j: int| 0 <= i < j < order.len() ==> order[i] != order[j]
}

/// `order` runs the source of edge `edge` at an earlier position than its target.
pub open spec fn respects_edge(order: Seq<usize>, edge: Edge) -> bool {
    exists|i: int, j: int|
        0 <= i < j < order.len() && #[trigger] order[i] == edge.before && #[trigger] order[j]
            == edge.after
}

/// `order` is an execution order of the graph: every node once, every edge respected.
pub open spec fn is_execution_order(count: nat, edges: Seq<Edge>, order: Seq<usize>) -> bool {
    &&& is_permutation(count, order)
    &&& forall|k: int| 0 <= k < edges.len() ==> respects_edge(order, #[trigger] edges[k])
}

/// At every position, `order` runs the lowest-numbered node that is ready
/// and has not run yet.
pub open spec fn runs_lowest_ready_first(edges: Seq<Edge>, order: Seq<usize>) -> bool {
    forall|i: int|
        0 <= i < order.len() ==> {
            &&& is_ready(edges, order.take(i), #[trigger] order[i])
            &&& forall|lower: usize|
                lower < order[i] && is_ready(edges, order.take(i), lower) ==> occurs(
                    order.take(i),
                    lower,
                )
        }
}

/// Node `node` occurs somewhere in `order`.
pub open spec fn occurs(order: Seq<usize>, node: usize) -> bool {
    exists|i: int| 0 <= i < order.len() && #[trigger] order[i] == node
}

/// Every edge into `node` comes from a node that `order` already holds.
pub open spec fn is_ready(edges: Seq<Edge>, order: Seq<usize>, node: usize) -> bool {
    forall|k: int|
        0 <= k < edges.len() && (#[trigger] edges[k]).after == node
            ==> occurs(order, edges[k].before)
}

spec fn as_ints(order: Seq<usize>) -> Seq<int> {
    order.map_values(|node: usize| node as int)
}

/// A sequence that runs every node exactly once holds each node.
pub proof fn lemma_permutation_covers(count: nat, order: Seq<usize>, node: usize)
    requires
        is_permutation(count, order),
        node < count,
    ensures
        occurs(order, node),
{
    broadcast use seq_to_set_is_finite;

    let ints = as_ints(order);
    assert(ints.no_duplicates()) by {
        assert forall|i: int, j: int| 0 <= i < ints.len() && 0 <= j < ints.len() && i
            != j implies ints[i]
            != ints[j] by {
            if i < j {
                assert(order[i] != order[j]);
            } else {
                assert(order[j] != order[i]);
            }
        }
    }
    ints.unique_seq_to_set();
    lemma_int_range(0, count as int);
    let all = set_int_range(0, count as int);
    assert(ints.to_set().subset_of(all)) by {
        assert forall|value: int| ints.to_set().contains(value) implies all.contains(value) by {
            let i = choose|i: int| 0 <= i < ints.len() && ints[i] == value;
            assert(order[i] < count);
        }
    }
    lemma_subset_equality(ints.to_set(), all);
    assert(all.contains(node as int));
    assert(ints.to_set().contains(node as int));
    let at = choose|i: int| 0 <= i < ints.len() && ints[i] == node as int;
    assert(order[at] == node);
}

/// A sequence shorter than the node count leaves some node out.
proof fn lemma_short_order_misses(count: nat, order: Seq<usize>) -> (node: usize)
    requires
        order.len() < count,
        count <= usize::MAX,
    ensures
        node < count,
        !occurs(order, node),
{
    broadcast use seq_to_set_is_finite;

    let ints = as_ints(order);
    let all = set_int_range(0, count as int);
    lemma_int_range(0, count as int);
    ints.lemma_cardinality_of_set();
    if all.subset_of(ints.to_set()) {
        lemma_len_subset(all, ints.to_set());
        assert(false);
    }
    let value = choose|value: int| all.contains(value) && !ints.to_set().contains(value);
    let node = value as usize;
    assert(!occurs(order, node)) by {
        if occurs(order, node) {
            let i = choose|i: int| 0 <= i < order.len() && order[i] == node;
            assert(ints[i] == value);
            assert(ints.contains(value));
        }
    }
    node
}

/// Where every node outside `placed` waits for another such node, the graph
/// has no execution order at all.
proof fn lemma_stuck_means_cyclic(
    count: nat,
    edges: Seq<Edge>,
    placed: Seq<usize>,
    candidate: Seq<usize>,
)
    requires
        count <= usize::MAX,
        edges_in_range(count, edges),
        placed.len() < count,
        forall|node: usize| node < count && !occurs(placed, node)
            ==> !is_ready(edges, placed, node),
    ensures
        !is_execution_order(count, edges, candidate),
{
    if is_execution_order(count, edges, candidate) {
        let missing = lemma_short_order_misses(count, placed);
        lemma_permutation_covers(count, candidate, missing);
        let somewhere = choose|i: int| 0 <= i < candidate.len() && candidate[i] == missing;
        let first = lemma_first_unplaced(placed, candidate, somewhere);
        let node = candidate[first];
        assert(node < count);
        assert(!is_ready(edges, placed, node));
        let k = choose|k: int|
            0 <= k < edges.len() && (#[trigger] edges[k]).after == node && !occurs(
                placed,
                edges[k].before,
            );
        assert(respects_edge(candidate, edges[k]));
        let (i, j) = choose|i: int, j: int|
            0 <= i < j < candidate.len() && #[trigger] candidate[i] == edges[k].before
                && #[trigger] candidate[j] == edges[k].after;
        assert(j == first) by {
            if j < first {
                assert(candidate[j] != candidate[first]);
            } else if first < j {
                assert(candidate[first] != candidate[j]);
            }
        }
        assert(occurs(placed, candidate[i]));
        assert(false);
    }
}

/// The earliest position of `candidate` whose node `placed` does not hold.
proof fn lemma_first_unplaced(placed: Seq<usize>, candidate: Seq<usize>, upto: int) -> (first: int)
    requires
        0 <= upto < candidate.len(),
        !occurs(placed, candidate[upto]),
    ensures
        0 <= first <= upto,
        !occurs(placed, candidate[first]),
        forall|i: int| 0 <= i < first ==> occurs(placed, #[trigger] candidate[i]),
    decreases upto,
{
    if exists|i: int| 0 <= i < upto && !occurs(placed, #[trigger] candidate[i]) {
        let earlier = choose|i: int| 0 <= i < upto && !occurs(placed, #[trigger] candidate[i]);
        lemma_first_unplaced(placed, candidate, earlier)
    } else {
        upto
    }
}

/// Whether `order` holds `node`.
fn holds(order: &Vec<usize>, node: usize) -> (found: bool)
    ensures
        found == occurs(order@, node),
{
    let mut i: usize = 0;
    while i < order.len()
        invariant
            i <= order.len(),
            forall|j: int| 0 <= j < i ==> order@[j] != node,
        decreases order.len() - i,
    {
        if order[i] == node {
            return true;
        }
        i += 1;
    }
    false
}

/// Whether every edge into `node` comes from a node that `order` holds.
fn ready(edges: &Vec<Edge>, order: &Vec<usize>, node: usize) -> (yes: bool)
    ensures
        yes == is_ready(edges@, order@, node),
{
    let mut k: usize = 0;
    while k < edges.len()
        invariant
            k <= edges.len(),
            forall|e: int|
                0 <= e < k && (#[trigger] edges@[e]).after == node ==> occurs(
                    order@,
                    edges@[e].before,
                ),
        decreases edges.len() - k,
    {
        if edges[k].after == node && !holds(order, edges[k].before) {
            return false;
        }
        k += 1;
    }
    true
}

/// Orders the nodes `0..count` so that each edge's source runs before its
/// target.
///
/// Returns an execution order when there is one, and `None` exactly when the
/// edges form a cycle, so that no order can respect them all. Among the
/// nodes that are ready to run, the one with the lowest number goes first,
/// which makes the order the only one of its kind.
pub fn execution_order(count: usize, edges: &Vec<Edge>) -> (result: Option<Vec<usize>>)
    requires
        edges_in_range(count as nat, edges@),
    ensures
        match result {
            Some(order) => is_execution_order(count as nat, edges@, order@)
                && runs_lowest_ready_first(edges@, order@),
            None => forall|candidate: Seq<usize>|
                !is_execution_order(count as nat, edges@, candidate),
        },
{
    let mut order: Vec<usize> = Vec::new();
    while order.len() < count
        invariant
            order.len() <= count,
            edges_in_range(count as nat, edges@),
            forall|i: int| 0 <= i < order.len() ==> (#[trigger] order@[i]) < count,
            forall|i: int, j: int| 0 <= i < j < order.len() ==> order@[i] != order@[j],
            runs_lowest_ready_first(edges@, order@),
        decreases count - order.len(),
    {
        let mut node: usize = 0;
        let mut found: bool = false;
        while node < count
            invariant_except_break
                node <= count,
                !found,
                forall|earlier: usize|
                    earlier < node && !occurs(order@, earlier) ==> !is_ready(
                        edges@,
                        order@,
                        earlier,
                    ),
            ensures
                found ==> node < count && !occurs(order@, node) && is_ready(edges@, order@, node),
                forall|earlier: usize|
                    earlier < node && !occurs(order@, earlier) ==> !is_ready(
                        edges@,
                        order@,
                        earlier,
                    ),
                !found ==> forall|other: usize|
                    other < count && !occurs(order@, other) ==> !is_ready(edges@, order@, other),
            decreases count - node,
        {
            if !holds(&order, node) && ready(edges, &order, node) {
                found = true;
                break ;
            }
            node += 1;
        }
        if !found {
            proof {
                assert forall|candidate: Seq<usize>|
                    !is_execution_order(count as nat, edges@, candidate) by {
                    lemma_stuck_means_cyclic(count as nat, edges@, order@, candidate);
                }
            }
            return None;
        }
        let ghost before = order@;
        order.push(node);
        proof {
            assert(order@.take(before.len() as int) =~= before);
            assert forall|i: int| 0 <= i < order.len() implies {
                &&& is_ready(edges@, order@.take(i), #[trigger] order@[i])
                &&& forall|lower: usize|
                    lower < order@[i] && is_ready(edges@, order@.take(i), lower) ==> occurs(
                        order@.take(i),
                        lower,
                    )
            } by {
                if i < before.len() {
                    assert(order@.take(i) =~= before.take(i));
                    assert(order@[i] == before[i]);
                } else {
                    assert(order@.take(i) =~= before);
                }
            }
            assert forall|i: int, j: int| 0 <= i < j < order.len() implies order@[i]
                != order@[j] by {
                if j == before.len() {
                    assert(before[i] == order@[i]);
                    assert(!occurs(before, node));
                }
            }
        }
    }
    proof {
        assert forall|k: int| 0 <= k < edges.len() implies respects_edge(
            order@,
            #[trigger] edges@[k],
        ) by {
            let edge = edges@[k];
            lemma_permutation_covers(count as nat, order@, edge.after);
            let j = choose|j: int| 0 <= j < order.len() && order@[j] == edge.after;
            assert(is_ready(edges@, order@.take(j), order@[j]));
            assert(occurs(order@.take(j), edge.before));
            let i = choose|i: int| 0 <= i < order@.take(j).len() && order@.take(j)[i]
                == edge.before;
            assert(order@[i] == edge.before);
        }
    }
    Some(order)
}

/// There is one execution order that runs the lowest-numbered ready node
/// first: two such orders of one graph are the same.
pub proof fn law_execution_order_is_unique(
    count: nat,
    edges: Seq<Edge>,
    first: Seq<usize>,
    second: Seq<usize>,
)
    requires
        is_permutation(count, first),
        is_permutation(count, second),
        runs_lowest_ready_first(edges, first),
        runs_lowest_ready_first(edges, second),
    ensures
        first == second,
{
    lemma_same_prefix(count, edges, first, second, count as int);
    assert(first.take(count as int) =~= first);
    assert(second.take(count as int) =~= second);
}

proof fn lemma_same_prefix(
    count: nat,
    edges: Seq<Edge>,
    first: Seq<usize>,
    second: Seq<usize>,
    upto: int,
)
    requires
        is_permutation(count, first),
        is_permutation(count, second),
        runs_lowest_ready_first(edges, first),
        runs_lowest_ready_first(edges, second),
        0 <= upto <= count,
    ensures
        first.take(upto) == second.take(upto),
    decreases upto,
{
    if upto == 0 {
        assert(first.take(0) =~= second.take(0));
    } else {
        let at = upto - 1;
        lemma_same_prefix(count, edges, first, second, at);
        let ran = first.take(at);
        assert(second.take(at) == ran);
        assert(!occurs(ran, first[at])) by {
            if occurs(ran, first[at]) {
                let i = choose|i: int| 0 <= i < ran.len() && ran[i] == first[at];
                assert(first[i] != first[at]);
            }
        }
        assert(!occurs(ran, second[at])) by {
            if occurs(ran, second[at]) {
                let i = choose|i: int| 0 <= i < ran.len() && ran[i] == second[at];
                assert(second.take(at)[i] == second[i]);
                assert(second[i] != second[at]);
            }
        }
        assert(is_ready(edges, first.take(at), first[at]));
        assert(is_ready(edges, second.take(at), second[at]));
        assert(first[at] == second[at]);
        assert(first.take(upto) =~= first.take(at).push(first[at]));
        assert(second.take(upto) =~= second.take(at).push(second[at]));
    }
}

} // verus!
