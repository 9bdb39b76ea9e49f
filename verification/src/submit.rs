//! Submit nodes: the draw calls that the features hand to a render phase,
//! and the order in which the opaque phase writes them.

use vstd::prelude::*;
use vstd::seq_lib::{to_multiset_build, to_multiset_insert};
use crate::mask::RenderFeatureIndex;

verus! {

/// One draw call of a feature in a phase.
#[derive(Clone, Copy, Debug, PartialEq, Eq, Structural)]
pub struct SubmitNode {
    pub feature_index: RenderFeatureIndex,
    pub submit_node_id: u32,
    pub sort_key: u32,
}

/// The nodes come feature by feature, in the order of the feature indices.
pub open spec fn sorted_by_feature(nodes: Seq<SubmitNode>) -> bool {
    forall|i: int, j: int|
        0 <= i < j < nodes.len() ==> nodes[i].feature_index <= nodes[j].feature_index
}

/// Orders the submit nodes of the opaque phase.
///
/// Opaque geometry can be drawn in any order, so the nodes are ordered for
/// the best batching: feature by feature. The result holds the same nodes,
/// each as often as before.
pub fn opaque_render_phase_sort_submit_nodes(submit_nodes: Vec<SubmitNode>) -> (sorted: Vec<
    SubmitNode,
>)
    ensures
        sorted_by_feature(sorted@),
        sorted@.to_multiset() == submit_nodes@.to_multiset(),
{
    let mut sorted: Vec<SubmitNode> = Vec::new();
    let mut i: usize = 0;
    assert(submit_nodes@.take(0) =~= Seq::<SubmitNode>::empty());
    while i < submit_nodes.len()
        invariant
            i <= submit_nodes.len(),
            sorted.len() == i,
            sorted_by_feature(sorted@),
            sorted@.to_multiset() == submit_nodes@.take(i as int).to_multiset(),
        decreases submit_nodes.len() - i,
    {
        let node = submit_nodes[i];
        let mut at: usize = 0;
        while at < sorted.len() && sorted[at].feature_index <= node.feature_index
            invariant
                at <= sorted.len(),
                forall|k: int| 0 <= k < at ==> sorted@[k].feature_index <= node.feature_index,
            decreases sorted.len() - at,
        {
            at += 1;
        }
        let ghost before = sorted@;
        sorted.insert(at, node);
        proof {
            to_multiset_insert(before, at as int, node);
            to_multiset_build(submit_nodes@.take(i as int), node);
            assert(submit_nodes@.take(i + 1) =~= submit_nodes@.take(i as int).push(node));
            assert forall|a: int, b: int| 0 <= a < b
                < sorted@.len() implies sorted@[a].feature_index
                <= sorted@[b].feature_index by {
                let from_a = if a < at {
                    a
                } else {
                    a - 1
                };
                let from_b = if b < at {
                    b
                } else {
                    b - 1
                };
                if a == at {
                    assert(sorted@[b] == before[from_b]);
                    assert(before[at as int].feature_index <= before[from_b].feature_index
                        || at as int == from_b);
                } else if b == at {
                    assert(sorted@[a] == before[from_a]);
                } else {
                    assert(sorted@[a] == before[from_a]);
                    assert(sorted@[b] == before[from_b]);
                }
            }
        }
        i += 1;
    }
    assert(submit_nodes@.take(submit_nodes.len() as int) =~= submit_nodes@);
    sorted
}

} // verus!
