//! Compiling a declared render graph into an executable plan, and walking the
//! plan to record its passes.
//!
//! Compilation checks that every node's queue exists on the device, resolves
//! every read to the one image that carries the name it asks for, checks that
//! the constraints on each image agree, and orders the passes so that an
//! image's producer runs before its readers.

use vstd::prelude::*;
use vstd::string::*;
use crate::graph::{
    handles_in_range, image_named, CallbackId, ExternalImageView, GraphImage, GraphNode, GraphRead,
    ImageFormat, ImageHandle, LoadOp, NodeHandle, RenderGraphBuilder, RenderGraphImageConstraint,
    RenderGraphImageSpecification, RenderGraphQueue, ResourceState, SampleCount,
};
use crate::order::{
    edges_in_range, execution_order, is_execution_order, is_permutation, is_ready,
    lemma_permutation_covers, occurs, respects_edge, runs_lowest_ready_first, Edge,
};

verus! {

/// The queues a device offers: the default graphics queue, and the indexed
/// queues below `indexed_queue_count`.
#[derive(Clone, Copy, Debug)]
pub struct DeviceContext {
    pub indexed_queue_count: u32,
}

impl DeviceContext {
    /// Whether the device offers `queue`.
    pub open spec fn offers(&self, queue: RenderGraphQueue) -> bool {
        match queue {
            RenderGraphQueue::DefaultGraphics => true,
            RenderGraphQueue::Index(index) => index < self.indexed_queue_count,
        }
    }

    /// Whether the device offers `queue`.
    pub fn has_queue(&self, queue: RenderGraphQueue) -> (present: bool)
        ensures
            present == self.offers(queue),
    {
        match queue {
            RenderGraphQueue::DefaultGraphics => true,
            RenderGraphQueue::Index(index) => index < self.indexed_queue_count,
        }
    }
}

/// The surface the frame is presented on.
#[derive(Clone, Copy, Debug)]
pub struct SwapchainSurfaceInfo {
    pub format: ImageFormat,
    pub width: u32,
    pub height: u32,
}

/// Two constraints ask for different sample counts, or for different formats.
pub open spec fn constraints_conflict(
    first: RenderGraphImageConstraint,
    second: RenderGraphImageConstraint,
) -> bool {
    ||| first.samples is Some && second.samples is Some && first.samples != second.samples
    ||| first.format is Some && second.format is Some && first.format != second.format
}

/// What can be wrong with one read.
#[derive(Clone, Copy, Debug, PartialEq, Eq, Structural)]
pub enum ReadFault {
    /// No image carries the name.
    Dangling,
    /// More than one image carries the name.
    Ambiguous,
    /// The one image that carries the name has a constraint that the read's
    /// constraint contradicts.
    Conflicting,
}

/// The fault of a read against the images of its graph, if it has one.
pub open spec fn read_fault(images: Seq<GraphImage>, read: GraphRead) -> Option<ReadFault> {
    if forall|m: int| !image_named(images, m, read.name@) {
        Some(ReadFault::Dangling)
    } else if exists|m: int, other: int|
        m != other && image_named(images, m, read.name@) && image_named(images, other, read.name@) {
        Some(ReadFault::Ambiguous)
    } else if exists|m: int|
        image_named(images, m, read.name@) && constraints_conflict(
            read.constraint,
            images[m].constraint,
        ) {
        Some(ReadFault::Conflicting)
    } else {
        None
    }
}

/// The image is bound to a host image of another format than it asks for.
/// Sample counts may differ: a multisampled image is resolved into the host
/// image.
pub open spec fn host_format_mismatch(image: GraphImage) -> bool {
    &&& image.host matches Some(host)
    &&& image.constraint.format matches Some(format)
    &&& format != host.specification.format
}

/// Node `consumer` reads an image that node `producer` creates.
pub open spec fn depends(
    images: Seq<GraphImage>,
    reads: Seq<GraphRead>,
    producer: usize,
    consumer: usize,
) -> bool {
    exists|r: int, m: int|
        0 <= r < reads.len() && reads[r].node == consumer && #[trigger] image_named(
            images,
            m,
            reads[r].name@,
        ) && images[m].producer == Some(producer)
}

/// `order` runs every node once, and every producer before its readers.
pub open spec fn is_pass_order(
    node_count: nat,
    images: Seq<GraphImage>,
    reads: Seq<GraphRead>,
    order: Seq<usize>,
) -> bool {
    &&& is_permutation(node_count, order)
    &&& forall|producer: usize, consumer: usize| #[trigger]
        depends(images, reads, producer, consumer) ==> respects_edge(
            order,
            Edge { before: producer, after: consumer },
        )
}

/// Every node whose image `node` reads is among the nodes `ran`.
pub open spec fn is_ready_pass(
    images: Seq<GraphImage>,
    reads: Seq<GraphRead>,
    ran: Seq<usize>,
    node: usize,
) -> bool {
    forall|producer: usize| #[trigger]
        depends(images, reads, producer, node) ==> occurs(ran, producer)
}

/// At every position, `order` runs the lowest-numbered node that has not
/// run yet and whose producers have all run.
pub open spec fn runs_lowest_ready_pass_first(
    images: Seq<GraphImage>,
    reads: Seq<GraphRead>,
    order: Seq<usize>,
) -> bool {
    forall|i: int|
        0 <= i < order.len() ==> {
            &&& is_ready_pass(images, reads, order.take(i), #[trigger] order[i])
            &&& forall|lower: usize|
                lower < order[i] && is_ready_pass(images, reads, order.take(i), lower) ==> occurs(
                    order.take(i),
                    lower,
                )
        }
}

/// Every node is on a queue that the device offers.
pub open spec fn queues_known(device: DeviceContext, nodes: Seq<GraphNode>) -> bool {
    forall|n: int| 0 <= n < nodes.len() ==> device.offers((#[trigger] nodes[n]).queue)
}

/// No read has a fault.
pub open spec fn reads_sound(images: Seq<GraphImage>, reads: Seq<GraphRead>) -> bool {
    forall|r: int| 0 <= r < reads.len() ==> read_fault(images, #[trigger] reads[r]) is None
}

/// No image is bound to a host image of another format.
pub open spec fn hosts_sound(images: Seq<GraphImage>) -> bool {
    forall|m: int| 0 <= m < images.len() ==> !host_format_mismatch(#[trigger] images[m])
}

/// Why a graph does not compile.
#[derive(Debug)]
pub enum GraphError {
    /// `node` is on a queue that the device does not offer.
    UnknownQueue { node: NodeHandle },
    /// `node` reads `name`, and no image carries that name: nothing produces
    /// it and the host does not provide it.
    DanglingImage { node: NodeHandle, read: usize, name: String },
    /// `node` reads `name`, and several images carry that name.
    AmbiguousImage { node: NodeHandle, read: usize, name: String },
    /// `node` reads `name` under a constraint that contradicts the image's own.
    ConflictingConstraint { node: NodeHandle, read: usize, name: String },
    /// `image` asks for another format than the host image it is bound to has.
    HostFormatMismatch { image: ImageHandle },
    /// The nodes wait for each other in a cycle.
    CyclicDependency,
}

/// What [`GraphError::message`] says of `error`.
pub open spec fn error_message(error: GraphError) -> Seq<char> {
    match error {
        GraphError::UnknownQueue { node } => "a node is on a queue that the device lacks"@,
        GraphError::DanglingImage { node, read, name } => "no image carries the name "@ + name@,
        GraphError::AmbiguousImage { node, read, name } => "several images carry the name "@
            + name@,
        GraphError::ConflictingConstraint { node, read, name } =>
            "a read contradicts the constraint of the image "@ + name@,
        GraphError::HostFormatMismatch { image } =>
            "an image asks for another format than its host image has"@,
        GraphError::CyclicDependency => "the nodes wait for each other in a cycle"@,
    }
}

impl GraphError {
    /// The error in words.
    pub fn message(&self) -> (text: String)
        ensures
            text@ == error_message(*self),
    {
        match self {
            GraphError::UnknownQueue { node } => String::from_str(
                "a node is on a queue that the device lacks",
            ),
            GraphError::DanglingImage { node, read, name } => String::from_str(
                "no image carries the name ",
            ).concat(name.as_str()),
            GraphError::AmbiguousImage { node, read, name } => String::from_str(
                "several images carry the name ",
            ).concat(name.as_str()),
            GraphError::ConflictingConstraint { node, read, name } => String::from_str(
                "a read contradicts the constraint of the image ",
            ).concat(name.as_str()),
            GraphError::HostFormatMismatch { image } => String::from_str(
                "an image asks for another format than its host image has",
            ),
            GraphError::CyclicDependency => String::from_str(
                "the nodes wait for each other in a cycle",
            ),
        }
    }
}

/// Read number `read` is the first read that has a fault, the fault is
/// `fault`, and `node` and `name` are the reader and the name of that read.
pub open spec fn reports_read(
    images: Seq<GraphImage>,
    reads: Seq<GraphRead>,
    fault: ReadFault,
    node: NodeHandle,
    read: usize,
    name: String,
) -> bool {
    &&& read < reads.len()
    &&& read_fault(images, reads[read as int]) == Some(fault)
    &&& forall|earlier: int| 0 <= earlier < read
        ==> read_fault(images, #[trigger] reads[earlier]) is None
    &&& node.index == reads[read as int].node
    &&& name@ == reads[read as int].name@
}

/// `error` is the error that compiling the graph gives: the first check
/// that fails, at the first place where it fails.
pub open spec fn is_compile_error(
    device: DeviceContext,
    nodes: Seq<GraphNode>,
    images: Seq<GraphImage>,
    reads: Seq<GraphRead>,
    error: GraphError,
) -> bool {
    match error {
        GraphError::UnknownQueue { node } => {
            &&& node.index < nodes.len()
            &&& !device.offers(nodes[node.index as int].queue)
            &&& forall|n: int| 0 <= n < node.index ==> device.offers((#[trigger] nodes[n]).queue)
        },
        GraphError::DanglingImage { node, read, name } => {
            &&& queues_known(device, nodes)
            &&& reports_read(images, reads, ReadFault::Dangling, node, read, name)
        },
        GraphError::AmbiguousImage { node, read, name } => {
            &&& queues_known(device, nodes)
            &&& reports_read(images, reads, ReadFault::Ambiguous, node, read, name)
        },
        GraphError::ConflictingConstraint { node, read, name } => {
            &&& queues_known(device, nodes)
            &&& reports_read(images, reads, ReadFault::Conflicting, node, read, name)
        },
        GraphError::HostFormatMismatch { image } => {
            &&& queues_known(device, nodes)
            &&& reads_sound(images, reads)
            &&& image.index < images.len()
            &&& host_format_mismatch(images[image.index as int])
            &&& forall|m: int| 0 <= m < image.index ==> !host_format_mismatch(#[trigger] images[m])
        },
        GraphError::CyclicDependency => {
            &&& queues_known(device, nodes)
            &&& reads_sound(images, reads)
            &&& hosts_sound(images)
            &&& forall|order: Seq<usize>| !is_pass_order(nodes.len(), images, reads, order)
        },
    }
}

/// A pass of a compiled graph.
#[derive(Debug)]
pub struct PreparedPass {
    pub node: NodeHandle,
    pub name: String,
    pub queue: RenderGraphQueue,
    pub callback: Option<CallbackId>,
}

/// The concrete image behind a graph image.
#[derive(Clone, Copy, Debug)]
pub enum ImageBinding {
    /// The host's image: nothing is allocated for it.
    Host {
        view: ExternalImageView,
        specification: RenderGraphImageSpecification,
        load_op: LoadOp,
        final_state: ResourceState,
    },
    /// An image allocated for the frame, with the surface's size.
    Transient { samples: SampleCount, format: ImageFormat, width: u32, height: u32 },
}

/// What is allocated or reused for `image` on `surface`.
pub open spec fn resolved_binding(
    image: GraphImage,
    surface: SwapchainSurfaceInfo,
) -> ImageBinding {
    match image.host {
        Some(host) => ImageBinding::Host {
            view: host.view,
            specification: host.specification,
            load_op: host.load_op,
            final_state: host.final_state,
        },
        None => ImageBinding::Transient {
            samples: match image.constraint.samples {
                Some(samples) => samples,
                None => SampleCount::SampleCount1,
            },
            format: match image.constraint.format {
                Some(format) => format,
                None => surface.format,
            },
            width: surface.width,
            height: surface.height,
        },
    }
}

/// `pass` is the compiled form of `node`, which has the handle `index`.
pub open spec fn is_pass_of(pass: PreparedPass, node: GraphNode, index: usize) -> bool {
    &&& pass.node.index == index
    &&& pass.name@ == node.name@
    &&& pass.queue == node.queue
    &&& pass.callback == node.callback
}

/// The order in which `passes` run the nodes.
pub open spec fn pass_nodes(passes: Seq<PreparedPass>) -> Seq<usize> {
    passes.map_values(|pass: PreparedPass| pass.node.index)
}

/// `passes` and `bindings` are the plan for the graph on `surface`: one pass
/// for every node, producers before readers and, among the nodes that can
/// run, the one declared first; and one binding per image.
pub open spec fn is_plan(
    nodes: Seq<GraphNode>,
    images: Seq<GraphImage>,
    reads: Seq<GraphRead>,
    surface: SwapchainSurfaceInfo,
    passes: Seq<PreparedPass>,
    bindings: Seq<ImageBinding>,
) -> bool {
    &&& is_pass_order(nodes.len(), images, reads, pass_nodes(passes))
    &&& runs_lowest_ready_pass_first(images, reads, pass_nodes(passes))
    &&& forall|i: int|
        0 <= i < passes.len() ==> is_pass_of(
            #[trigger] passes[i],
            nodes[passes[i].node.index as int],
            passes[i].node.index,
        )
    &&& bindings.len() == images.len()
    &&& forall|m: int|
        0 <= m < images.len() ==> #[trigger] bindings[m] == resolved_binding(images[m], surface)
}

/// A recorded pass: the node, and the work registered for it.
#[derive(Clone, Copy, Debug)]
pub struct RecordedPass {
    pub node: NodeHandle,
    pub callback: Option<CallbackId>,
}

/// The passes recorded for one queue, in the order in which they run.
#[derive(Debug)]
pub struct CommandBuffer {
    pub queue: RenderGraphQueue,
    pub passes: Vec<RecordedPass>,
}

/// The passes of `passes` that are on `queue`, in order.
pub open spec fn recorded_on(
    passes: Seq<PreparedPass>,
    queue: RenderGraphQueue,
) -> Seq<RecordedPass>
    decreases passes.len(),
{
    if passes.len() == 0 {
        Seq::empty()
    } else {
        let rest = recorded_on(passes.drop_last(), queue);
        if passes.last().queue == queue {
            rest.push(RecordedPass { node: passes.last().node, callback: passes.last().callback })
        } else {
            rest
        }
    }
}

enum ImageLookup {
    Missing,
    Unique(usize),
    Ambiguous,
}

/// Finds the images that carry `name`.
fn find_image(images: &Vec<GraphImage>, name: &String) -> (lookup: ImageLookup)
    ensures
        match lookup {
            ImageLookup::Missing => forall|m: int| !image_named(images@, m, name@),
            ImageLookup::Unique(at) => image_named(images@, at as int, name@) && forall|m: int|
                image_named(images@, m, name@) ==> m == at,
            ImageLookup::Ambiguous => exists|m: int, other: int|
                m != other && image_named(images@, m, name@) && image_named(images@, other, name@),
        },
{
    let mut found: Option<usize> = None;
    let mut m: usize = 0;
    while m < images.len()
        invariant
            m <= images.len(),
            match found {
                None => forall|at: int| 0 <= at < m ==> !image_named(images@, at, name@),
                Some(first) => first < m && image_named(images@, first as int, name@)
                    && forall|at: int|
                    0 <= at < m && image_named(images@, at, name@) ==> at == first,
            },
        decreases images.len() - m,
    {
        let carries: bool = match &images[m].name {
            Some(own) => *own == *name,
            None => false,
        };
        if carries {
            match found {
                Some(first) => {
                    assert(image_named(images@, first as int, name@) && image_named(
                        images@,
                        m as int,
                        name@,
                    ));
                    return ImageLookup::Ambiguous;
                },
                None => {
                    found = Some(m);
                },
            }
        }
        m += 1;
    }
    match found {
        Some(first) => ImageLookup::Unique(first),
        None => ImageLookup::Missing,
    }
}

/// Whether two constraints contradict each other.
fn conflict(first: &RenderGraphImageConstraint, second: &RenderGraphImageConstraint) -> (yes: bool)
    ensures
        yes == constraints_conflict(*first, *second),
{
    let samples: bool = match (first.samples, second.samples) {
        (Some(a), Some(b)) => a != b,
        _ => false,
    };
    let format: bool = match (first.format, second.format) {
        (Some(a), Some(b)) => a != b,
        _ => false,
    };
    samples || format
}

/// `edges` holds the dependencies between the nodes: every edge joins a
/// producer to a reader of its image, and every such pair has its edge.
spec fn edges_match(images: Seq<GraphImage>, reads: Seq<GraphRead>, edges: Seq<Edge>) -> bool {
    &&& forall|k: int|
        0 <= k < edges.len() ==> depends(
            images,
            reads,
            (#[trigger] edges[k]).before,
            edges[k].after,
        )
    &&& forall|r: int, m: int|
        0 <= r < reads.len() && #[trigger] image_named(images, m, reads[r].name@)
            && images[m].producer is Some ==> exists|k: int|
            0 <= k < edges.len() && #[trigger] edges[k] == (Edge {
                before: images[m].producer->0,
                after: reads[r].node,
            })
}

/// A node is ready by its edges exactly when it is ready by its reads.
proof fn lemma_ready_by_edges(
    images: Seq<GraphImage>,
    reads: Seq<GraphRead>,
    edges: Seq<Edge>,
    ran: Seq<usize>,
    node: usize,
)
    requires
        edges_match(images, reads, edges),
    ensures
        is_ready(edges, ran, node) <==> is_ready_pass(images, reads, ran, node),
{
    if is_ready(edges, ran, node) {
        assert forall|producer: usize| #[trigger]
            depends(images, reads, producer, node) implies occurs(ran, producer) by {
            let (read, image) = choose|read: int, image: int|
                0 <= read < reads.len() && reads[read].node == node && #[trigger] image_named(
                    images,
                    image,
                    reads[read].name@,
                ) && images[image].producer == Some(producer);
            let k = choose|k: int|
                0 <= k < edges.len() && #[trigger] edges[k] == (Edge {
                    before: producer,
                    after: reads[read].node,
                });
            assert(edges[k].after == node);
        }
    }
    if is_ready_pass(images, reads, ran, node) {
        assert forall|k: int|
            0 <= k < edges.len() && (#[trigger] edges[k]).after == node implies occurs(
            ran,
            edges[k].before,
        ) by {
            assert(depends(images, reads, edges[k].before, edges[k].after));
        }
    }
}

/// An order that suits the reads suits the edges.
proof fn lemma_pass_order_is_execution_order(
    node_count: nat,
    images: Seq<GraphImage>,
    reads: Seq<GraphRead>,
    edges: Seq<Edge>,
    order: Seq<usize>,
)
    requires
        edges_match(images, reads, edges),
    ensures
        is_pass_order(node_count, images, reads, order) ==> is_execution_order(
            node_count,
            edges,
            order,
        ),
{
    if is_pass_order(node_count, images, reads, order) {
        assert forall|k: int| 0 <= k < edges.len() implies respects_edge(
            order,
            #[trigger] edges[k],
        ) by {
            assert(depends(images, reads, edges[k].before, edges[k].after));
        }
    }
}

/// The order that suits the edges, lowest ready node first, suits the reads
/// in the same way.
proof fn lemma_execution_order_is_pass_order(
    node_count: nat,
    images: Seq<GraphImage>,
    reads: Seq<GraphRead>,
    edges: Seq<Edge>,
    order: Seq<usize>,
)
    requires
        edges_match(images, reads, edges),
        is_execution_order(node_count, edges, order),
        runs_lowest_ready_first(edges, order),
    ensures
        is_pass_order(node_count, images, reads, order),
        runs_lowest_ready_pass_first(images, reads, order),
{
    assert forall|producer: usize, consumer: usize| #[trigger]
        depends(images, reads, producer, consumer) implies respects_edge(
        order,
        Edge { before: producer, after: consumer },
    ) by {
        let (read, image) = choose|read: int, image: int|
            0 <= read < reads.len() && reads[read].node == consumer && #[trigger] image_named(
                images,
                image,
                reads[read].name@,
            ) && images[image].producer == Some(producer);
        let k = choose|k: int|
            0 <= k < edges.len() && #[trigger] edges[k] == (Edge {
                before: producer,
                after: reads[read].node,
            });
        assert(respects_edge(order, edges[k]));
    }
    assert forall|i: int| 0 <= i < order.len() implies {
        &&& is_ready_pass(images, reads, order.take(i), #[trigger] order[i])
        &&& forall|lower: usize|
            lower < order[i] && is_ready_pass(images, reads, order.take(i), lower) ==> occurs(
                order.take(i),
                lower,
            )
    } by {
        assert(is_ready(edges, order.take(i), order[i]));
        lemma_ready_by_edges(images, reads, edges, order.take(i), order[i]);
        assert forall|lower: usize|
            lower < order[i] && is_ready_pass(images, reads, order.take(i), lower) implies occurs(
            order.take(i),
            lower,
        ) by {
            lemma_ready_by_edges(images, reads, edges, order.take(i), lower);
        }
    }
}

/// The first node that is on a queue the device lacks.
fn first_unknown_queue(device: &DeviceContext, nodes: &Vec<GraphNode>) -> (found: Option<usize>)
    ensures
        match found {
            Some(node) => {
                &&& node < nodes.len()
                &&& !device.offers(nodes@[node as int].queue)
                &&& forall|n: int| 0 <= n < node ==> device.offers((#[trigger] nodes@[n]).queue)
            },
            None => queues_known(*device, nodes@),
        },
{
    let mut n: usize = 0;
    while n < nodes.len()
        invariant
            n <= nodes.len(),
            forall|before: int|
                0 <= before < n ==> device.offers((#[trigger] nodes@[before]).queue),
        decreases nodes.len() - n,
    {
        if !device.has_queue(nodes[n].queue) {
            return Some(n);
        }
        n += 1;
    }
    None
}

/// Resolves every read to its image, and lists the dependencies between the
/// nodes. Fails at the first read that has a fault.
fn resolve_reads(
    nodes: &Vec<GraphNode>,
    images: &Vec<GraphImage>,
    reads: &Vec<GraphRead>,
) -> (result: Result<Vec<Edge>, GraphError>)
    requires
        handles_in_range(nodes@, images@, reads@),
    ensures
        match result {
            Ok(edges) => {
                &&& reads_sound(images@, reads@)
                &&& edges_in_range(nodes@.len(), edges@)
                &&& edges_match(images@, reads@, edges@)
            },
            Err(GraphError::DanglingImage { node, read, name }) => reports_read(
                images@,
                reads@,
                ReadFault::Dangling,
                node,
                read,
                name,
            ),
            Err(GraphError::AmbiguousImage { node, read, name }) => reports_read(
                images@,
                reads@,
                ReadFault::Ambiguous,
                node,
                read,
                name,
            ),
            Err(GraphError::ConflictingConstraint { node, read, name }) => reports_read(
                images@,
                reads@,
                ReadFault::Conflicting,
                node,
                read,
                name,
            ),
            Err(_) => false,
        },
{
    let mut edges: Vec<Edge> = Vec::new();
    let mut r: usize = 0;
    while r < reads.len()
        invariant
            r <= reads.len(),
            handles_in_range(nodes@, images@, reads@),
            forall|earlier: int|
                0 <= earlier < r ==> read_fault(images@, #[trigger] reads@[earlier]) is None,
            edges_in_range(nodes@.len(), edges@),
            edges_match(images@, reads@.take(r as int), edges@),
        decreases reads.len() - r,
    {
        let read = &reads[r];
        let node = NodeHandle { index: read.node };
        match find_image(images, &read.name) {
            ImageLookup::Missing => {
                return Err(GraphError::DanglingImage { node, read: r, name: read.name.clone() });
            },
            ImageLookup::Ambiguous => {
                return Err(GraphError::AmbiguousImage { node, read: r, name: read.name.clone() });
            },
            ImageLookup::Unique(at) => {
                if conflict(&read.constraint, &images[at].constraint) {
                    return Err(
                        GraphError::ConflictingConstraint { node, read: r, name: read.name.clone() },
                    );
                }
                assert(read_fault(images@, reads@[r as int]) is None);
                let ghost before = edges@;
                if let Some(producer) = images[at].producer {
                    edges.push(Edge { before: producer, after: read.node });
                }
                proof {
                    let upto = reads@.take(r + 1);
                    assert(upto[r as int] == reads@[r as int]);
                    assert(image_named(images@, at as int, upto[r as int].name@));
                    assert forall|k: int| 0 <= k < edges.len() implies depends(
                        images@,
                        upto,
                        (#[trigger] edges@[k]).before,
                        edges@[k].after,
                    ) by {
                        if k < before.len() {
                            assert(edges@[k] == before[k]);
                            let (earlier, image) = choose|earlier: int, image: int|
                                0 <= earlier < reads@.take(r as int).len() && reads@.take(
                                    r as int,
                                )[earlier].node == before[k].after && #[trigger] image_named(
                                    images@,
                                    image,
                                    reads@.take(r as int)[earlier].name@,
                                ) && images@[image].producer == Some(before[k].before);
                            assert(upto[earlier] == reads@.take(r as int)[earlier]);
                            assert(image_named(images@, image, upto[earlier].name@));
                        }
                    }
                    assert forall|earlier: int, m: int|
                        0 <= earlier < upto.len() && #[trigger] image_named(
                            images@,
                            m,
                            upto[earlier].name@,
                        ) && images@[m].producer is Some implies exists|k: int|
                        0 <= k < edges.len() && #[trigger] edges@[k] == (Edge {
                            before: images@[m].producer->0,
                            after: upto[earlier].node,
                        }) by {
                        if earlier < r {
                            assert(upto[earlier] == reads@.take(r as int)[earlier]);
                            assert(image_named(images@, m, reads@.take(r as int)[earlier].name@));
                            let k = choose|k: int|
                                0 <= k < before.len() && #[trigger] before[k] == (Edge {
                                    before: images@[m].producer->0,
                                    after: reads@.take(r as int)[earlier].node,
                                });
                            assert(edges@[k] == before[k]);
                        } else {
                            assert(m == at);
                            assert(edges@[edges.len() - 1] == (Edge {
                                before: images@[m].producer->0,
                                after: upto[earlier].node,
                            }));
                        }
                    }
                }
            },
        }
        r += 1;
    }
    assert(reads@.take(reads.len() as int) =~= reads@);
    Ok(edges)
}

/// Resolves the binding of every image. Fails at the first image that asks
/// for another format than its host image has.
fn resolve_bindings(images: &Vec<GraphImage>, surface: &SwapchainSurfaceInfo) -> (result: Result<
    Vec<ImageBinding>,
    usize,
>)
    ensures
        match result {
            Ok(bindings) => {
                &&& hosts_sound(images@)
                &&& bindings.len() == images.len()
                &&& forall|m: int|
                    0 <= m < images.len() ==> #[trigger] bindings@[m] == resolved_binding(
                        images@[m],
                        *surface,
                    )
            },
            Err(image) => {
                &&& image < images.len()
                &&& host_format_mismatch(images@[image as int])
                &&& forall|m: int| 0 <= m < image ==> !host_format_mismatch(#[trigger] images@[m])
            },
        },
{
    let mut bindings: Vec<ImageBinding> = Vec::new();
    let mut m: usize = 0;
    while m < images.len()
        invariant
            m <= images.len(),
            bindings.len() == m,
            forall|at: int| 0 <= at < m ==> !host_format_mismatch(#[trigger] images@[at]),
            forall|at: int|
                0 <= at < m ==> #[trigger] bindings@[at] == resolved_binding(images@[at], *surface),
        decreases images.len() - m,
    {
        let image = &images[m];
        let binding = match image.host {
            Some(host) => {
                let mismatch: bool = match image.constraint.format {
                    Some(format) => format != host.specification.format,
                    None => false,
                };
                if mismatch {
                    return Err(m);
                }
                ImageBinding::Host {
                    view: host.view,
                    specification: host.specification,
                    load_op: host.load_op,
                    final_state: host.final_state,
                }
            },
            None => ImageBinding::Transient {
                samples: match image.constraint.samples {
                    Some(samples) => samples,
                    None => SampleCount::SampleCount1,
                },
                format: match image.constraint.format {
                    Some(format) => format,
                    None => surface.format,
                },
                width: surface.width,
                height: surface.height,
            },
        };
        bindings.push(binding);
        m += 1;
    }
    Ok(bindings)
}

/// Makes the passes of the nodes, in the order `order`.
fn plan_passes(nodes: &Vec<GraphNode>, order: &Vec<usize>) -> (passes: Vec<PreparedPass>)
    requires
        forall|at: int| 0 <= at < order.len() ==> (#[trigger] order@[at]) < nodes.len(),
    ensures
        pass_nodes(passes@) == order@,
        forall|i: int|
            0 <= i < passes.len() ==> is_pass_of(
                #[trigger] passes@[i],
                nodes@[passes@[i].node.index as int],
                passes@[i].node.index,
            ),
{
    let mut passes: Vec<PreparedPass> = Vec::new();
    let mut i: usize = 0;
    while i < order.len()
        invariant
            i <= order.len(),
            passes.len() == i,
            forall|at: int| 0 <= at < order.len() ==> (#[trigger] order@[at]) < nodes.len(),
            forall|at: int|
                0 <= at < i ==> (#[trigger] passes@[at]).node.index == order@[at] && is_pass_of(
                    passes@[at],
                    nodes@[order@[at] as int],
                    order@[at],
                ),
        decreases order.len() - i,
    {
        let index: usize = order[i];
        let node = &nodes[index];
        passes.push(
            PreparedPass {
                node: NodeHandle { index },
                name: node.name.clone(),
                queue: node.queue,
                callback: node.callback,
            },
        );
        i += 1;
    }
    assert(pass_nodes(passes@) =~= order@);
    passes
}

/// A compiled render graph: the passes in the order in which they run, and
/// the concrete image behind each graph image.
#[derive(Debug)]
pub struct PreparedRenderGraph {
    passes: Vec<PreparedPass>,
    bindings: Vec<ImageBinding>,
}

/// `result` is what compiling the graph for `device` and `surface` gives: a
/// plan where every check passes, and else the error of the first check that
/// fails.
pub open spec fn is_compile_outcome(
    device: DeviceContext,
    nodes: Seq<GraphNode>,
    images: Seq<GraphImage>,
    reads: Seq<GraphRead>,
    surface: SwapchainSurfaceInfo,
    result: Result<PreparedRenderGraph, GraphError>,
) -> bool {
    match result {
        Ok(graph) => {
            &&& queues_known(device, nodes)
            &&& reads_sound(images, reads)
            &&& hosts_sound(images)
            &&& is_plan(nodes, images, reads, surface, graph.pass_list(), graph.binding_list())
        },
        Err(error) => is_compile_error(device, nodes, images, reads, error),
    }
}

impl PreparedRenderGraph {
    /// The passes, in the order in which they run.
    pub closed spec fn pass_list(&self) -> Seq<PreparedPass> {
        self.passes@
    }

    /// The binding of each image of the graph, by image handle.
    pub closed spec fn binding_list(&self) -> Seq<ImageBinding> {
        self.bindings@
    }

    /// Compiles `builder` for `device` and `surface`.
    ///
    /// Succeeds exactly when every node's queue is offered by the device,
    /// every read names exactly one image whose constraint it does not
    /// contradict, no image contradicts the format of its host image, and the
    /// nodes do not wait for each other in a cycle. Otherwise the error names
    /// the first check that fails and the first node, read or image that
    /// fails it; no pass is dropped to make the graph compile.
    pub fn new(
        device: &DeviceContext,
        builder: RenderGraphBuilder,
        surface: &SwapchainSurfaceInfo,
    ) -> (result: Result<PreparedRenderGraph, GraphError>)
        requires
            builder.well_formed(),
        ensures
            is_compile_outcome(
                *device,
                builder.nodes(),
                builder.images(),
                builder.reads(),
                *surface,
                result,
            ),
    {
        let (nodes, images, reads) = builder.into_parts();
        if let Some(node) = first_unknown_queue(device, &nodes) {
            return Err(GraphError::UnknownQueue { node: NodeHandle { index: node } });
        }
        let edges = match resolve_reads(&nodes, &images, &reads) {
            Ok(edges) => edges,
            Err(error) => {
                return Err(error);
            },
        };
        let bindings = match resolve_bindings(&images, surface) {
            Ok(bindings) => bindings,
            Err(image) => {
                return Err(GraphError::HostFormatMismatch { image: ImageHandle { index: image } });
            },
        };
        let order = match execution_order(nodes.len(), &edges) {
            Some(order) => order,
            None => {
                proof {
                    assert forall|candidate: Seq<usize>| !is_pass_order(
                        nodes@.len(),
                        images@,
                        reads@,
                        candidate,
                    ) by {
                        lemma_pass_order_is_execution_order(
                            nodes@.len(),
                            images@,
                            reads@,
                            edges@,
                            candidate,
                        );
                    }
                }
                return Err(GraphError::CyclicDependency);
            },
        };
        proof {
            lemma_execution_order_is_pass_order(nodes@.len(), images@, reads@, edges@, order@);
        }
        let passes = plan_passes(&nodes, &order);
        Ok(PreparedRenderGraph { passes, bindings })
    }

    /// The passes, in the order in which they run.
    pub fn passes(&self) -> (passes: &Vec<PreparedPass>)
        ensures
            passes@ == self.pass_list(),
    {
        &self.passes
    }

    /// The binding of each image of the graph, by image handle.
    pub fn bindings(&self) -> (bindings: &Vec<ImageBinding>)
        ensures
            bindings@ == self.binding_list(),
    {
        &self.bindings
    }

    /// Walks the plan for `queue` and records, in the order in which they
    /// run, the passes that are on that queue. The plan is used up: the
    /// result is the one command buffer of that queue.
    pub fn execute_graph(self, queue: RenderGraphQueue) -> (buffers: Vec<CommandBuffer>)
        ensures
            buffers.len() == 1,
            buffers[0].queue == queue,
            buffers[0].passes@ == recorded_on(self.pass_list(), queue),
    {
        let mut recorded: Vec<RecordedPass> = Vec::new();
        let mut i: usize = 0;
        while i < self.passes.len()
            invariant
                i <= self.passes.len(),
                recorded@ == recorded_on(self.passes@.take(i as int), queue),
            decreases self.passes.len() - i,
        {
            let pass = &self.passes[i];
            proof {
                let upto = self.passes@.take(i + 1);
                assert(upto.drop_last() =~= self.passes@.take(i as int));
                assert(upto.last() == self.passes@[i as int]);
            }
            if pass.queue == queue {
                recorded.push(RecordedPass { node: pass.node, callback: pass.callback });
            }
            i += 1;
        }
        assert(self.passes@.take(self.passes.len() as int) =~= self.passes@);
        let mut buffers: Vec<CommandBuffer> = Vec::new();
        buffers.push(CommandBuffer { queue, passes: recorded });
        buffers
    }
}

/// A graph in which some node reads a name that no image carries never
/// compiles. The error is raised at a node or at a read, no later than the
/// dangling read; it is never put off to the checks that come after the
/// reads.
pub proof fn law_dangling_read_fails(
    device: DeviceContext,
    nodes: Seq<GraphNode>,
    images: Seq<GraphImage>,
    reads: Seq<GraphRead>,
    surface: SwapchainSurfaceInfo,
    result: Result<PreparedRenderGraph, GraphError>,
    dangling: int,
)
    requires
        is_compile_outcome(device, nodes, images, reads, surface, result),
        0 <= dangling < reads.len(),
        read_fault(images, reads[dangling]) == Some(ReadFault::Dangling),
    ensures
        result is Err,
        match result->Err_0 {
            GraphError::UnknownQueue { node } => true,
            GraphError::DanglingImage { node, read, name } => read <= dangling,
            GraphError::AmbiguousImage { node, read, name } => read < dangling,
            GraphError::ConflictingConstraint { node, read, name } => read < dangling,
            GraphError::HostFormatMismatch { image } => false,
            GraphError::CyclicDependency => false,
        },
        queues_known(device, nodes) && (forall|earlier: int|
            0 <= earlier < dangling ==> read_fault(images, #[trigger] reads[earlier]) is None)
            ==> is_compile_error(device, nodes, images, reads, result->Err_0) && (result->Err_0
            is DanglingImage) && result->Err_0->DanglingImage_read == dangling,
{
    match result {
        Ok(graph) => {
            assert(read_fault(images, reads[dangling]) is None);
        },
        Err(GraphError::UnknownQueue { node }) => {
            if queues_known(device, nodes) {
                assert(device.offers(nodes[node.index as int].queue));
            }
        },
        Err(GraphError::DanglingImage { node, read, name }) => {
            if read > dangling {
                assert(read_fault(images, reads[dangling]) is None);
            }
        },
        Err(GraphError::AmbiguousImage { node, read, name }) => {
            if read > dangling {
                assert(read_fault(images, reads[dangling]) is None);
            }
            if forall|earlier: int|
                0 <= earlier < dangling ==> read_fault(images, #[trigger] reads[earlier]) is None {
                if read < dangling {
                    assert(read_fault(images, reads[read as int]) is None);
                }
            }
        },
        Err(GraphError::ConflictingConstraint { node, read, name }) => {
            if read > dangling {
                assert(read_fault(images, reads[dangling]) is None);
            }
            if forall|earlier: int|
                0 <= earlier < dangling ==> read_fault(images, #[trigger] reads[earlier]) is None {
                if read < dangling {
                    assert(read_fault(images, reads[read as int]) is None);
                }
            }
        },
        Err(GraphError::HostFormatMismatch { image }) => {
            assert(read_fault(images, reads[dangling]) is None);
        },
        Err(GraphError::CyclicDependency) => {
            assert(read_fault(images, reads[dangling]) is None);
        },
    }
}

/// A compiled graph runs every node of the declared graph in exactly one
/// pass: compilation drops no pass and repeats none.
pub proof fn law_every_node_runs_once(
    device: DeviceContext,
    nodes: Seq<GraphNode>,
    images: Seq<GraphImage>,
    reads: Seq<GraphRead>,
    surface: SwapchainSurfaceInfo,
    graph: PreparedRenderGraph,
    node: usize,
)
    requires
        is_compile_outcome(device, nodes, images, reads, surface, Ok(graph)),
        node < nodes.len(),
    ensures
        graph.pass_list().len() == nodes.len(),
        exists|i: int|
            0 <= i < graph.pass_list().len() && (#[trigger] graph.pass_list()[i]).node.index == node
                && forall|j: int|
                0 <= j < graph.pass_list().len() && j != i
                    ==> (#[trigger] graph.pass_list()[j]).node.index
                    != node,
{
    let passes = graph.pass_list();
    let order = pass_nodes(passes);
    lemma_permutation_covers(nodes.len(), order, node);
    let i = choose|i: int| 0 <= i < order.len() && order[i] == node;
    assert(passes[i].node.index == node);
    assert forall|j: int| 0 <= j < passes.len() && j != i implies (#[trigger] passes[j]).node.index
        != node by {
        assert(order[j] == passes[j].node.index);
        if j < i {
            assert(order[j] != order[i]);
        } else {
            assert(order[i] != order[j]);
        }
    }
}

/// A graph of one node that produces one image, bound to a host image of a
/// format it accepts, and that reads nothing, compiles on every device that
/// offers the node's queue. Executing the plan on that queue gives one
/// command buffer, which records the node's pass, and with it the node's
/// callback, exactly once.
pub proof fn law_single_pass_round_trip(
    device: DeviceContext,
    nodes: Seq<GraphNode>,
    images: Seq<GraphImage>,
    reads: Seq<GraphRead>,
    surface: SwapchainSurfaceInfo,
    result: Result<PreparedRenderGraph, GraphError>,
)
    requires
        is_compile_outcome(device, nodes, images, reads, surface, result),
        nodes.len() == 1,
        images.len() == 1,
        reads.len() == 0,
        images[0].producer == Some(0usize),
        images[0].host is Some,
        !host_format_mismatch(images[0]),
        device.offers(nodes[0].queue),
    ensures
        result is Ok,
        recorded_on(result->Ok_0.pass_list(), nodes[0].queue) == seq![
            RecordedPass { node: NodeHandle { index: 0 }, callback: nodes[0].callback },
        ],
{
    match result {
        Ok(graph) => {
            let passes = graph.pass_list();
            let order = pass_nodes(passes);
            assert(order.len() == 1);
            assert(order[0] < 1);
            assert(passes[0].node.index == 0);
            assert(passes.drop_last() =~= Seq::<PreparedPass>::empty());
            assert(passes.last() == passes[0]);
            reveal_with_fuel(recorded_on, 3);
            assert(recorded_on(passes, nodes[0].queue) =~= seq![
                RecordedPass { node: NodeHandle { index: 0 }, callback: nodes[0].callback },
            ]);
        },
        Err(GraphError::UnknownQueue { node }) => {},
        Err(GraphError::DanglingImage { node, read, name }) => {},
        Err(GraphError::AmbiguousImage { node, read, name }) => {},
        Err(GraphError::ConflictingConstraint { node, read, name }) => {},
        Err(GraphError::HostFormatMismatch { image }) => {},
        Err(GraphError::CyclicDependency) => {
            let order = seq![0usize];
            assert(is_permutation(1, order));
            assert forall|producer: usize, consumer: usize| #[trigger]
                depends(images, reads, producer, consumer) implies respects_edge(
                order,
                Edge { before: producer, after: consumer },
            ) by {}
            assert(is_pass_order(nodes.len(), images, reads, order));
        },
    }
}

} // verus!
