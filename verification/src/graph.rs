//! Declaring a render graph: passes, the images they produce and read, and
//! the images handed over to the host.
//!
//! A graph is declared through a [`RenderGraphBuilder`]. Nodes are passes on a
//! queue. Each image is produced by one node, or provided by the host. A node
//! reads an image by the image's name, so the edges between nodes are implied
//! by names shared between a producer and its readers.

use vstd::prelude::*;
use vstd::string::*;
use crate::sequence::same_but_at;

verus! {

/// Format of an image, as the numeric code the graphics backend uses for it.
pub type ImageFormat = u32;

/// Key by which the host finds a concrete image view it provided.
pub type ExternalImageView = u64;

/// Key by which the host finds the work it registered for a pass.
pub type CallbackId = u32;

/// The queue a pass is recorded on.
#[derive(Clone, Copy, Debug, PartialEq, Eq, Hash, Structural)]
pub enum RenderGraphQueue {
    DefaultGraphics,
    Index(u32),
}

/// State an image is left in when the graph has run.
#[derive(Clone, Copy, Debug, PartialEq, Eq, Structural)]
pub enum ResourceState {
    Undefined,
    RenderTarget,
    ShaderResource,
    CopySource,
    CopyDestination,
    Present,
}

/// What happens to the previous contents of a host image when a pass starts.
#[derive(Clone, Copy, Debug, PartialEq, Eq, Structural)]
pub enum LoadOp {
    DontCare,
    Load,
    Clear,
}

/// Number of samples of an image.
#[derive(Clone, Copy, Debug, PartialEq, Eq, Hash, Structural)]
pub enum SampleCount {
    SampleCount1,
    SampleCount2,
    SampleCount4,
    SampleCount8,
    SampleCount16,
}

/// Size of a graph image.
#[derive(Clone, Copy, Debug, PartialEq, Eq, Structural)]
pub enum RenderGraphImageExtents {
    MatchSurface,
    Custom(u32, u32, u32),
}

/// Clear colour of an attachment: the bit patterns of its four single
/// precision channels, red first.
#[derive(Clone, Copy, Debug)]
pub struct ColorClearValue {
    pub channel_bits: [u32; 4],
}

/// What a node asks of an image it produces or reads. `None` leaves the
/// property to be inferred.
#[derive(Clone, Copy, Debug)]
pub struct RenderGraphImageConstraint {
    pub samples: Option<SampleCount>,
    pub format: Option<ImageFormat>,
}

/// Full description of a concrete image.
#[derive(Clone, Copy, Debug)]
pub struct RenderGraphImageSpecification {
    pub samples: SampleCount,
    pub format: ImageFormat,
    pub resource_type: u32,
    pub extents: RenderGraphImageExtents,
    pub layer_count: u32,
    pub mip_count: u32,
}

/// Handle of a node of a graph.
#[derive(Clone, Copy, Debug, PartialEq, Eq, Hash, Structural)]
pub struct NodeHandle {
    pub index: usize,
}

/// Handle of an image of a graph.
#[derive(Clone, Copy, Debug, PartialEq, Eq, Hash, Structural)]
pub struct ImageHandle {
    pub index: usize,
}

/// A pass of the graph.
pub struct GraphNode {
    pub name: String,
    pub queue: RenderGraphQueue,
    pub callback: Option<CallbackId>,
}

/// A host image bound to a graph image.
#[derive(Clone, Copy, Debug)]
pub struct GraphOutput {
    pub view: ExternalImageView,
    pub specification: RenderGraphImageSpecification,
    pub load_op: LoadOp,
    pub final_state: ResourceState,
}

/// An image of the graph. `producer` is the node that creates it, or `None`
/// for an image the host provides. `host` is the host image it is bound to.
pub struct GraphImage {
    pub producer: Option<usize>,
    pub attachment_index: usize,
    pub clear: Option<ColorClearValue>,
    pub name: Option<String>,
    pub constraint: RenderGraphImageConstraint,
    pub host: Option<GraphOutput>,
}

/// A node reading an image that it names.
pub struct GraphRead {
    pub node: usize,
    pub name: String,
    pub constraint: RenderGraphImageConstraint,
}

/// Image `at` carries the name `name`.
pub open spec fn image_named(images: Seq<GraphImage>, at: int, name: Seq<char>) -> bool {
    &&& 0 <= at < images.len()
    &&& images[at].name matches Some(own)
    &&& own@ == name
}

/// `after` is the image `before` under another name.
pub open spec fn is_renamed(before: GraphImage, after: GraphImage, name: Seq<char>) -> bool {
    &&& after.name matches Some(own)
    &&& own@ == name
    &&& after.producer == before.producer
    &&& after.attachment_index == before.attachment_index
    &&& after.clear == before.clear
    &&& after.constraint == before.constraint
    &&& after.host == before.host
}

/// `after` is the image `before`, bound to the host image `host`.
pub open spec fn is_bound(before: GraphImage, after: GraphImage, host: GraphOutput) -> bool {
    &&& after.host == Some(host)
    &&& after.name == before.name
    &&& after.producer == before.producer
    &&& after.attachment_index == before.attachment_index
    &&& after.clear == before.clear
    &&& after.constraint == before.constraint
}

/// Every producer and every reader is one of the nodes.
pub open spec fn handles_in_range(
    nodes: Seq<GraphNode>,
    images: Seq<GraphImage>,
    reads: Seq<GraphRead>,
) -> bool {
    &&& forall|m: int|
        0 <= m < images.len() ==> (#[trigger] images[m].producer matches Some(node) ==> node
            < nodes.len())
    &&& forall|r: int| 0 <= r < reads.len() ==> (#[trigger] reads[r]).node < nodes.len()
}

/// A declarative graph of passes and the images that connect them.
pub struct RenderGraphBuilder {
    nodes: Vec<GraphNode>,
    images: Vec<GraphImage>,
    reads: Vec<GraphRead>,
}

impl RenderGraphBuilder {
    /// The nodes declared so far; a node's handle is its position.
    pub closed spec fn nodes(&self) -> Seq<GraphNode> {
        self.nodes@
    }

    /// The images declared so far; an image's handle is its position.
    pub closed spec fn images(&self) -> Seq<GraphImage> {
        self.images@
    }

    /// The reads declared so far, in the order of their declaration.
    pub closed spec fn reads(&self) -> Seq<GraphRead> {
        self.reads@
    }

    /// Producers and readers are nodes of this graph. Every builder that
    /// [`Self::new`] and the methods below hand out is well formed.
    pub open spec fn well_formed(&self) -> bool {
        handles_in_range(self.nodes(), self.images(), self.reads())
    }

    /// `node` is a node of this graph.
    pub open spec fn has_node(&self, node: NodeHandle) -> bool {
        node.index < self.nodes().len()
    }

    /// `image` is an image of this graph.
    pub open spec fn has_image(&self, image: ImageHandle) -> bool {
        image.index < self.images().len()
    }

    /// A graph without nodes, images or reads.
    pub fn new() -> (builder: Self)
        ensures
            builder.well_formed(),
            builder.nodes().len() == 0,
            builder.images().len() == 0,
            builder.reads().len() == 0,
    {
        RenderGraphBuilder { nodes: Vec::new(), images: Vec::new(), reads: Vec::new() }
    }

    /// Number of nodes declared.
    pub fn node_count(&self) -> (count: usize)
        ensures
            count == self.nodes().len(),
    {
        self.nodes.len()
    }

    /// Number of images declared.
    pub fn image_count(&self) -> (count: usize)
        ensures
            count == self.images().len(),
    {
        self.images.len()
    }

    /// The nodes declared so far.
    pub fn node_list(&self) -> (nodes: &Vec<GraphNode>)
        ensures
            nodes@ == self.nodes(),
    {
        &self.nodes
    }

    /// The images declared so far.
    pub fn image_list(&self) -> (images: &Vec<GraphImage>)
        ensures
            images@ == self.images(),
    {
        &self.images
    }

    /// The reads declared so far.
    pub fn read_list(&self) -> (reads: &Vec<GraphRead>)
        ensures
            reads@ == self.reads(),
    {
        &self.reads
    }

    /// Adds a pass named `name` on `queue`, without a callback yet.
    pub fn add_node(&mut self, name: &str, queue: RenderGraphQueue) -> (node: NodeHandle)
        requires
            old(self).well_formed(),
        ensures
            final(self).well_formed(),
            node.index == old(self).nodes().len(),
            final(self).nodes().len() == old(self).nodes().len() + 1,
            final(self).nodes().take(node.index as int) == old(self).nodes(),
            final(self).nodes()[node.index as int].name@ == name@,
            final(self).nodes()[node.index as int].queue == queue,
            final(self).nodes()[node.index as int].callback is None,
            final(self).images() == old(self).images(),
            final(self).reads() == old(self).reads(),
    {
        let index: usize = self.nodes.len();
        self.nodes.push(GraphNode { name: String::from_str(name), queue, callback: None });
        assert(self.nodes@.take(index as int) =~= old(self).nodes@);
        NodeHandle { index }
    }

    /// Creates an image that `node` produces as its colour attachment number
    /// `attachment_index`. The image has no name and no host image yet.
    pub fn create_color_attachment(
        &mut self,
        node: NodeHandle,
        attachment_index: usize,
        clear: Option<ColorClearValue>,
        constraint: RenderGraphImageConstraint,
    ) -> (image: ImageHandle)
        requires
            old(self).well_formed(),
            old(self).has_node(node),
        ensures
            final(self).well_formed(),
            image.index == old(self).images().len(),
            final(self).images().len() == old(self).images().len() + 1,
            final(self).images().take(image.index as int) == old(self).images(),
            final(self).images()[image.index as int].producer == Some(node.index),
            final(self).images()[image.index as int].attachment_index == attachment_index,
            final(self).images()[image.index as int].clear == clear,
            final(self).images()[image.index as int].name is None,
            final(self).images()[image.index as int].constraint == constraint,
            final(self).images()[image.index as int].host is None,
            final(self).nodes() == old(self).nodes(),
            final(self).reads() == old(self).reads(),
    {
        let index: usize = self.images.len();
        self.images.push(
            GraphImage {
                producer: Some(node.index),
                attachment_index,
                clear,
                name: None,
                constraint,
                host: None,
            },
        );
        assert(self.images@.take(index as int) =~= old(self).images@);
        ImageHandle { index }
    }

    /// Declares an image that the host provides and no node produces. Nodes
    /// read it under `name`.
    pub fn add_external_image(
        &mut self,
        name: &str,
        view: ExternalImageView,
        specification: RenderGraphImageSpecification,
        final_state: ResourceState,
    ) -> (image: ImageHandle)
        requires
            old(self).well_formed(),
        ensures
            final(self).well_formed(),
            image.index == old(self).images().len(),
            final(self).images().len() == old(self).images().len() + 1,
            final(self).images().take(image.index as int) == old(self).images(),
            final(self).images()[image.index as int].producer is None,
            final(self).images()[image.index as int].clear is None,
            image_named(final(self).images(), image.index as int, name@),
            final(self).images()[image.index as int].constraint == (RenderGraphImageConstraint {
                samples: Some(specification.samples),
                format: Some(specification.format),
            }),
            final(self).images()[image.index as int].host == Some(
                GraphOutput { view, specification, load_op: LoadOp::Load, final_state },
            ),
            final(self).nodes() == old(self).nodes(),
            final(self).reads() == old(self).reads(),
    {
        let index: usize = self.images.len();
        self.images.push(
            GraphImage {
                producer: None,
                attachment_index: 0,
                clear: None,
                name: Some(String::from_str(name)),
                constraint: RenderGraphImageConstraint {
                    samples: Some(specification.samples),
                    format: Some(specification.format),
                },
                host: Some(GraphOutput { view, specification, load_op: LoadOp::Load, final_state }),
            },
        );
        assert(self.images@.take(index as int) =~= old(self).images@);
        ImageHandle { index }
    }

    /// Names an image, so that nodes can read it.
    pub fn set_image_name(&mut self, image: ImageHandle, name: &str)
        requires
            old(self).well_formed(),
            old(self).has_image(image),
        ensures
            final(self).well_formed(),
            same_but_at(old(self).images(), final(self).images(), image.index as int),
            is_renamed(
                old(self).images()[image.index as int],
                final(self).images()[image.index as int],
                name@,
            ),
            final(self).nodes() == old(self).nodes(),
            final(self).reads() == old(self).reads(),
    {
        let current = &self.images[image.index];
        let renamed = GraphImage {
            producer: current.producer,
            attachment_index: current.attachment_index,
            clear: current.clear,
            name: Some(String::from_str(name)),
            constraint: current.constraint,
            host: current.host,
        };
        self.images.set(image.index, renamed);
    }

    /// Declares that `image` is written to the host image `view`, which has
    /// the given specification and is left in `final_state`.
    pub fn set_output_image(
        &mut self,
        image: ImageHandle,
        view: ExternalImageView,
        specification: RenderGraphImageSpecification,
        load_op: LoadOp,
        final_state: ResourceState,
    )
        requires
            old(self).well_formed(),
            old(self).has_image(image),
        ensures
            final(self).well_formed(),
            same_but_at(old(self).images(), final(self).images(), image.index as int),
            is_bound(
                old(self).images()[image.index as int],
                final(self).images()[image.index as int],
                GraphOutput { view, specification, load_op, final_state },
            ),
            final(self).nodes() == old(self).nodes(),
            final(self).reads() == old(self).reads(),
    {
        let current = &self.images[image.index];
        let name: Option<String> = match &current.name {
            Some(own) => Some(own.clone()),
            None => None,
        };
        let bound = GraphImage {
            producer: current.producer,
            attachment_index: current.attachment_index,
            clear: current.clear,
            name,
            constraint: current.constraint,
            host: Some(GraphOutput { view, specification, load_op, final_state }),
        };
        self.images.set(image.index, bound);
    }

    /// Declares that `node` reads the image named `name`.
    pub fn read_image(
        &mut self,
        node: NodeHandle,
        name: &str,
        constraint: RenderGraphImageConstraint,
    )
        requires
            old(self).well_formed(),
            old(self).has_node(node),
        ensures
            final(self).well_formed(),
            final(self).reads().len() == old(self).reads().len() + 1,
            final(self).reads().take(old(self).reads().len() as int) == old(self).reads(),
            final(self).reads()[old(self).reads().len() as int].node == node.index,
            final(self).reads()[old(self).reads().len() as int].name@ == name@,
            final(self).reads()[old(self).reads().len() as int].constraint == constraint,
            final(self).nodes() == old(self).nodes(),
            final(self).images() == old(self).images(),
    {
        let index: usize = self.reads.len();
        self.reads.push(GraphRead { node: node.index, name: String::from_str(name), constraint });
        assert(self.reads@.take(index as int) =~= old(self).reads@);
    }

    /// Registers the work to run for the pass `node`. A pass takes one
    /// callback.
    pub fn set_renderpass_callback(&mut self, node: NodeHandle, callback: CallbackId)
        requires
            old(self).well_formed(),
            old(self).has_node(node),
            old(self).nodes()[node.index as int].callback is None,
        ensures
            final(self).well_formed(),
            same_but_at(old(self).nodes(), final(self).nodes(), node.index as int),
            final(self).nodes()[node.index as int].callback == Some(callback),
            final(self).nodes()[node.index as int].name
                == old(self).nodes()[node.index as int].name,
            final(self).nodes()[node.index as int].queue
                == old(self).nodes()[node.index as int].queue,
            final(self).images() == old(self).images(),
            final(self).reads() == old(self).reads(),
    {
        let current = &self.nodes[node.index];
        let updated = GraphNode {
            name: current.name.clone(),
            queue: current.queue,
            callback: Some(callback),
        };
        self.nodes.set(node.index, updated);
    }

    /// Takes the graph apart into its nodes, images and reads.
    pub(crate) fn into_parts(self) -> (parts: (Vec<GraphNode>, Vec<GraphImage>, Vec<GraphRead>))
        requires
            self.well_formed(),
        ensures
            parts.0@ == self.nodes(),
            parts.1@ == self.images(),
            parts.2@ == self.reads(),
            handles_in_range(parts.0@, parts.1@, parts.2@),
    {
        (self.nodes, self.images, self.reads)
    }
}

impl Default for RenderGraphBuilder {
    /// A graph without nodes, images or reads.
    fn default() -> (builder: Self)
        ensures
            builder.well_formed(),
            builder.nodes().len() == 0,
            builder.images().len() == 0,
            builder.reads().len() == 0,
    {
        RenderGraphBuilder::new()
    }
}

} // verus!
