//! The direct renderer: a plugin that draws its frame in one stage of its
//! own, behind the host's asset events, with a render graph of one pass.

use vstd::prelude::*;
use vstd::string::*;
use crate::graph::{
    image_named, CallbackId, ColorClearValue, ExternalImageView, GraphOutput, LoadOp, NodeHandle,
    RenderGraphBuilder, RenderGraphImageConstraint, RenderGraphImageExtents,
    RenderGraphImageSpecification, RenderGraphQueue, ResourceState, SampleCount,
};
use crate::plan::{
    has_stage, stage_at, AppPlan, PlanError, PlanStep, ResourceId, StageLabel, StartupStage,
    SystemId,
};
use crate::prepared_graph::{
    is_compile_outcome, law_single_pass_round_trip, CommandBuffer, DeviceContext, GraphError,
    PreparedRenderGraph, RecordedPass, SwapchainSurfaceInfo,
};

verus! {

/// Stages of the direct renderer.
#[derive(Clone, Copy, Debug, PartialEq, Eq, Hash, Structural)]
pub enum RenderStage {
    /// Stage where render resources are set up.
    RenderResource,
    /// Stage where the systems of the render graph run.
    RenderGraphSystems,
    /// Stage where draw systems run.
    Draw,
    Render,
    PostRender,
}

/// What the plugin registers besides its stage, in order: the renderer's
/// resource, the startup system that sets the renderer up, and the system
/// that renders a frame.
pub open spec fn renderer_steps() -> Seq<PlanStep> {
    seq![
        PlanStep::InsertResource(ResourceId::Renderer),
        PlanStep::StartupSystem(StartupStage::Startup, SystemId::SetupRenderer),
        PlanStep::System(StageLabel::Direct(RenderStage::Render), SystemId::Render),
    ]
}

/// The plugin of the direct renderer.
#[derive(Clone, Copy, Debug, Default)]
pub struct RafxPlugin;

impl RafxPlugin {
    /// Composes the direct renderer into `app`.
    ///
    /// Puts the `Render` stage right behind the host's `AssetEvents` stage
    /// and registers the renderer's resource and systems. Fails, and changes
    /// nothing, where `app` has no `AssetEvents` stage, and else where it has
    /// the `Render` stage already.
    pub fn build(&self, app: &mut AppPlan) -> (result: Result<(), PlanError>)
        requires
            old(app).well_formed(),
        ensures
            final(app).well_formed(),
            match result {
                Ok(()) => {
                    &&& has_stage(old(app).stages(), StageLabel::AssetEvents)
                    &&& !has_stage(old(app).stages(), StageLabel::Direct(RenderStage::Render))
                    &&& forall|at: int|
                        stage_at(old(app).stages(), StageLabel::AssetEvents, at)
                            ==> final(app).stages() == old(app).stages().insert(
                            at + 1,
                            StageLabel::Direct(RenderStage::Render),
                        )
                    &&& final(app).steps() == old(app).steps() + renderer_steps()
                },
                Err(error) => {
                    &&& final(app).stages() == old(app).stages()
                    &&& final(app).steps() == old(app).steps()
                    &&& if !has_stage(old(app).stages(), StageLabel::AssetEvents) {
                        error == PlanError::UnknownStage(StageLabel::AssetEvents)
                    } else {
                        has_stage(old(app).stages(), StageLabel::Direct(RenderStage::Render))
                            && error == PlanError::DuplicateStage(
                            StageLabel::Direct(RenderStage::Render),
                        )
                    }
                },
            },
    {
        let render = StageLabel::Direct(RenderStage::Render);
        match app.add_stage_after(StageLabel::AssetEvents, render) {
            Err(error) => Err(error),
            Ok(()) => {
                proof {
                    let at = choose|at: int| stage_at(
                        old(app).stages(),
                        StageLabel::AssetEvents,
                        at,
                    );
                    assert(stage_at(app.stages(), render, at + 1));
                }
                app.insert_resource(ResourceId::Renderer);
                app.add_startup_system(SystemId::SetupRenderer);
                if let Err(error) = app.add_system_to_stage(render, SystemId::Render) {
                    return Err(error);
                }
                proof {
                    assert(app.steps() =~= old(app).steps() + renderer_steps());
                }
                Ok(())
            },
        }
    }
}

/// Resource type bit of an image that shaders sample.
pub const RESOURCE_TYPE_TEXTURE: u32 = 0x0000_0002;

/// Resource type bit of an image that is a colour attachment of a pass.
pub const RESOURCE_TYPE_RENDER_TARGET_COLOR: u32 = 0x0080_0000;

/// Number of samples that the frame is drawn with before it is resolved
/// into the swapchain image.
pub const FRAME_SAMPLE_COUNT: SampleCount = SampleCount::SampleCount4;

/// The swapchain image as the frame's output: one sample, one layer and one
/// mip level in the surface's format and size, usable as a texture and as a
/// colour attachment, kept as it comes, and ready to be presented when the
/// graph has run.
pub open spec fn swapchain_output(
    surface: SwapchainSurfaceInfo,
    view: ExternalImageView,
) -> GraphOutput {
    GraphOutput {
        view,
        specification: RenderGraphImageSpecification {
            samples: SampleCount::SampleCount1,
            format: surface.format,
            resource_type: 0x0080_0002,
            extents: RenderGraphImageExtents::MatchSurface,
            layer_count: 1,
            mip_count: 1,
        },
        load_op: LoadOp::DontCare,
        final_state: ResourceState::Present,
    }
}

/// `graph` is the graph of the direct renderer's frame: the one pass
/// `opaque` on the default graphics queue, with the callback `callback`,
/// which clears and draws the multisampled colour attachment `color`, bound
/// to the swapchain image.
pub open spec fn is_frame_graph(
    graph: RenderGraphBuilder,
    surface: SwapchainSurfaceInfo,
    view: ExternalImageView,
    callback: CallbackId,
) -> bool {
    &&& graph.well_formed()
    &&& graph.nodes().len() == 1
    &&& graph.nodes()[0].name@ == "opaque"@
    &&& graph.nodes()[0].queue == RenderGraphQueue::DefaultGraphics
    &&& graph.nodes()[0].callback == Some(callback)
    &&& graph.images().len() == 1
    &&& graph.images()[0].producer == Some(0usize)
    &&& graph.images()[0].attachment_index == 0
    &&& graph.images()[0].clear matches Some(clear)
    &&& clear.channel_bits@ == seq![0u32, 0u32, 0u32, 0u32]
    &&& image_named(graph.images(), 0, "color"@)
    &&& graph.images()[0].constraint == (RenderGraphImageConstraint {
        samples: Some(FRAME_SAMPLE_COUNT),
        format: Some(surface.format),
    })
    &&& graph.images()[0].host == Some(swapchain_output(surface, view))
    &&& graph.reads().len() == 0
}

/// Declares the render graph of a frame that is drawn to the swapchain image
/// `view` of `surface`, by the work registered under `callback`.
pub fn build_render_graph(
    surface: &SwapchainSurfaceInfo,
    view: ExternalImageView,
    callback: CallbackId,
) -> (graph: RenderGraphBuilder)
    ensures
        is_frame_graph(graph, *surface, view, callback),
{
    let mut graph = RenderGraphBuilder::new();
    let node = graph.add_node("opaque", RenderGraphQueue::DefaultGraphics);
    let color = graph.create_color_attachment(
        node,
        0,
        Some(ColorClearValue { channel_bits: [0, 0, 0, 0] }),
        RenderGraphImageConstraint { samples: Some(FRAME_SAMPLE_COUNT),
            format: Some(surface.format) },
    );
    graph.set_image_name(color, "color");
    graph.set_renderpass_callback(node, callback);
    graph.set_output_image(
        color,
        view,
        RenderGraphImageSpecification {
            samples: SampleCount::SampleCount1,
            format: surface.format,
            resource_type: RESOURCE_TYPE_TEXTURE | RESOURCE_TYPE_RENDER_TARGET_COLOR,
            extents: RenderGraphImageExtents::MatchSurface,
            layer_count: 1,
            mip_count: 1,
        },
        LoadOp::DontCare,
        ResourceState::Present,
    );
    proof {
        assert(0x0000_0002u32 | 0x0080_0000u32 == 0x0080_0002u32) by (bit_vector);
    }
    graph
}

/// Renders a frame of the direct renderer as far as the library goes:
/// declares the frame's graph, compiles it for `device` and `surface`, and
/// records it for the default graphics queue.
///
/// The frame's graph compiles on every device and surface. The result is
/// the one command buffer of the frame, which records the one pass, and so
/// calls `callback` once. The host runs the callbacks, submits the command
/// buffer and presents the image.
pub fn render(
    device: &DeviceContext,
    surface: &SwapchainSurfaceInfo,
    view: ExternalImageView,
    callback: CallbackId,
) -> (result: Result<Vec<CommandBuffer>, GraphError>)
    ensures
        result is Ok,
        result->Ok_0.len() == 1,
        result->Ok_0[0].queue == RenderGraphQueue::DefaultGraphics,
        result->Ok_0[0].passes@ == seq![
            RecordedPass { node: NodeHandle { index: 0 }, callback: Some(callback) },
        ],
{
    let graph = build_render_graph(surface, view, callback);
    let compiled = PreparedRenderGraph::new(device, graph, surface);
    proof {
        law_single_pass_round_trip(
            *device,
            graph.nodes(),
            graph.images(),
            graph.reads(),
            *surface,
            compiled,
        );
    }
    match compiled {
        Ok(prepared) => Ok(prepared.execute_graph(RenderGraphQueue::DefaultGraphics)),
        Err(error) => Err(error),
    }
}

} // verus!
