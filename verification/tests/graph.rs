use bevy_rafx::graph::{
    ColorClearValue, ImageHandle, LoadOp, NodeHandle, RenderGraphBuilder, RenderGraphImageConstraint,
    RenderGraphImageExtents, RenderGraphImageSpecification, RenderGraphQueue, ResourceState,
    SampleCount,
};
use bevy_rafx::prepared_graph::{
    DeviceContext, GraphError, ImageBinding, PreparedRenderGraph, RecordedPass, SwapchainSurfaceInfo,
};
use bevy_rafx::rafx_plugin::{build_render_graph, render};

const FORMAT_BGRA: u32 = 50;
const FORMAT_DEPTH: u32 = 126;

fn device() -> DeviceContext {
    DeviceContext { indexed_queue_count: 2 }
}

fn surface() -> SwapchainSurfaceInfo {
    SwapchainSurfaceInfo { format: FORMAT_BGRA, width: 900, height: 600 }
}

fn any() -> RenderGraphImageConstraint {
    RenderGraphImageConstraint { samples: None, format: None }
}

fn swapchain_image() -> RenderGraphImageSpecification {
    RenderGraphImageSpecification {
        samples: SampleCount::SampleCount1,
        format: FORMAT_BGRA,
        resource_type: 0x0080_0002,
        extents: RenderGraphImageExtents::MatchSurface,
        layer_count: 1,
        mip_count: 1,
    }
}

fn node_order(graph: &PreparedRenderGraph) -> Vec<usize> {
    graph.passes().iter().map(|pass| pass.node.index).collect()
}

#[test]
fn one_pass_with_one_output_runs_its_callback_once() {
    let mut builder = RenderGraphBuilder::new();
    let node = builder.add_node("opaque", RenderGraphQueue::DefaultGraphics);
    let color = builder.create_color_attachment(
        node,
        0,
        Some(ColorClearValue { channel_bits: [0, 0, 0, 0] }),
        RenderGraphImageConstraint { samples: Some(SampleCount::SampleCount4), format: Some(FORMAT_BGRA) },
    );
    builder.set_image_name(color, "color");
    builder.set_renderpass_callback(node, 17);
    builder.set_output_image(color, 9000, swapchain_image(), LoadOp::DontCare, ResourceState::Present);

    let graph = PreparedRenderGraph::new(&device(), builder, &surface()).unwrap();
    assert_eq!(graph.passes().len(), 1);
    assert_eq!(graph.passes()[0].name, "opaque");
    assert_eq!(graph.passes()[0].callback, Some(17));
    assert_eq!(graph.bindings().len(), 1);
    match graph.bindings()[0] {
        ImageBinding::Host { view, specification, load_op, final_state } => {
            assert_eq!(view, 9000);
            assert_eq!(specification.samples, SampleCount::SampleCount1);
            assert_eq!(specification.format, FORMAT_BGRA);
            assert_eq!(load_op, LoadOp::DontCare);
            assert_eq!(final_state, ResourceState::Present);
        }
        ImageBinding::Transient { .. } => panic!("the output is the host's image"),
    }

    let buffers = graph.execute_graph(RenderGraphQueue::DefaultGraphics);
    assert_eq!(buffers.len(), 1);
    assert_eq!(buffers[0].queue, RenderGraphQueue::DefaultGraphics);
    assert_eq!(buffers[0].passes.len(), 1);
    assert_eq!(buffers[0].passes[0].node, node);
    assert_eq!(buffers[0].passes[0].callback, Some(17));
}

#[test]
fn the_frame_of_the_direct_renderer_is_one_command_buffer() {
    let buffers = render(&DeviceContext { indexed_queue_count: 0 }, &surface(), 31, 4).unwrap();
    assert_eq!(buffers.len(), 1);
    assert_eq!(buffers[0].queue, RenderGraphQueue::DefaultGraphics);
    assert_eq!(buffers[0].passes.len(), 1);
    assert_eq!(buffers[0].passes[0].node, NodeHandle { index: 0 });
    assert_eq!(buffers[0].passes[0].callback, Some(4));

    let graph = build_render_graph(&surface(), 31, 4);
    assert_eq!(graph.node_count(), 1);
    assert_eq!(graph.image_count(), 1);
    let prepared = PreparedRenderGraph::new(&device(), graph, &surface()).unwrap();
    assert_eq!(prepared.passes()[0].name, "opaque");
    match prepared.bindings()[0] {
        ImageBinding::Host { view, specification, final_state, .. } => {
            assert_eq!(view, 31);
            assert_eq!(specification.resource_type, 0x0080_0002);
            assert_eq!(specification.extents, RenderGraphImageExtents::MatchSurface);
            assert_eq!((specification.layer_count, specification.mip_count), (1, 1));
            assert_eq!(final_state, ResourceState::Present);
        }
        ImageBinding::Transient { .. } => panic!("the frame is drawn to the swapchain image"),
    }
}

#[test]
fn a_dangling_read_fails_compilation() {
    let mut builder = RenderGraphBuilder::new();
    let opaque = builder.add_node("opaque", RenderGraphQueue::DefaultGraphics);
    let post = builder.add_node("post", RenderGraphQueue::DefaultGraphics);
    let color = builder.create_color_attachment(opaque, 0, None, any());
    builder.set_image_name(color, "color");
    builder.read_image(post, "color", any());
    builder.read_image(post, "depth", any());
    let out = builder.create_color_attachment(post, 0, None, any());
    builder.set_output_image(out, 1, swapchain_image(), LoadOp::Clear, ResourceState::Present);

    match PreparedRenderGraph::new(&device(), builder, &surface()) {
        Err(GraphError::DanglingImage { node, read, name }) => {
            assert_eq!(node, post);
            assert_eq!(read, 1);
            assert_eq!(name, "depth");
        }
        other => panic!("expected a dangling image, got {:?}", other),
    }
}

#[test]
fn an_unnamed_image_cannot_be_read() {
    let mut builder = RenderGraphBuilder::new();
    let a = builder.add_node("a", RenderGraphQueue::DefaultGraphics);
    let b = builder.add_node("b", RenderGraphQueue::DefaultGraphics);
    builder.create_color_attachment(a, 0, None, any());
    builder.read_image(b, "", any());
    assert!(matches!(
        PreparedRenderGraph::new(&device(), builder, &surface()),
        Err(GraphError::DanglingImage { read: 0, .. })
    ));
}

#[test]
fn an_image_of_the_host_needs_no_producer() {
    let mut builder = RenderGraphBuilder::new();
    let node = builder.add_node("blit", RenderGraphQueue::DefaultGraphics);
    let shadow = builder.add_external_image(
        "shadow map",
        55,
        RenderGraphImageSpecification {
            samples: SampleCount::SampleCount1,
            format: FORMAT_DEPTH,
            resource_type: 2,
            extents: RenderGraphImageExtents::Custom(1024, 1024, 1),
            layer_count: 1,
            mip_count: 1,
        },
        ResourceState::ShaderResource,
    );
    assert_eq!(shadow, ImageHandle { index: 0 });
    builder.read_image(node, "shadow map", RenderGraphImageConstraint { samples: Some(SampleCount::SampleCount1), format: None });
    let graph = PreparedRenderGraph::new(&device(), builder, &surface()).unwrap();
    assert_eq!(node_order(&graph), vec![0]);
    match graph.bindings()[0] {
        ImageBinding::Host { view, specification, load_op, final_state } => {
            assert_eq!(view, 55);
            assert_eq!(specification.format, FORMAT_DEPTH);
            assert_eq!(specification.extents, RenderGraphImageExtents::Custom(1024, 1024, 1));
            assert_eq!(load_op, LoadOp::Load);
            assert_eq!(final_state, ResourceState::ShaderResource);
        }
        ImageBinding::Transient { .. } => panic!("the image is the host's"),
    }
}

#[test]
fn a_name_carried_by_two_images_is_ambiguous() {
    let mut builder = RenderGraphBuilder::new();
    let a = builder.add_node("a", RenderGraphQueue::DefaultGraphics);
    let b = builder.add_node("b", RenderGraphQueue::DefaultGraphics);
    let c = builder.add_node("c", RenderGraphQueue::DefaultGraphics);
    let first = builder.create_color_attachment(a, 0, None, any());
    let second = builder.create_color_attachment(b, 0, None, any());
    builder.set_image_name(first, "color");
    builder.set_image_name(second, "color");
    builder.read_image(c, "color", any());
    match PreparedRenderGraph::new(&device(), builder, &surface()) {
        Err(GraphError::AmbiguousImage { node, read, name }) => {
            assert_eq!(node, c);
            assert_eq!(read, 0);
            assert_eq!(name, "color");
        }
        other => panic!("expected an ambiguous image, got {:?}", other),
    }
}

#[test]
fn conflicting_sample_counts_fail_compilation() {
    let mut builder = RenderGraphBuilder::new();
    let a = builder.add_node("a", RenderGraphQueue::DefaultGraphics);
    let b = builder.add_node("b", RenderGraphQueue::DefaultGraphics);
    let image = builder.create_color_attachment(
        a,
        0,
        None,
        RenderGraphImageConstraint { samples: Some(SampleCount::SampleCount4), format: Some(FORMAT_BGRA) },
    );
    builder.set_image_name(image, "color");
    builder.read_image(b, "color", RenderGraphImageConstraint { samples: None, format: Some(FORMAT_BGRA) });
    builder.read_image(b, "color", RenderGraphImageConstraint { samples: Some(SampleCount::SampleCount1), format: None });
    match PreparedRenderGraph::new(&device(), builder, &surface()) {
        Err(GraphError::ConflictingConstraint { node, read, name }) => {
            assert_eq!(node, b);
            assert_eq!(read, 1);
            assert_eq!(name, "color");
        }
        other => panic!("expected a conflicting constraint, got {:?}", other),
    }
}

#[test]
fn conflicting_formats_fail_compilation() {
    let mut builder = RenderGraphBuilder::new();
    let a = builder.add_node("a", RenderGraphQueue::DefaultGraphics);
    let b = builder.add_node("b", RenderGraphQueue::DefaultGraphics);
    let image = builder.create_color_attachment(
        a,
        0,
        None,
        RenderGraphImageConstraint { samples: None, format: Some(FORMAT_BGRA) },
    );
    builder.set_image_name(image, "color");
    builder.read_image(b, "color", RenderGraphImageConstraint { samples: Some(SampleCount::SampleCount8), format: Some(FORMAT_DEPTH) });
    assert!(matches!(
        PreparedRenderGraph::new(&device(), builder, &surface()),
        Err(GraphError::ConflictingConstraint { read: 0, .. })
    ));
}

#[test]
fn an_output_of_another_format_fails_compilation() {
    let mut builder = RenderGraphBuilder::new();
    let a = builder.add_node("a", RenderGraphQueue::DefaultGraphics);
    let fine = builder.create_color_attachment(a, 0, None, any());
    let wrong = builder.create_color_attachment(
        a,
        1,
        None,
        RenderGraphImageConstraint { samples: Some(SampleCount::SampleCount4), format: Some(FORMAT_DEPTH) },
    );
    builder.set_output_image(fine, 1, swapchain_image(), LoadOp::Clear, ResourceState::Present);
    builder.set_output_image(wrong, 2, swapchain_image(), LoadOp::Clear, ResourceState::Present);
    match PreparedRenderGraph::new(&device(), builder, &surface()) {
        Err(GraphError::HostFormatMismatch { image }) => assert_eq!(image, wrong),
        other => panic!("expected a format mismatch, got {:?}", other),
    }
}

#[test]
fn a_queue_that_the_device_lacks_fails_compilation() {
    let mut builder = RenderGraphBuilder::new();
    builder.add_node("a", RenderGraphQueue::DefaultGraphics);
    builder.add_node("b", RenderGraphQueue::Index(1));
    let c = builder.add_node("c", RenderGraphQueue::Index(2));
    builder.add_node("d", RenderGraphQueue::Index(7));
    builder.read_image(c, "nothing", any());
    match PreparedRenderGraph::new(&device(), builder, &surface()) {
        Err(GraphError::UnknownQueue { node }) => assert_eq!(node, c),
        other => panic!("expected an unknown queue, got {:?}", other),
    }
}

#[test]
fn nodes_that_wait_for_each_other_fail_compilation() {
    let mut builder = RenderGraphBuilder::new();
    let a = builder.add_node("a", RenderGraphQueue::DefaultGraphics);
    let b = builder.add_node("b", RenderGraphQueue::DefaultGraphics);
    let x = builder.create_color_attachment(a, 0, None, any());
    let y = builder.create_color_attachment(b, 0, None, any());
    builder.set_image_name(x, "x");
    builder.set_image_name(y, "y");
    builder.read_image(a, "y", any());
    builder.read_image(b, "x", any());
    assert!(matches!(
        PreparedRenderGraph::new(&device(), builder, &surface()),
        Err(GraphError::CyclicDependency)
    ));

    let mut own = RenderGraphBuilder::new();
    let node = own.add_node("a", RenderGraphQueue::DefaultGraphics);
    let image = own.create_color_attachment(node, 0, None, any());
    own.set_image_name(image, "x");
    own.read_image(node, "x", any());
    assert!(matches!(
        PreparedRenderGraph::new(&device(), own, &surface()),
        Err(GraphError::CyclicDependency)
    ));
}

#[test]
fn producers_run_before_their_readers() {
    let mut builder = RenderGraphBuilder::new();
    let post = builder.add_node("post", RenderGraphQueue::DefaultGraphics);
    let ui = builder.add_node("ui", RenderGraphQueue::Index(0));
    let opaque = builder.add_node("opaque", RenderGraphQueue::DefaultGraphics);
    let shadow = builder.add_node("shadow", RenderGraphQueue::Index(1));
    let depth = builder.create_color_attachment(shadow, 0, None, any());
    builder.set_image_name(depth, "shadow");
    let color = builder.create_color_attachment(
        opaque,
        0,
        None,
        RenderGraphImageConstraint { samples: Some(SampleCount::SampleCount2), format: None },
    );
    builder.set_image_name(color, "color");
    let lit = builder.create_color_attachment(post, 0, None, any());
    builder.set_image_name(lit, "lit");
    builder.read_image(opaque, "shadow", any());
    builder.read_image(post, "color", any());
    builder.read_image(ui, "lit", any());
    builder.set_renderpass_callback(post, 100);
    builder.set_renderpass_callback(opaque, 102);

    let graph = PreparedRenderGraph::new(&device(), builder, &surface()).unwrap();
    assert_eq!(node_order(&graph), vec![shadow.index, opaque.index, post.index, ui.index]);
    let names: Vec<&str> = graph.passes().iter().map(|pass| pass.name.as_str()).collect();
    assert_eq!(names, vec!["shadow", "opaque", "post", "ui"]);
    assert_eq!(graph.passes()[1].callback, Some(102));
    assert_eq!(graph.passes()[0].callback, None);
    assert_eq!(graph.passes()[0].queue, RenderGraphQueue::Index(1));

    match graph.bindings()[1] {
        ImageBinding::Transient { samples, format, width, height } => {
            assert_eq!(samples, SampleCount::SampleCount2);
            assert_eq!(format, FORMAT_BGRA);
            assert_eq!((width, height), (900, 600));
        }
        ImageBinding::Host { .. } => panic!("nothing was bound to the image"),
    }
    match graph.bindings()[0] {
        ImageBinding::Transient { samples, .. } => assert_eq!(samples, SampleCount::SampleCount1),
        ImageBinding::Host { .. } => panic!("nothing was bound to the image"),
    }
}

#[test]
fn a_command_buffer_holds_the_passes_of_its_queue() {
    let build = || {
        let mut builder = RenderGraphBuilder::new();
        let a = builder.add_node("a", RenderGraphQueue::DefaultGraphics);
        let b = builder.add_node("b", RenderGraphQueue::Index(1));
        let c = builder.add_node("c", RenderGraphQueue::DefaultGraphics);
        builder.set_renderpass_callback(a, 1);
        builder.set_renderpass_callback(c, 3);
        let image = builder.create_color_attachment(c, 0, None, any());
        builder.set_image_name(image, "first");
        builder.read_image(a, "first", any());
        let _ = b;
        PreparedRenderGraph::new(&device(), builder, &surface()).unwrap()
    };
    assert_eq!(node_order(&build()), vec![1, 2, 0]);

    let graphics = build().execute_graph(RenderGraphQueue::DefaultGraphics);
    assert_eq!(graphics.len(), 1);
    let recorded: Vec<(usize, Option<u32>)> =
        graphics[0].passes.iter().map(|pass: &RecordedPass| (pass.node.index, pass.callback)).collect();
    assert_eq!(recorded, vec![(2, Some(3)), (0, Some(1))]);

    let compute = build().execute_graph(RenderGraphQueue::Index(1));
    assert_eq!(compute.len(), 1);
    assert_eq!(compute[0].queue, RenderGraphQueue::Index(1));
    assert_eq!(compute[0].passes.len(), 1);
    assert_eq!(compute[0].passes[0].node.index, 1);
    assert_eq!(compute[0].passes[0].callback, None);

    let idle = build().execute_graph(RenderGraphQueue::Index(0));
    assert_eq!(idle.len(), 1);
    assert!(idle[0].passes.is_empty());
}

#[test]
fn an_empty_graph_compiles_to_an_empty_plan() {
    let graph = PreparedRenderGraph::new(&device(), RenderGraphBuilder::default(), &surface()).unwrap();
    assert!(graph.passes().is_empty());
    assert!(graph.bindings().is_empty());
    let buffers = graph.execute_graph(RenderGraphQueue::DefaultGraphics);
    assert_eq!(buffers.len(), 1);
    assert!(buffers[0].passes.is_empty());
}

#[test]
fn a_device_offers_the_default_queue_and_its_indexed_queues() {
    let device = DeviceContext { indexed_queue_count: 2 };
    assert!(device.has_queue(RenderGraphQueue::DefaultGraphics));
    assert!(device.has_queue(RenderGraphQueue::Index(0)));
    assert!(device.has_queue(RenderGraphQueue::Index(1)));
    assert!(!device.has_queue(RenderGraphQueue::Index(2)));
    assert!(DeviceContext { indexed_queue_count: 0 }.has_queue(RenderGraphQueue::DefaultGraphics));
    assert!(!DeviceContext { indexed_queue_count: 0 }.has_queue(RenderGraphQueue::Index(0)));
}

#[test]
fn errors_say_what_is_wrong() {
    let node = NodeHandle { index: 3 };
    let name = "depth".to_string();
    assert_eq!(
        GraphError::DanglingImage { node, read: 1, name: name.clone() }.message(),
        "no image carries the name depth"
    );
    assert_eq!(
        GraphError::AmbiguousImage { node, read: 1, name: name.clone() }.message(),
        "several images carry the name depth"
    );
    assert_eq!(
        GraphError::ConflictingConstraint { node, read: 1, name }.message(),
        "a read contradicts the constraint of the image depth"
    );
    assert_eq!(
        GraphError::UnknownQueue { node }.message(),
        "a node is on a queue that the device lacks"
    );
    assert_eq!(
        GraphError::HostFormatMismatch { image: ImageHandle { index: 0 } }.message(),
        "an image asks for another format than its host image has"
    );
    assert_eq!(GraphError::CyclicDependency.message(), "the nodes wait for each other in a cycle");

    let mut builder = RenderGraphBuilder::new();
    let post = builder.add_node("post", RenderGraphQueue::DefaultGraphics);
    builder.read_image(post, "bloom", any());
    let error = PreparedRenderGraph::new(&device(), builder, &surface()).unwrap_err();
    assert_eq!(error.message(), "no image carries the name bloom");
}
