use bevy_rafx::frame::{FrameAction, FrameDriver, FrameEvent, FrameState};
use bevy_rafx::pipeline_cache::{GraphicsPipelineCache, PipelineHandle, PipelineKey, PipelineLookup};
use bevy_rafx::submit::{opaque_render_phase_sort_submit_nodes, SubmitNode};

#[test]
fn a_frame_goes_through_its_states_in_order() {
    let mut driver = FrameDriver::new();
    assert_eq!(driver.state(), FrameState::Idle);
    assert_eq!(driver.step(FrameEvent::BeginFrame), FrameAction::CreateViews);
    assert_eq!(driver.state(), FrameState::Idle);
    assert_eq!(driver.step(FrameEvent::ViewsCreated), FrameAction::QueryVisibility);
    assert_eq!(driver.state(), FrameState::ViewsCreated);
    assert_eq!(driver.step(FrameEvent::VisibilityQueried), FrameAction::BuildFramePacket);
    assert_eq!(driver.state(), FrameState::VisibilityQueried);
    assert_eq!(driver.step(FrameEvent::PacketBuilt), FrameAction::BuildGraph);
    assert_eq!(driver.state(), FrameState::PacketBuilt);
    assert_eq!(driver.step(FrameEvent::GraphBuilt), FrameAction::CompileGraph);
    assert_eq!(driver.state(), FrameState::GraphBuilt);
    assert_eq!(driver.step(FrameEvent::GraphCompiled), FrameAction::Submit);
    assert_eq!(driver.state(), FrameState::GraphCompiled);
    assert_eq!(driver.step(FrameEvent::Submitted), FrameAction::Present);
    assert_eq!(driver.state(), FrameState::Submitted);
    assert_eq!(driver.step(FrameEvent::Presented), FrameAction::CompleteFrame);
    assert_eq!(driver.state(), FrameState::Presented);
    assert_eq!(driver.frames_completed(), 0);
    assert_eq!(driver.step(FrameEvent::BeginFrame), FrameAction::CreateViews);
    assert_eq!(driver.state(), FrameState::Idle);
    assert_eq!(driver.frames_completed(), 1);
}

fn driver_at_graph_built() -> FrameDriver {
    let mut driver = FrameDriver::new();
    driver.step(FrameEvent::ViewsCreated);
    driver.step(FrameEvent::VisibilityQueried);
    driver.step(FrameEvent::PacketBuilt);
    driver.step(FrameEvent::GraphBuilt);
    driver
}

#[test]
fn a_graph_that_does_not_compile_is_never_submitted() {
    let mut driver = driver_at_graph_built();
    assert_eq!(driver.step(FrameEvent::GraphCompileFailed), FrameAction::AbandonFrame);
    assert_eq!(driver.state(), FrameState::CompileFailed);
    for event in [
        FrameEvent::GraphCompiled,
        FrameEvent::Submitted,
        FrameEvent::Presented,
        FrameEvent::GraphBuilt,
        FrameEvent::ViewsCreated,
        FrameEvent::ImageAcquireFailed,
    ] {
        assert_eq!(driver.step(event), FrameAction::Rejected);
        assert_eq!(driver.state(), FrameState::CompileFailed);
    }
    assert_eq!(driver.frames_completed(), 0);
    assert_eq!(driver.step(FrameEvent::BeginFrame), FrameAction::CreateViews);
    assert_eq!(driver.state(), FrameState::Idle);
    assert_eq!(driver.frames_completed(), 1);
    assert_eq!(driver.step(FrameEvent::ViewsCreated), FrameAction::QueryVisibility);
}

#[test]
fn device_errors_abandon_the_frame() {
    let mut driver = driver_at_graph_built();
    driver.step(FrameEvent::GraphCompiled);
    assert_eq!(driver.step(FrameEvent::SubmitFailed), FrameAction::AbandonFrame);
    assert_eq!(driver.state(), FrameState::SubmitFailed);
    assert_eq!(driver.step(FrameEvent::Presented), FrameAction::Rejected);
    assert_eq!(driver.step(FrameEvent::BeginFrame), FrameAction::CreateViews);

    let mut driver = driver_at_graph_built();
    driver.step(FrameEvent::GraphCompiled);
    driver.step(FrameEvent::Submitted);
    assert_eq!(driver.step(FrameEvent::PresentFailed), FrameAction::RecreateSwapchain);
    assert_eq!(driver.state(), FrameState::PresentFailed);
    assert_eq!(driver.step(FrameEvent::Presented), FrameAction::Rejected);
    assert_eq!(driver.step(FrameEvent::BeginFrame), FrameAction::CreateViews);
    assert_eq!(driver.frames_completed(), 1);
}

#[test]
fn a_failed_acquisition_is_tried_again() {
    let mut driver = FrameDriver::new();
    driver.step(FrameEvent::ViewsCreated);
    driver.step(FrameEvent::VisibilityQueried);
    assert_eq!(driver.step(FrameEvent::ImageAcquireFailed), FrameAction::Rejected);
    driver.step(FrameEvent::PacketBuilt);
    assert_eq!(driver.step(FrameEvent::ImageAcquireFailed), FrameAction::RecreateSwapchain);
    assert_eq!(driver.state(), FrameState::PacketBuilt);
    assert_eq!(driver.step(FrameEvent::ImageAcquireFailed), FrameAction::RecreateSwapchain);
    assert_eq!(driver.step(FrameEvent::GraphBuilt), FrameAction::CompileGraph);
}

#[test]
fn reports_out_of_order_are_rejected() {
    let mut driver = FrameDriver::new();
    assert_eq!(driver.step(FrameEvent::GraphBuilt), FrameAction::Rejected);
    assert_eq!(driver.step(FrameEvent::Presented), FrameAction::Rejected);
    assert_eq!(driver.state(), FrameState::Idle);
    driver.step(FrameEvent::ViewsCreated);
    assert_eq!(driver.step(FrameEvent::ViewsCreated), FrameAction::Rejected);
    assert_eq!(driver.step(FrameEvent::BeginFrame), FrameAction::Rejected);
    assert_eq!(driver.step(FrameEvent::PacketBuilt), FrameAction::Rejected);
    assert_eq!(driver.state(), FrameState::ViewsCreated);
    assert_eq!(driver.frames_completed(), 0);
}

#[test]
fn frames_are_counted_when_the_next_begins() {
    let mut driver = FrameDriver::new();
    for frame in 0..5u64 {
        assert_eq!(driver.frames_completed(), frame);
        driver.step(FrameEvent::ViewsCreated);
        driver.step(FrameEvent::VisibilityQueried);
        driver.step(FrameEvent::PacketBuilt);
        driver.step(FrameEvent::GraphBuilt);
        driver.step(FrameEvent::GraphCompiled);
        driver.step(FrameEvent::Submitted);
        driver.step(FrameEvent::Presented);
        assert_eq!(driver.frames_completed(), frame);
        driver.step(FrameEvent::BeginFrame);
    }
    assert_eq!(driver.frames_completed(), 5);
    driver.step(FrameEvent::BeginFrame);
    assert_eq!(driver.frames_completed(), 5);
}

fn node(feature_index: u32, submit_node_id: u32) -> SubmitNode {
    SubmitNode { feature_index, submit_node_id, sort_key: 1000 - submit_node_id }
}

#[test]
fn opaque_submit_nodes_are_ordered_by_feature() {
    let sorted = opaque_render_phase_sort_submit_nodes(vec![node(3, 0), node(1, 1), node(2, 2), node(0, 3)]);
    assert_eq!(sorted, vec![node(0, 3), node(1, 1), node(2, 2), node(3, 0)]);
    assert!(opaque_render_phase_sort_submit_nodes(Vec::new()).is_empty());
    assert_eq!(opaque_render_phase_sort_submit_nodes(vec![node(9, 9)]), vec![node(9, 9)]);
}

#[test]
fn sorting_keeps_every_submit_node() {
    let input = vec![node(2, 0), node(0, 1), node(2, 2), node(1, 3), node(0, 4), node(2, 0)];
    let sorted = opaque_render_phase_sort_submit_nodes(input.clone());
    assert_eq!(sorted.len(), input.len());
    let features: Vec<u32> = sorted.iter().map(|n| n.feature_index).collect();
    assert_eq!(features, vec![0, 0, 1, 2, 2, 2]);
    for wanted in &input {
        let before = input.iter().filter(|n| *n == wanted).count();
        let after = sorted.iter().filter(|n| *n == wanted).count();
        assert_eq!(before, after);
    }
}

fn key(render_phase: u32, material_pass: u64) -> PipelineKey {
    PipelineKey { render_phase, material_pass, target_format: 50, vertex_layout: 7 }
}

#[test]
fn a_pipeline_is_made_once() {
    let mut cache = GraphicsPipelineCache::new();
    assert_eq!(cache.len(), 0);
    let first = PipelineHandle { index: 0 };
    let second = PipelineHandle { index: 1 };
    assert_eq!(cache.get_or_create_graphics_pipeline(key(0, 1)), PipelineLookup::Created(first));
    assert_eq!(cache.get_or_create_graphics_pipeline(key(0, 1)), PipelineLookup::Cached(first));
    assert_eq!(cache.get_or_create_graphics_pipeline(key(0, 2)), PipelineLookup::Created(second));
    assert_eq!(cache.get_or_create_graphics_pipeline(key(0, 1)), PipelineLookup::Cached(first));
    assert_eq!(cache.get_or_create_graphics_pipeline(key(0, 2)), PipelineLookup::Cached(second));
    assert_eq!(cache.len(), 2);
}

#[test]
fn every_part_of_the_key_counts() {
    let mut cache = GraphicsPipelineCache::new();
    let base = key(0, 1);
    let variants = [
        base,
        PipelineKey { render_phase: 1, ..base },
        PipelineKey { material_pass: 2, ..base },
        PipelineKey { target_format: 51, ..base },
        PipelineKey { vertex_layout: 8, ..base },
    ];
    for (index, variant) in variants.iter().enumerate() {
        assert_eq!(
            cache.get_or_create_graphics_pipeline(*variant),
            PipelineLookup::Created(PipelineHandle { index })
        );
    }
    for (index, variant) in variants.iter().enumerate() {
        assert_eq!(
            cache.get_or_create_graphics_pipeline(*variant),
            PipelineLookup::Cached(PipelineHandle { index })
        );
    }
    assert_eq!(cache.len(), 5);
}
