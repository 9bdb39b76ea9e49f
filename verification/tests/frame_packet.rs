use bevy_rafx::frame_packet::{
    build_frame_packet, release_frame_packet, FramePacket, FramePacketBuilder,
};
use bevy_rafx::mesh_plugin::{mesh_update_visibility, MeshChange, VisibilityComponent};
use bevy_rafx::registry::{build_render_registry, register_mesh_feature};
use bevy_rafx::mask::{RenderFeatureMask, RenderFeatureMaskBuilder, RenderPhaseMaskBuilder};
use bevy_rafx::registry::RenderRegistryBuilder;
use bevy_rafx::view::{create_main_view, MainCamera, RenderView, RenderViewDepthRange, RenderViewSet};
use bevy_rafx::visibility::{
    DepthRange, Placement, RenderNodeHandle, ViewFrustum, ViewFrustumHandle, VisibilityCandidate,
    VisibilityHandle, VisibilityRegion,
};

fn bits3(x: f32, y: f32, z: f32) -> [u32; 3] {
    [x.to_bits(), y.to_bits(), z.to_bits()]
}

fn identity() -> [u32; 16] {
    let mut matrix = [0f32.to_bits(); 16];
    for diagonal in [0, 5, 10, 15] {
        matrix[diagonal] = 1f32.to_bits();
    }
    matrix
}

fn placement_at(x: f32, y: f32, z: f32) -> Placement {
    Placement {
        translation: [x.to_bits(), y.to_bits(), z.to_bits()],
        rotation: [0f32.to_bits(), 0f32.to_bits(), 0f32.to_bits(), 1f32.to_bits()],
        scale: [1f32.to_bits(), 1f32.to_bits(), 1f32.to_bits()],
    }
}

/// What a frustum sees that looks from its eye down the negative z axis:
/// what lies between its near and far planes, within one unit of the axis.
fn seen_by(frustum: &ViewFrustum, candidates: &[VisibilityCandidate]) -> Vec<VisibilityHandle> {
    let projection = frustum.projection.unwrap();
    let eye = frustum.placement.unwrap().eye;
    let near = f32::from_bits(projection.near_distance);
    let far = f32::from_bits(projection.far_distance);
    let mut visible = Vec::new();
    for candidate in candidates {
        if let Some(placement) = candidate.placement {
            let x = f32::from_bits(placement.translation[0]) - f32::from_bits(eye[0]);
            let y = f32::from_bits(placement.translation[1]) - f32::from_bits(eye[1]);
            let depth = f32::from_bits(eye[2]) - f32::from_bits(placement.translation[2]);
            if depth >= near && depth <= far && x.abs() <= 1.0 && y.abs() <= 1.0 {
                visible.push(candidate.handle);
            }
        }
    }
    visible
}

fn camera_at(x: f32, y: f32, z: f32, near: f32, far: f32) -> MainCamera {
    MainCamera {
        name: "camera".to_string(),
        feature_mask: RenderFeatureMask::empty(),
        fov_y_radians: 1.0f32.to_bits(),
        aspect_ratio: 1.5f32.to_bits(),
        near: near.to_bits(),
        far: far.to_bits(),
        translation: bits3(x, y, z),
        look_at: bits3(x, y, z - 1.0),
        up: bits3(0.0, 1.0, 0.0),
        view_matrix: identity(),
        projection_matrix: identity(),
    }
}

fn view_with_features(views: &mut RenderViewSet, region: &mut VisibilityRegion, features: &[u32]) -> RenderView {
    let mut feature_mask = RenderFeatureMaskBuilder::new();
    for feature in features {
        feature_mask = feature_mask.add_render_feature(*feature);
    }
    let frustum = region.register_view_frustum();
    let camera = camera_at(0.0, 0.0, 0.0, 0.1, 100.0);
    region.set_frustum_projection(
        frustum,
        bevy_rafx::visibility::PerspectiveParameters {
            fov_y_radians: camera.fov_y_radians,
            ratio: camera.aspect_ratio,
            near_distance: camera.near,
            far_distance: camera.far,
            depth_range: DepthRange::Normal,
        },
    );
    region.set_frustum_transform(frustum, camera.translation, camera.look_at, camera.up);
    views.create_view(
        frustum,
        camera.translation,
        camera.view_matrix,
        camera.projection_matrix,
        (1280, 720),
        RenderViewDepthRange::new(camera.near, camera.far),
        RenderPhaseMaskBuilder::new().add_render_phase(0).build(),
        feature_mask.build(),
        "main",
    )
}

fn seen_by_view(region: &VisibilityRegion, view: &RenderView) -> Vec<VisibilityHandle> {
    seen_by(&region.view_frustum(view.frustum).unwrap(), &region.visibility_candidates())
}

#[test]
fn an_empty_builder_builds_an_empty_packet() {
    let packet = FramePacketBuilder::new().build();
    assert_eq!(packet.view_count(), 0);
    for view in [0, 1, 7, u32::MAX] {
        assert_eq!(packet.render_node_count(view), 0);
        assert!(packet.render_nodes(view).is_none());
        assert!(packet.render_nodes_of_feature(view, 0).is_empty());
    }
}

#[test]
fn a_view_that_sees_nothing_has_an_empty_entry() {
    let mut region = VisibilityRegion::new();
    let mut views = RenderViewSet::new();
    let view = view_with_features(&mut views, &mut region, &[0]);
    let mut builder = FramePacketBuilder::new();
    builder.query_visibility_and_add_results(&view, &region, &Vec::new());
    let packet = builder.build();
    assert_eq!(packet.view_count(), 1);
    assert_eq!(packet.render_node_count(0), 0);
    assert_eq!(packet.render_nodes(0), Some(&Vec::new()));
    assert!(packet.render_nodes(1).is_none());
}

#[test]
fn turning_the_frame_over_leaves_an_empty_builder() {
    let mut region = VisibilityRegion::new();
    let object = region.register_static_object(1, 1);
    region.add_render_node(object, RenderNodeHandle { feature: 0, node: 5 });
    let mut views = RenderViewSet::new();
    let view = view_with_features(&mut views, &mut region, &[0]);
    let mut builder = FramePacketBuilder::new();
    builder.query_visibility_and_add_results(&view, &region, &vec![object]);
    let mut packet: Option<FramePacket> = None;

    build_frame_packet(&mut packet, &mut builder, &mut views);

    let finished = packet.take().unwrap();
    assert_eq!(finished.view_count(), 1);
    assert_eq!(finished.render_nodes(0), Some(&vec![RenderNodeHandle { feature: 0, node: 5 }]));
    assert_eq!(views.len(), 0);

    // The next frame's queries go to the new builder and leave the packet alone.
    let next_view = view_with_features(&mut views, &mut region, &[0]);
    assert_eq!(next_view.index, 0);
    builder.query_visibility_and_add_results(&next_view, &region, &vec![object, object]);
    assert_eq!(finished.render_node_count(0), 1);

    build_frame_packet(&mut packet, &mut builder, &mut views);
    assert_eq!(packet.as_ref().unwrap().render_node_count(0), 2);
    build_frame_packet(&mut packet, &mut builder, &mut views);
    assert_eq!(packet.as_ref().unwrap().view_count(), 0);
    assert_eq!(packet.as_ref().unwrap().render_node_count(0), 0);
}

#[test]
fn a_static_mesh_at_the_origin_gives_one_render_node() {
    // Startup: the mesh renderer registers its feature, then the registry is finished.
    let mut pending = Some(RenderRegistryBuilder::new());
    let mesh_feature = register_mesh_feature(&mut pending).unwrap();
    let mut finished = None;
    let opaque = build_render_registry(&mut pending, &mut finished).unwrap();
    let registry = finished.unwrap();

    let mut region = VisibilityRegion::new();
    let triangle = region.register_static_object(1, 77);
    region.set_transform(triangle, placement_at(0.0, 0.0, 0.0));
    region.add_render_node(triangle, RenderNodeHandle { feature: mesh_feature, node: 0 });

    // The camera stands five units back and looks at the origin.
    let mut camera = camera_at(0.0, 0.0, 5.0, 0.1, 100.0);
    camera.feature_mask = RenderFeatureMaskBuilder::new().add_render_feature(mesh_feature).build();
    let mut views = RenderViewSet::new();
    let view = create_main_view(&registry, &mut views, &mut region, (800, 600), &camera);
    assert!(view.phase_mask.is_included_index(opaque));
    assert!(view.feature_mask.is_included_index(mesh_feature));

    let visible = seen_by_view(&region, &view);
    assert_eq!(visible, vec![triangle]);
    let mut builder = FramePacketBuilder::new();
    builder.query_visibility_and_add_results(&view, &region, &visible);
    let mut stored: Option<FramePacket> = None;
    let replaced = build_frame_packet(&mut stored, &mut builder, &mut views);
    assert!(replaced.is_none());
    let packet = stored.unwrap();

    assert_eq!(packet.view_count(), 1);
    assert_eq!(packet.render_node_count(view.index), 1);
    assert_eq!(
        packet.render_nodes(view.index),
        Some(&vec![RenderNodeHandle { feature: mesh_feature, node: 0 }])
    );
    assert_eq!(packet.render_nodes_of_feature(view.index, mesh_feature).len(), 1);
    let kept = &packet.view_packets()[0].view;
    assert_eq!(kept.name, "camera");
    assert_eq!(kept.extents, (800, 600));
    assert_eq!(kept.position, bits3(0.0, 0.0, 5.0));
    assert_eq!(kept.depth_range, RenderViewDepthRange { near: 0.1f32.to_bits(), far: 100f32.to_bits() });
    assert_eq!(kept.view_matrix, identity());
    assert_eq!(kept.projection_matrix[15], 1f32.to_bits());
}

#[test]
fn a_camera_that_draws_no_feature_takes_no_node() {
    let mut pending = RenderRegistryBuilder::new();
    pending.register_render_phase("Opaque").unwrap();
    let mesh_feature = pending.register_feature("MeshRenderFeature").unwrap();
    let registry = pending.build();
    let mut region = VisibilityRegion::new();
    let triangle = region.register_static_object(1, 77);
    region.set_transform(triangle, placement_at(0.0, 0.0, 0.0));
    region.add_render_node(triangle, RenderNodeHandle { feature: mesh_feature, node: 0 });
    let camera = camera_at(0.0, 0.0, 5.0, 0.1, 100.0);
    let mut views = RenderViewSet::new();
    let view = create_main_view(&registry, &mut views, &mut region, (800, 600), &camera);
    let visible = seen_by_view(&region, &view);
    assert_eq!(visible, vec![triangle]);
    let mut builder = FramePacketBuilder::new();
    builder.query_visibility_and_add_results(&view, &region, &visible);
    let packet = builder.build();
    assert_eq!(packet.view_count(), 1);
    assert_eq!(packet.render_node_count(view.index), 0);
}

#[test]
fn a_mesh_entity_reaches_the_packet_of_the_main_view() {
    let mut pending = Some(RenderRegistryBuilder::new());
    let mesh_feature = register_mesh_feature(&mut pending).unwrap();
    let mut finished = None;
    build_render_registry(&mut pending, &mut finished).unwrap();
    let registry = finished.unwrap();
    let added = MeshChange { component_added: true, mesh_changed: false, transform_changed: false };
    let moved = MeshChange { component_added: false, mesh_changed: false, transform_changed: true };
    let node = RenderNodeHandle { feature: mesh_feature, node: 9 };
    let mut camera = camera_at(0.0, 0.0, 5.0, 0.1, 100.0);
    camera.feature_mask = RenderFeatureMaskBuilder::new().add_render_feature(mesh_feature).build();

    let mut region = VisibilityRegion::new();
    let mut component = VisibilityComponent::new();
    let mut views = RenderViewSet::new();
    let mut builder = FramePacketBuilder::new();
    let mut packet: Option<FramePacket> = None;

    // Frame 1: the entity is added at the origin, in front of the camera.
    let update = mesh_update_visibility(
        &mut region, &mut component, 12, 77, placement_at(0.0, 0.0, 0.0), node, added,
    );
    let handle = update.registered.unwrap();
    assert_eq!(component.handle, Some(handle));
    let view = create_main_view(&registry, &mut views, &mut region, (800, 600), &camera);
    let visible = seen_by_view(&region, &view);
    builder.query_visibility_and_add_results(&view, &region, &visible);
    assert!(build_frame_packet(&mut packet, &mut builder, &mut views).is_none());
    assert_eq!(packet.as_ref().unwrap().render_nodes(0), Some(&vec![node]));

    // Frame 2: it has moved behind the camera.
    let update = mesh_update_visibility(
        &mut region, &mut component, 12, 77, placement_at(0.0, 0.0, 50.0), node, moved,
    );
    assert!(update.registered.is_none());
    assert_eq!(update.placed, Some(handle));
    assert_eq!(component.handle, Some(handle));
    assert_eq!(region.visibility_candidates().len(), 1);
    let view = create_main_view(&registry, &mut views, &mut region, (800, 600), &camera);
    let visible = seen_by_view(&region, &view);
    assert!(visible.is_empty());
    builder.query_visibility_and_add_results(&view, &region, &visible);
    let replaced = build_frame_packet(&mut packet, &mut builder, &mut views).unwrap();
    assert_eq!(replaced.render_node_count(0), 1);
    release_frame_packet(&mut region, replaced);
    assert_eq!(packet.as_ref().unwrap().view_count(), 1);
    assert_eq!(packet.as_ref().unwrap().render_node_count(0), 0);
}

#[test]
fn a_moving_object_leaves_and_enters_the_view() {
    let mut region = VisibilityRegion::new();
    let object = region.register_dynamic_object(1, 1);
    region.add_render_node(object, RenderNodeHandle { feature: 0, node: 3 });
    let mut views = RenderViewSet::new();
    let mut builder = FramePacketBuilder::new();
    let mut packet: Option<FramePacket> = None;

    // Frame 1: the object is in front of the camera.
    region.set_transform(object, placement_at(0.0, 0.0, -10.0));
    let first_view = view_with_features(&mut views, &mut region, &[0]);
    let visible = seen_by_view(&region, &first_view);
    builder.query_visibility_and_add_results(&first_view, &region, &visible);
    build_frame_packet(&mut packet, &mut builder, &mut views);
    assert_eq!(packet.as_ref().unwrap().render_node_count(0), 1);

    // Frame 2: it has moved behind the far plane.
    region.set_transform(object, placement_at(0.0, 0.0, -500.0));
    let second_view = view_with_features(&mut views, &mut region, &[0]);
    let visible = seen_by_view(&region, &second_view);
    assert!(visible.is_empty());
    builder.query_visibility_and_add_results(&second_view, &region, &visible);
    build_frame_packet(&mut packet, &mut builder, &mut views);
    assert_eq!(packet.as_ref().unwrap().view_count(), 1);
    assert_eq!(packet.as_ref().unwrap().render_node_count(0), 0);

    // Frame 3: it has come back.
    region.set_transform(object, placement_at(0.5, 0.0, -1.0));
    let third_view = view_with_features(&mut views, &mut region, &[0]);
    let visible = seen_by_view(&region, &third_view);
    builder.query_visibility_and_add_results(&third_view, &region, &visible);
    build_frame_packet(&mut packet, &mut builder, &mut views);
    assert_eq!(
        packet.as_ref().unwrap().render_nodes(0),
        Some(&vec![RenderNodeHandle { feature: 0, node: 3 }])
    );
}

#[test]
fn a_view_takes_only_the_features_of_its_mask() {
    let mut region = VisibilityRegion::new();
    let object = region.register_static_object(1, 1);
    region.add_render_node(object, RenderNodeHandle { feature: 0, node: 1 });
    region.add_render_node(object, RenderNodeHandle { feature: 1, node: 2 });
    region.add_render_node(object, RenderNodeHandle { feature: 2, node: 3 });
    region.add_render_node(object, RenderNodeHandle { feature: 1, node: 4 });
    let mut views = RenderViewSet::new();
    let wide = view_with_features(&mut views, &mut region, &[0, 1, 2]);
    let narrow = view_with_features(&mut views, &mut region, &[1]);
    let blind = view_with_features(&mut views, &mut region, &[]);
    assert_eq!((wide.index, narrow.index, blind.index), (0, 1, 2));

    let mut builder = FramePacketBuilder::new();
    builder.query_visibility_and_add_results(&wide, &region, &vec![object]);
    builder.query_visibility_and_add_results(&narrow, &region, &vec![object]);
    builder.query_visibility_and_add_results(&blind, &region, &vec![object]);
    let packet = builder.build();

    assert_eq!(packet.view_count(), 3);
    assert_eq!(packet.render_node_count(0), 4);
    assert_eq!(
        packet.render_nodes(1),
        Some(&vec![
            RenderNodeHandle { feature: 1, node: 2 },
            RenderNodeHandle { feature: 1, node: 4 }
        ])
    );
    assert_eq!(packet.render_node_count(2), 0);
    assert_eq!(
        packet.render_nodes_of_feature(0, 1),
        vec![RenderNodeHandle { feature: 1, node: 2 }, RenderNodeHandle { feature: 1, node: 4 }]
    );
    assert_eq!(packet.render_nodes_of_feature(0, 2), vec![RenderNodeHandle { feature: 2, node: 3 }]);
    assert!(packet.render_nodes_of_feature(0, 3).is_empty());
    assert!(packet.render_nodes_of_feature(2, 1).is_empty());
}

#[test]
fn released_objects_never_reach_a_packet() {
    let mut region = VisibilityRegion::new();
    let kept = region.register_static_object(1, 1);
    let gone = region.register_static_object(2, 1);
    region.add_render_node(kept, RenderNodeHandle { feature: 0, node: 1 });
    region.add_render_node(gone, RenderNodeHandle { feature: 0, node: 2 });
    region.unregister(gone);
    let mut views = RenderViewSet::new();
    let view = view_with_features(&mut views, &mut region, &[0]);
    let mut builder = FramePacketBuilder::new();
    let unknown = VisibilityHandle { index: 40, generation: 0 };
    builder.query_visibility_and_add_results(&view, &region, &vec![gone, kept, unknown, gone]);
    let packet = builder.build();
    assert_eq!(packet.render_nodes(0), Some(&vec![RenderNodeHandle { feature: 0, node: 1 }]));
}

#[test]
fn a_view_queried_twice_has_one_entry() {
    let mut region = VisibilityRegion::new();
    let a = region.register_static_object(1, 1);
    let b = region.register_static_object(2, 1);
    region.add_render_node(a, RenderNodeHandle { feature: 0, node: 1 });
    region.add_render_node(b, RenderNodeHandle { feature: 0, node: 2 });
    let mut views = RenderViewSet::new();
    let first = view_with_features(&mut views, &mut region, &[0]);
    let second = view_with_features(&mut views, &mut region, &[0]);
    let mut builder = FramePacketBuilder::new();
    builder.query_visibility_and_add_results(&first, &region, &vec![a]);
    builder.query_visibility_and_add_results(&second, &region, &vec![b]);
    builder.query_visibility_and_add_results(&first, &region, &vec![b, a]);
    let packet = builder.build();
    assert_eq!(packet.view_count(), 2);
    assert_eq!(
        packet.render_nodes(0),
        Some(&vec![
            RenderNodeHandle { feature: 0, node: 1 },
            RenderNodeHandle { feature: 0, node: 2 },
            RenderNodeHandle { feature: 0, node: 1 }
        ])
    );
    assert_eq!(packet.render_nodes(1), Some(&vec![RenderNodeHandle { feature: 0, node: 2 }]));
}

#[test]
fn views_are_numbered_within_their_frame() {
    let mut region = VisibilityRegion::new();
    let mut views = RenderViewSet::default();
    assert_eq!(views.len(), 0);
    let first = view_with_features(&mut views, &mut region, &[]);
    let second = view_with_features(&mut views, &mut region, &[]);
    assert_eq!(first.index, 0);
    assert_eq!(second.index, 1);
    assert_eq!(first.frustum, ViewFrustumHandle { index: 0, generation: 0 });
    assert_eq!(second.frustum, ViewFrustumHandle { index: 1, generation: 0 });
    assert_eq!(views.len(), 2);
    let copy = second.duplicate();
    assert_eq!(copy.index, 1);
    assert_eq!(copy.name, "main");
    assert_eq!(copy.extents, (1280, 720));
    assert_eq!(copy.frustum, second.frustum);
}

#[test]
fn a_frustum_lives_as_long_as_the_packet_of_its_view() {
    let mut region = VisibilityRegion::new();
    let object = region.register_static_object(1, 1);
    let mut views = RenderViewSet::new();
    let mut builder = FramePacketBuilder::new();
    let mut packet: Option<FramePacket> = None;
    let first_view = view_with_features(&mut views, &mut region, &[]);
    builder.query_visibility_and_add_results(&first_view, &region, &Vec::new());

    // Turning the frame over leaves the region as it is.
    let replaced = build_frame_packet(&mut packet, &mut builder, &mut views);
    assert!(replaced.is_none());
    assert!(region.contains_frustum(first_view.frustum));
    assert!(region.view_frustum(first_view.frustum).unwrap().projection.is_some());
    assert!(region.contains(object));

    // The next frame has a frustum of its own.
    let second_view = view_with_features(&mut views, &mut region, &[]);
    assert_eq!(second_view.frustum, ViewFrustumHandle { index: 1, generation: 0 });
    builder.query_visibility_and_add_results(&second_view, &region, &Vec::new());
    let replaced = build_frame_packet(&mut packet, &mut builder, &mut views).unwrap();
    assert_eq!(replaced.view_packets()[0].view.frustum, first_view.frustum);
    assert!(region.contains_frustum(first_view.frustum));

    // The first frame's frustum goes with the first frame's packet.
    release_frame_packet(&mut region, replaced);
    assert!(!region.contains_frustum(first_view.frustum));
    assert!(region.view_frustum(first_view.frustum).is_none());
    assert!(!region.set_frustum_transform(first_view.frustum, [0; 3], [0; 3], [0; 3]));
    assert!(!region.release_view_frustum(first_view.frustum));
    assert!(region.contains_frustum(second_view.frustum));
    assert!(region.contains(object));

    // Its slot is used again, under a handle of its own.
    let third_view = view_with_features(&mut views, &mut region, &[]);
    assert_eq!(third_view.frustum, ViewFrustumHandle { index: 0, generation: 1 });
    assert!(region.contains_frustum(third_view.frustum));
    assert!(!region.contains_frustum(first_view.frustum));
}

#[test]
fn the_main_view_draws_the_opaque_phase_and_the_features_of_its_camera() {
    let mut builder = RenderRegistryBuilder::new();
    builder.register_render_phase("Shadow").unwrap();
    builder.register_render_phase("Opaque").unwrap();
    builder.register_render_phase("Ui").unwrap();
    builder.register_feature("MeshRenderFeature").unwrap();
    let registry = builder.build();
    let mut views = RenderViewSet::new();
    let mut region = VisibilityRegion::new();
    region.register_view_frustum();
    let mut camera = camera_at(1.0, 2.0, 3.0, 0.5, 250.0);
    camera.name = "Camera3d".to_string();
    camera.feature_mask =
        RenderFeatureMaskBuilder::new().add_render_feature(0).add_render_feature(5).build();

    let view = create_main_view(&registry, &mut views, &mut region, (1920, 1080), &camera);

    assert_eq!(view.index, 0);
    assert_eq!(view.frustum, ViewFrustumHandle { index: 1, generation: 0 });
    assert_eq!(view.extents, (1920, 1080));
    assert_eq!(view.name, "Camera3d");
    assert_eq!(view.position, bits3(1.0, 2.0, 3.0));
    assert_eq!(view.depth_range, RenderViewDepthRange { near: 0.5f32.to_bits(), far: 250f32.to_bits() });
    assert!(!view.phase_mask.is_included_index(0));
    assert!(view.phase_mask.is_included_index(1));
    assert!(!view.phase_mask.is_included_index(2));
    for feature in 0..64 {
        assert_eq!(view.feature_mask.is_included_index(feature), feature == 0 || feature == 5);
    }
    assert_eq!(views.len(), 1);

    let frustum = region.view_frustum(view.frustum).unwrap();
    let projection = frustum.projection.unwrap();
    assert_eq!(projection.fov_y_radians, 1.0f32.to_bits());
    assert_eq!(projection.ratio, 1.5f32.to_bits());
    assert_eq!(projection.near_distance, 0.5f32.to_bits());
    assert_eq!(projection.far_distance, 250f32.to_bits());
    assert_eq!(projection.depth_range, DepthRange::Normal);
    let placement = frustum.placement.unwrap();
    assert_eq!(placement.eye, bits3(1.0, 2.0, 3.0));
    assert_eq!(placement.look_at, bits3(1.0, 2.0, 2.0));
    assert_eq!(placement.up, bits3(0.0, 1.0, 0.0));
    let untouched = region.view_frustum(ViewFrustumHandle { index: 0, generation: 0 }).unwrap();
    assert!(untouched.projection.is_none());
    assert!(untouched.placement.is_none());
}
