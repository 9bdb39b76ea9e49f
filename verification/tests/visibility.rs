use bevy_rafx::mesh_plugin::{mesh_update_visibility, MeshChange, VisibilityComponent};
use bevy_rafx::visibility::{
    ObjectKind, Placement, RenderNodeHandle, VisibilityHandle, VisibilityRegion,
};

fn placement_at(x: f32, y: f32, z: f32) -> Placement {
    Placement {
        translation: [x.to_bits(), y.to_bits(), z.to_bits()],
        rotation: [0f32.to_bits(), 0f32.to_bits(), 0f32.to_bits(), 1f32.to_bits()],
        scale: [1f32.to_bits(), 1f32.to_bits(), 1f32.to_bits()],
    }
}

fn mesh_node() -> RenderNodeHandle {
    RenderNodeHandle { feature: 4, node: 11 }
}

#[test]
fn handles_are_handed_out_slot_by_slot() {
    let mut region = VisibilityRegion::new();
    let first = region.register_static_object(10, 100);
    let second = region.register_dynamic_object(11, 101);
    assert_eq!(first, VisibilityHandle { index: 0, generation: 0 });
    assert_eq!(second, VisibilityHandle { index: 1, generation: 0 });
    assert!(region.contains(first));
    assert!(region.contains(second));
    assert_eq!(region.entity_id(first), Some(10));
    assert_eq!(region.entity_id(second), Some(11));
    assert_eq!(region.slot_list()[0].object.as_ref().unwrap().kind, ObjectKind::Static);
    assert_eq!(region.slot_list()[1].object.as_ref().unwrap().kind, ObjectKind::Dynamic);
    assert_eq!(region.slot_list()[1].object.as_ref().unwrap().cull_model, 101);
}

#[test]
fn a_released_handle_never_names_a_later_object() {
    let mut region = VisibilityRegion::new();
    let first = region.register_dynamic_object(1, 7);
    let second = region.register_dynamic_object(2, 7);
    assert!(region.unregister(first));
    assert!(!region.contains(first));
    assert!(region.contains(second));
    assert!(!region.unregister(first));
    let third = region.register_dynamic_object(3, 7);
    assert_eq!(third, VisibilityHandle { index: 0, generation: 1 });
    assert!(region.contains(third));
    assert!(!region.contains(first));
    assert_eq!(region.entity_id(first), None);
    assert_eq!(region.entity_id(third), Some(3));
    assert!(!region.set_transform(first, placement_at(1.0, 2.0, 3.0)));
    assert!(!region.add_render_node(first, RenderNodeHandle { feature: 0, node: 0 }));
    assert!(region.slot_list()[0].object.as_ref().unwrap().placement.is_none());
    assert!(region.slot_list()[0].object.as_ref().unwrap().nodes.is_empty());
}

#[test]
fn unknown_handles_are_not_contained() {
    let mut region = VisibilityRegion::new();
    let only = region.register_static_object(1, 1);
    assert!(!region.contains(VisibilityHandle { index: 1, generation: 0 }));
    assert!(!region.contains(VisibilityHandle { index: 0, generation: 1 }));
    assert!(!region.contains(VisibilityHandle { index: usize::MAX, generation: 0 }));
    assert!(!region.unregister(VisibilityHandle { index: 5, generation: 0 }));
    assert!(region.contains(only));
}

#[test]
fn objects_are_found_by_entity() {
    let mut region = VisibilityRegion::new();
    let a = region.register_static_object(5, 1);
    let b = region.register_static_object(6, 1);
    let c = region.register_static_object(5, 2);
    assert_eq!(region.find_by_entity(5), Some(a));
    assert_eq!(region.find_by_entity(6), Some(b));
    assert_eq!(region.find_by_entity(7), None);
    assert!(region.unregister(a));
    assert_eq!(region.find_by_entity(5), Some(c));
    assert!(region.unregister(c));
    assert_eq!(region.find_by_entity(5), None);
}

#[test]
fn frustums_are_handed_out_slot_by_slot() {
    let mut region = VisibilityRegion::new();
    assert_eq!(region.register_view_frustum().index, 0);
    let second = region.register_view_frustum();
    assert_eq!((second.index, second.generation), (1, 0));
    region.register_static_object(1, 1);
    let third = region.register_view_frustum();
    assert_eq!((third.index, third.generation), (2, 0));
    assert!(region.release_view_frustum(second));
    assert!(!region.release_view_frustum(second));
    assert!(!region.contains_frustum(second));
    assert!(region.contains_frustum(third));
    let next = region.register_view_frustum();
    assert_eq!((next.index, next.generation), (1, 1));
    assert!(region.contains_frustum(next));
    assert!(!region.contains_frustum(second));
    let unset = region.view_frustum(next).unwrap();
    assert!(unset.projection.is_none());
    assert!(unset.placement.is_none());
}

#[test]
fn the_last_of_many_placements_is_the_one_that_is_seen() {
    let mut region = VisibilityRegion::new();
    let other = region.register_static_object(1, 1);
    let moving = region.register_dynamic_object(2, 2);
    assert!(region.set_transform(other, placement_at(7.0, 7.0, 7.0)));
    for step in 0..10 {
        assert!(region.set_transform(moving, placement_at(step as f32, 0.0, 0.0)));
    }
    let mut once = VisibilityRegion::new();
    let once_other = once.register_static_object(1, 1);
    let once_moving = once.register_dynamic_object(2, 2);
    assert!(once.set_transform(once_other, placement_at(7.0, 7.0, 7.0)));
    assert!(once.set_transform(once_moving, placement_at(9.0, 0.0, 0.0)));
    let many = region.visibility_candidates();
    let single = once.visibility_candidates();
    assert_eq!(many.len(), 2);
    assert_eq!(single.len(), 2);
    for k in 0..2 {
        assert_eq!(many[k].handle, single[k].handle);
        assert_eq!(many[k].placement.unwrap().translation, single[k].placement.unwrap().translation);
    }
    assert_eq!(many[1].placement.unwrap().translation[0], 9f32.to_bits());
}

#[test]
fn candidates_carry_the_latest_placement() {
    let mut region = VisibilityRegion::new();
    let still = region.register_static_object(1, 11);
    let moving = region.register_dynamic_object(2, 12);
    let gone = region.register_dynamic_object(3, 13);
    assert!(region.set_transform(still, placement_at(0.0, 0.0, 0.0)));
    assert!(region.set_transform(moving, placement_at(1.0, 0.0, 0.0)));
    assert!(region.set_transform(moving, placement_at(2.0, 0.0, 0.0)));
    assert!(region.unregister(gone));
    let candidates = region.visibility_candidates();
    assert_eq!(candidates.len(), 2);
    assert_eq!(candidates[0].handle, still);
    assert_eq!(candidates[0].cull_model, 11);
    assert_eq!(candidates[0].kind, ObjectKind::Static);
    assert_eq!(candidates[0].placement.unwrap().translation[0], 0f32.to_bits());
    assert_eq!(candidates[1].handle, moving);
    assert_eq!(candidates[1].cull_model, 12);
    assert_eq!(candidates[1].kind, ObjectKind::Dynamic);
    assert_eq!(candidates[1].placement.unwrap().translation[0], 2f32.to_bits());
    assert_eq!(candidates[1].placement.unwrap().rotation[3], 1f32.to_bits());
}

#[test]
fn an_object_that_was_never_placed_has_no_placement() {
    let mut region = VisibilityRegion::new();
    let handle = region.register_dynamic_object(1, 1);
    let candidates = region.visibility_candidates();
    assert_eq!(candidates.len(), 1);
    assert_eq!(candidates[0].handle, handle);
    assert!(candidates[0].placement.is_none());
    assert!(VisibilityRegion::new().visibility_candidates().is_empty());
}

#[test]
fn render_nodes_are_attached_in_order() {
    let mut region = VisibilityRegion::new();
    let handle = region.register_static_object(1, 1);
    assert!(region.add_render_node(handle, RenderNodeHandle { feature: 2, node: 9 }));
    assert!(region.add_render_node(handle, RenderNodeHandle { feature: 0, node: 4 }));
    assert!(region.set_transform(handle, placement_at(1.0, 1.0, 1.0)));
    let object = region.slot_list()[0].object.as_ref().unwrap();
    assert_eq!(
        object.nodes,
        vec![RenderNodeHandle { feature: 2, node: 9 }, RenderNodeHandle { feature: 0, node: 4 }]
    );
    assert_eq!(object.entity_id, 1);
    assert_eq!(object.placement.unwrap().scale[2], 1f32.to_bits());
}

#[test]
fn a_new_component_registers_and_places_its_object() {
    let mut region = VisibilityRegion::new();
    let mut component = VisibilityComponent::new();
    let update = mesh_update_visibility(
        &mut region,
        &mut component,
        42,
        7,
        placement_at(1.0, 2.0, 3.0),
        RenderNodeHandle { feature: 4, node: 11 },
        MeshChange { component_added: true, mesh_changed: false, transform_changed: false },
    );
    let handle = VisibilityHandle { index: 0, generation: 0 };
    assert_eq!(update.registered, Some(handle));
    assert_eq!(update.placed, Some(handle));
    assert_eq!(component.handle, Some(handle));
    let object = region.slot_list()[0].object.as_ref().unwrap();
    assert_eq!(object.entity_id, 42);
    assert_eq!(object.kind, ObjectKind::Dynamic);
    assert_eq!(object.cull_model, 7);
    assert_eq!(object.placement.unwrap().translation[1], 2f32.to_bits());
    assert_eq!(object.nodes, vec![RenderNodeHandle { feature: 4, node: 11 }]);
}

#[test]
fn another_mesh_takes_another_object() {
    let mut region = VisibilityRegion::new();
    let mut component = VisibilityComponent::new();
    let added = MeshChange { component_added: true, mesh_changed: false, transform_changed: true };
    let first =
        mesh_update_visibility(&mut region, &mut component, 42, 7, placement_at(0.0, 0.0, 0.0), mesh_node(), added);
    let old = first.registered.unwrap();
    let changed = MeshChange { component_added: false, mesh_changed: true, transform_changed: true };
    let second =
        mesh_update_visibility(&mut region, &mut component, 42, 8, placement_at(5.0, 0.0, 0.0), mesh_node(), changed);
    let fresh = second.registered.unwrap();
    assert_eq!(fresh, VisibilityHandle { index: 0, generation: 1 });
    assert_eq!(second.placed, Some(fresh));
    assert_eq!(component.handle, Some(fresh));
    assert!(!region.contains(old));
    assert!(region.contains(fresh));
    let object = region.slot_list()[0].object.as_ref().unwrap();
    assert_eq!(object.cull_model, 8);
    assert_eq!(object.placement.unwrap().translation[0], 5f32.to_bits());
    assert_eq!(object.nodes, vec![mesh_node()]);
    assert_eq!(region.visibility_candidates().len(), 1);
}

#[test]
fn a_moved_entity_is_placed_again() {
    let mut region = VisibilityRegion::new();
    let mut component = VisibilityComponent::new();
    let added = MeshChange { component_added: true, mesh_changed: false, transform_changed: false };
    let first =
        mesh_update_visibility(&mut region, &mut component, 1, 1, placement_at(0.0, 0.0, 0.0), mesh_node(), added);
    let handle = first.registered.unwrap();
    let moved = MeshChange { component_added: false, mesh_changed: false, transform_changed: true };
    let second =
        mesh_update_visibility(&mut region, &mut component, 1, 1, placement_at(9.0, 0.0, 0.0), mesh_node(), moved);
    assert_eq!(second.registered, None);
    assert_eq!(second.placed, Some(handle));
    assert_eq!(component.handle, Some(handle));
    assert_eq!(
        region.visibility_candidates()[0].placement.unwrap().translation[0],
        9f32.to_bits()
    );
}

#[test]
fn an_entity_without_changes_is_left_alone() {
    let mut region = VisibilityRegion::new();
    let mut component = VisibilityComponent::new();
    let added = MeshChange { component_added: true, mesh_changed: false, transform_changed: false };
    mesh_update_visibility(&mut region, &mut component, 1, 1, placement_at(3.0, 0.0, 0.0), mesh_node(), added);
    let none = MeshChange { component_added: false, mesh_changed: false, transform_changed: false };
    let update =
        mesh_update_visibility(&mut region, &mut component, 1, 1, placement_at(4.0, 0.0, 0.0), mesh_node(), none);
    assert_eq!(update.registered, None);
    assert_eq!(update.placed, None);
    assert_eq!(
        region.visibility_candidates()[0].placement.unwrap().translation[0],
        3f32.to_bits()
    );
}

#[test]
fn the_component_prints_whether_it_has_a_handle() {
    assert!(VisibilityComponent::default().handle.is_none());
    let mut component = VisibilityComponent::new();
    assert_eq!(component.debug_string(), "VisibilityComponent { handle: None }");
    component.handle = Some(VisibilityHandle { index: 3, generation: 1 });
    assert_eq!(
        component.debug_string(),
        "VisibilityComponent { handle: Some(\"VisibilityObjectArc\") }"
    );
}
