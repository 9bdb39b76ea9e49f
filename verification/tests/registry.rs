use bevy_rafx::mask::{
    RenderFeatureMask, RenderFeatureMaskBuilder, RenderPhaseMask, RenderPhaseMaskBuilder,
    MAX_RENDER_FEATURE_COUNT, MAX_RENDER_PHASE_COUNT,
};
use bevy_rafx::registry::{
    build_render_registry, register_mesh_feature, RegistryError, RenderRegistry,
    RenderRegistryBuilder,
};

#[test]
fn phase_indices_start_at_zero_and_are_contiguous() {
    let mut builder = RenderRegistryBuilder::new();
    assert_eq!(builder.register_render_phase("Opaque"), Ok(0));
    assert_eq!(builder.register_render_phase("Transparent"), Ok(1));
    assert_eq!(builder.register_render_phase("Ui"), Ok(2));
    let registry = builder.build();
    assert_eq!(registry.registered_render_phase_count(), 3);
    assert_eq!(registry.render_phase_index_from_name("Opaque"), Some(0));
    assert_eq!(registry.render_phase_index_from_name("Transparent"), Some(1));
    assert_eq!(registry.render_phase_index_from_name("Ui"), Some(2));
}

#[test]
fn registering_a_phase_twice_fails() {
    let mut builder = RenderRegistryBuilder::new();
    assert_eq!(builder.register_render_phase("Opaque"), Ok(0));
    assert_eq!(
        builder.register_render_phase("Opaque"),
        Err(RegistryError::DuplicatePhase { index: 0 })
    );
    assert_eq!(builder.register_render_phase("Shadow"), Ok(1));
    assert_eq!(
        builder.register_render_phase("Opaque"),
        Err(RegistryError::DuplicatePhase { index: 0 })
    );
    let registry = builder.build();
    assert_eq!(registry.registered_render_phase_count(), 2);
}

#[test]
fn registering_a_feature_twice_fails() {
    let mut builder = RenderRegistryBuilder::new();
    assert_eq!(builder.register_feature("Mesh"), Ok(0));
    assert_eq!(builder.register_feature("Sprite"), Ok(1));
    assert_eq!(
        builder.register_feature("Sprite"),
        Err(RegistryError::DuplicateFeature { index: 1 })
    );
    let registry = builder.build();
    assert_eq!(registry.registered_feature_count(), 2);
    assert_eq!(registry.feature_index_from_name("Sprite"), Some(1));
    assert_eq!(registry.feature_index_from_name("Text"), None);
}

#[test]
fn phases_and_features_are_numbered_apart() {
    let mut builder = RenderRegistryBuilder::new();
    assert_eq!(builder.register_render_phase("Opaque"), Ok(0));
    assert_eq!(builder.register_feature("Opaque"), Ok(0));
    assert_eq!(builder.register_feature("Mesh"), Ok(1));
    assert_eq!(builder.register_render_phase("Ui"), Ok(1));
}

#[test]
fn the_phase_table_is_full_at_its_limit() {
    let mut builder = RenderRegistryBuilder::new();
    for index in 0..MAX_RENDER_PHASE_COUNT {
        assert_eq!(builder.register_render_phase(&format!("phase{}", index)), Ok(index));
    }
    assert_eq!(builder.register_render_phase("one more"), Err(RegistryError::TooManyPhases));
    assert_eq!(
        builder.register_render_phase("phase7"),
        Err(RegistryError::DuplicatePhase { index: 7 })
    );
    assert_eq!(builder.build().registered_render_phase_count(), 32);
}

#[test]
fn the_feature_table_is_full_at_its_limit() {
    let mut builder = RenderRegistryBuilder::new();
    for index in 0..MAX_RENDER_FEATURE_COUNT {
        assert_eq!(builder.register_feature(&format!("feature{}", index)), Ok(index));
    }
    assert_eq!(builder.register_feature("one more"), Err(RegistryError::TooManyFeatures));
    assert_eq!(builder.build().registered_feature_count(), 64);
}

#[test]
fn debug_names_are_found_by_index() {
    let mut builder = RenderRegistryBuilder::new();
    builder.register_render_phase("Opaque").unwrap();
    builder.register_feature("MeshRenderFeature").unwrap();
    let registry = builder.build();
    assert_eq!(registry.render_phase_debug_name(0), Some("Opaque".to_string()));
    assert_eq!(registry.render_phase_debug_name(1), None);
    assert_eq!(registry.feature_debug_name(0), Some("MeshRenderFeature".to_string()));
    assert_eq!(registry.feature_debug_name(64), None);
    assert_eq!(registry.render_phase_index_from_name("opaque"), None);
}

#[test]
fn startup_builds_the_registry_with_the_opaque_phase() {
    let mut builder = Some(RenderRegistryBuilder::new());
    let mut registry: Option<RenderRegistry> = None;
    assert_eq!(register_mesh_feature(&mut builder), Ok(0));
    assert_eq!(build_render_registry(&mut builder, &mut registry), Ok(0));
    assert!(builder.is_none());
    let registry = registry.unwrap();
    assert_eq!(registry.render_phase_index_from_name("Opaque"), Some(0));
    assert_eq!(registry.feature_index_from_name("MeshRenderFeature"), Some(0));
    assert_eq!(registry.registered_render_phase_count(), 1);
    assert_eq!(registry.registered_feature_count(), 1);
}

#[test]
fn startup_fails_where_the_opaque_phase_is_registered_already() {
    let mut pending = RenderRegistryBuilder::new();
    pending.register_render_phase("Shadow").unwrap();
    pending.register_render_phase("Opaque").unwrap();
    let mut builder = Some(pending);
    let mut registry: Option<RenderRegistry> = None;
    assert_eq!(
        build_render_registry(&mut builder, &mut registry),
        Err(RegistryError::DuplicatePhase { index: 1 })
    );
    assert!(registry.is_none());
    let mut kept = builder.unwrap();
    assert_eq!(kept.register_render_phase("Ui"), Ok(2));
}

#[test]
fn the_mesh_feature_registers_once() {
    let mut builder = Some(RenderRegistryBuilder::new());
    assert_eq!(register_mesh_feature(&mut builder), Ok(0));
    assert_eq!(
        register_mesh_feature(&mut builder),
        Err(RegistryError::DuplicateFeature { index: 0 })
    );
    assert!(builder.is_some());
}

#[test]
fn a_phase_mask_includes_what_was_added() {
    let mask = RenderPhaseMaskBuilder::new().add_render_phase(0).add_render_phase(31).build();
    assert!(mask.is_included_index(0));
    assert!(mask.is_included_index(31));
    assert!(!mask.is_included_index(1));
    assert!(!mask.is_included_index(30));
    assert!(!mask.is_included_index(32));
    assert!(!mask.is_included_index(u32::MAX));
    let twice = RenderPhaseMaskBuilder::new().add_render_phase(5).add_render_phase(5).build();
    assert!(twice.is_included_index(5));
    assert!(!twice.is_included_index(4));
}

#[test]
fn a_feature_mask_includes_what_was_added() {
    let mask = RenderFeatureMaskBuilder::new().add_render_feature(3).add_render_feature(63).build();
    assert!(mask.is_included_index(3));
    assert!(mask.is_included_index(63));
    assert!(!mask.is_included_index(0));
    assert!(!mask.is_included_index(32));
    assert!(!mask.is_included_index(64));
    assert!(!mask.is_included_index(u32::MAX));
}

#[test]
fn empty_masks_include_nothing() {
    let phases = RenderPhaseMask::empty();
    let features = RenderFeatureMask::empty();
    for index in 0..70 {
        assert!(!phases.is_included_index(index));
        assert!(!features.is_included_index(index));
    }
    let built = RenderFeatureMaskBuilder::new().build();
    assert!(!built.is_included_index(0));
}

#[test]
fn default_builders_are_empty() {
    let mut builder = RenderRegistryBuilder::default();
    assert_eq!(builder.register_render_phase("Opaque"), Ok(0));
    assert_eq!(builder.register_feature("Mesh"), Ok(0));
    let phases = RenderPhaseMaskBuilder::default().build();
    let features = RenderFeatureMaskBuilder::default().build();
    for index in 0..64 {
        assert!(!phases.is_included_index(index));
        assert!(!features.is_included_index(index));
    }
}
