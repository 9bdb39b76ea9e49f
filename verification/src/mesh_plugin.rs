//! The mesh renderer: the plugin that registers it, and the step that keeps
//! the visibility region in line with the meshes of the scene.

use vstd::prelude::*;
use vstd::string::*;
use crate::frame_plugin::RenderStage;
use crate::plan::{
    has_stage, AppPlan, AssetKind, ComponentKind, PlanError, PlanStep, StageLabel, StartupStage,
    SystemId,
};
use crate::visibility::{
    is_live, is_node_added_in, is_placed_in, is_registered_in, is_released_in, object_of,
    CullModelKey, ObjectKind, Placement, RenderNodeHandle, VisibilityHandle, VisibilityRegion,
    VisibilitySlot,
};

verus! {

/// What an entity with a mesh carries to be seen: the handle of its object
/// in the visibility region, once it is registered.
#[derive(Clone, Copy, Debug)]
pub struct VisibilityComponent {
    pub handle: Option<VisibilityHandle>,
}

impl VisibilityComponent {
    /// A component without a handle.
    pub fn new() -> (component: Self)
        ensures
            component.handle is None,
    {
        VisibilityComponent { handle: None }
    }

    /// The component as text for debugging. The handle is not spelled out:
    /// the text says only whether there is one.
    pub fn debug_string(&self) -> (text: String)
        ensures
            self.handle is Some ==> text@
                == "VisibilityComponent { handle: Some(\"VisibilityObjectArc\") }"@,
            self.handle is None ==> text@ == "VisibilityComponent { handle: None }"@,
    {
        match self.handle {
            Some(_) => String::from_str(
                "VisibilityComponent { handle: Some(\"VisibilityObjectArc\") }",
            ),
            None => String::from_str("VisibilityComponent { handle: None }"),
        }
    }
}

impl Default for VisibilityComponent {
    /// A component without a handle.
    fn default() -> (component: Self)
        ensures
            component.handle is None,
    {
        VisibilityComponent::new()
    }
}

/// What has changed on an entity with a mesh since the step ran last.
#[derive(Clone, Copy, Debug)]
pub struct MeshChange {
    /// The visibility component was added.
    pub component_added: bool,
    /// The entity has another mesh.
    pub mesh_changed: bool,
    /// The entity was moved.
    pub transform_changed: bool,
}

/// What the step did to the region, for the host to do to the geometry.
#[derive(Clone, Copy, Debug)]
pub struct VisibilityUpdate {
    /// The object that was registered: the host hands its cull model over.
    pub registered: Option<VisibilityHandle>,
    /// The object that was placed at the entity's transform.
    pub placed: Option<VisibilityHandle>,
}

/// Whether the entity's object has to be registered anew: a cull model is
/// fixed when its object is registered, so another mesh takes another object.
pub open spec fn needs_registration(change: MeshChange) -> bool {
    change.component_added || change.mesh_changed
}

/// `after` is `before` without the object under `replaced`, if there was
/// one, then with a new object under `fresh`, then with that object put at
/// `placement`, then with the render node `node` attached to it.
pub open spec fn is_reregistered_in(
    before: Seq<VisibilitySlot>,
    after: Seq<VisibilitySlot>,
    replaced: Option<VisibilityHandle>,
    fresh: VisibilityHandle,
    placement: Placement,
    node: RenderNodeHandle,
) -> bool {
    exists|
        released: Seq<VisibilitySlot>,
        registered: Seq<VisibilitySlot>,
        placed: Seq<VisibilitySlot>,
    |
        {
            &&& if replaced is Some && is_live(before, replaced->0) {
                is_released_in(before, released, replaced->0)
            } else {
                released == before
            }
            &&& #[trigger] is_registered_in(released, registered, fresh)
            &&& #[trigger] is_placed_in(registered, placed, fresh, placement)
            &&& #[trigger] is_node_added_in(placed, after, fresh, node)
        }
}

/// Brings the visibility region in line with one entity that has a mesh.
///
/// Where the component was added or the mesh has changed, the object that
/// the component names is released, a dynamic object is registered for the
/// entity with the cull model `cull_model`, put at `placement` and given
/// the render node `node` of the mesh feature, and the component takes its
/// handle. Otherwise, where the entity was moved, the component's object is
/// put at `placement`. Otherwise nothing changes.
pub fn mesh_update_visibility(
    region: &mut VisibilityRegion,
    component: &mut VisibilityComponent,
    entity_id: u64,
    cull_model: CullModelKey,
    placement: Placement,
    node: RenderNodeHandle,
    change: MeshChange,
) -> (update: VisibilityUpdate)
    requires
        old(region).well_formed(),
        !needs_registration(change) && change.transform_changed ==> old(component).handle is Some,
    ensures
        final(region).well_formed(),
        final(region).frustum_slots() == old(region).frustum_slots(),
        needs_registration(change) ==> {
            &&& update.registered is Some
            &&& update.placed == update.registered
            &&& final(component).handle == update.registered
            &&& is_reregistered_in(
                old(region).slots(),
                final(region).slots(),
                old(component).handle,
                update.registered->0,
                placement,
                node,
            )
            &&& object_of(final(region).slots(), update.registered->0).entity_id == entity_id
            &&& object_of(final(region).slots(), update.registered->0).kind == ObjectKind::Dynamic
            &&& object_of(final(region).slots(), update.registered->0).cull_model == cull_model
            &&& object_of(final(region).slots(), update.registered->0).placement == Some(placement)
            &&& object_of(final(region).slots(), update.registered->0).nodes@ == seq![node]
        },
        !needs_registration(change) ==> {
            &&& update.registered is None
            &&& final(component).handle == old(component).handle
            &&& if change.transform_changed && is_live(
                old(region).slots(),
                old(component).handle->0,
            ) {
                update.placed == old(component).handle && is_placed_in(
                    old(region).slots(),
                    final(region).slots(),
                    old(component).handle->0,
                    placement,
                )
            } else {
                update.placed is None && final(region).slots() == old(region).slots()
            }
        },
{
    if change.component_added || change.mesh_changed {
        if let Some(replaced) = component.handle {
            region.unregister(replaced);
        }
        let ghost released = region.slots();
        let fresh = region.register_dynamic_object(entity_id, cull_model);
        let ghost registered = region.slots();
        region.set_transform(fresh, placement);
        let ghost placed = region.slots();
        region.add_render_node(fresh, node);
        proof {
            assert(is_registered_in(released, registered, fresh));
            assert(is_placed_in(registered, placed, fresh, placement));
            assert(is_node_added_in(placed, region.slots(), fresh, node));
            assert(object_of(region.slots(), fresh).nodes@ =~= seq![node]);
        }
        component.handle = Some(fresh);
        VisibilityUpdate { registered: Some(fresh), placed: Some(fresh) }
    } else if change.transform_changed {
        match component.handle {
            Some(handle) => {
                if region.set_transform(handle, placement) {
                    VisibilityUpdate { registered: None, placed: Some(handle) }
                } else {
                    VisibilityUpdate { registered: None, placed: None }
                }
            },
            None => VisibilityUpdate { registered: None, placed: None },
        }
    } else {
        VisibilityUpdate { registered: None, placed: None }
    }
}

/// An entity that is registered in one frame and moved in the next keeps
/// its object: after the move the object is at the new place, under the
/// handle it had, with the render node it was given, and nothing was
/// registered or released beside it.
pub proof fn law_moved_mesh_keeps_its_object(
    start: Seq<VisibilitySlot>,
    first: Seq<VisibilitySlot>,
    second: Seq<VisibilitySlot>,
    replaced: Option<VisibilityHandle>,
    handle: VisibilityHandle,
    node: RenderNodeHandle,
    first_placement: Placement,
    second_placement: Placement,
)
    requires
        is_reregistered_in(start, first, replaced, handle, first_placement, node),
        is_placed_in(first, second, handle, second_placement),
    ensures
        is_live(first, handle),
        object_of(first, handle).placement == Some(first_placement),
        is_live(second, handle),
        object_of(second, handle).placement == Some(second_placement),
        object_of(second, handle).nodes@ == object_of(first, handle).nodes@,
        second.len() == first.len(),
        forall|other: VisibilityHandle|
            other != handle ==> (is_live(second, other) <==> is_live(first, other)),
        forall|other: VisibilityHandle|
            other.index != handle.index && is_live(first, other) ==> object_of(second, other)
                == object_of(first, other),
{
    assert forall|other: VisibilityHandle| other != handle implies (is_live(second, other)
        <==> is_live(first, other)) by {
        if other.index != handle.index && other.index < first.len() {
            assert(second[other.index as int] == first[other.index as int]);
        }
    }
    assert forall|other: VisibilityHandle|
        other.index != handle.index && is_live(first, other) implies object_of(second, other)
        == object_of(first, other) by {
        assert(second[other.index as int] == first[other.index as int]);
    }
}

/// What the plugin registers, in order: the visibility component, the mesh
/// and material assets, the startup system that registers the mesh feature,
/// and the systems that update visibility and extract the meshes.
pub open spec fn mesh_steps() -> Seq<PlanStep> {
    seq![
        PlanStep::RegisterType(ComponentKind::Visibility),
        PlanStep::AddAsset(AssetKind::Mesh),
        PlanStep::AddAsset(AssetKind::StandardMaterial),
        PlanStep::StartupSystem(StartupStage::Startup, SystemId::RegisterMeshFeature),
        PlanStep::System(
            StageLabel::Pipeline(RenderStage::Visibility),
            SystemId::MeshUpdateVisibility,
        ),
        PlanStep::System(StageLabel::Pipeline(RenderStage::Extract), SystemId::MeshExtract),
    ]
}

/// The plugin of the mesh renderer.
#[derive(Clone, Copy, Debug, Default)]
pub struct MeshRendererPlugin {}

impl MeshRendererPlugin {
    /// Composes the mesh renderer into `app`, which has the frame pipeline
    /// composed in already.
    ///
    /// Fails, and changes nothing, where `app` lacks the pipeline's
    /// visibility stage, and else where it lacks the extract stage.
    pub fn build(&self, app: &mut AppPlan) -> (result: Result<(), PlanError>)
        ensures
            final(app).stages() == old(app).stages(),
            match result {
                Ok(()) => {
                    &&& has_stage(old(app).stages(), StageLabel::Pipeline(RenderStage::Visibility))
                    &&& has_stage(old(app).stages(), StageLabel::Pipeline(RenderStage::Extract))
                    &&& final(app).steps() == old(app).steps() + mesh_steps()
                },
                Err(error) => {
                    &&& final(app).steps() == old(app).steps()
                    &&& if !has_stage(
                        old(app).stages(),
                        StageLabel::Pipeline(RenderStage::Visibility),
                    ) {
                        error == PlanError::UnknownStage(
                            StageLabel::Pipeline(RenderStage::Visibility),
                        )
                    } else {
                        !has_stage(old(app).stages(), StageLabel::Pipeline(RenderStage::Extract))
                            && error == PlanError::UnknownStage(
                            StageLabel::Pipeline(RenderStage::Extract),
                        )
                    }
                },
            },
    {
        let visibility = StageLabel::Pipeline(RenderStage::Visibility);
        let extract = StageLabel::Pipeline(RenderStage::Extract);
        if !app.contains_stage(visibility) {
            return Err(PlanError::UnknownStage(visibility));
        }
        if !app.contains_stage(extract) {
            return Err(PlanError::UnknownStage(extract));
        }
        app.register_type(ComponentKind::Visibility);
        app.add_asset(AssetKind::Mesh);
        app.add_asset(AssetKind::StandardMaterial);
        app.add_startup_system(SystemId::RegisterMeshFeature);
        if let Err(error) = app.add_system_to_stage(visibility, SystemId::MeshUpdateVisibility) {
            return Err(error);
        }
        if let Err(error) = app.add_system_to_stage(extract, SystemId::MeshExtract) {
            return Err(error);
        }
        proof {
            assert(app.steps() =~= old(app).steps() + mesh_steps());
        }
        Ok(())
    }
}

} // verus!
