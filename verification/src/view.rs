//! Render views: the per-frame snapshots of the cameras that a frame is
//! rendered from.
//!
//! A view set numbers the views of one frame. It is replaced by a fresh one
//! for every frame; a view of an earlier frame means nothing to the frame
//! packet of a later one.
//!
//! Positions, matrices and distances are carried as the bit patterns of
//! single precision numbers. A view stores them and hands them on; nothing
//! here reads the numbers.

use vstd::prelude::*;
use vstd::string::*;
use crate::mask::{
    RenderFeatureMask, RenderPhaseIndex, RenderPhaseMask, RenderPhaseMaskBuilder,
};
use crate::registry::{name_at, opaque_phase_name, RenderRegistry};
use crate::visibility::{
    is_frustum_registered_in, DepthRange, FrustumPlacement, PerspectiveParameters, ViewFrustum,
    ViewFrustumHandle, VisibilityRegion,
};

verus! {

/// Index of a view within its frame.
pub type RenderViewIndex = u32;

/// The distances of the near and the far plane of a view.
#[derive(Clone, Copy, Debug, PartialEq, Eq, Structural)]
pub struct RenderViewDepthRange {
    pub near: u32,
    pub far: u32,
}

impl RenderViewDepthRange {
    /// The depth range between `near` and `far`.
    pub fn new(near: u32, far: u32) -> (range: Self)
        ensures
            range.near == near,
            range.far == far,
    {
        RenderViewDepthRange { near, far }
    }
}

/// One view of one frame.
pub struct RenderView {
    pub index: RenderViewIndex,
    pub frustum: ViewFrustumHandle,
    pub position: [u32; 3],
    pub view_matrix: [u32; 16],
    pub projection_matrix: [u32; 16],
    pub extents: (u32, u32),
    pub depth_range: RenderViewDepthRange,
    pub phase_mask: RenderPhaseMask,
    pub feature_mask: RenderFeatureMask,
    pub name: String,
}

impl RenderView {
    /// A copy of the view.
    pub fn duplicate(&self) -> (copy: RenderView)
        ensures
            copy == *self,
    {
        RenderView {
            index: self.index,
            frustum: self.frustum,
            position: self.position,
            view_matrix: self.view_matrix,
            projection_matrix: self.projection_matrix,
            extents: self.extents,
            depth_range: self.depth_range,
            phase_mask: self.phase_mask,
            feature_mask: self.feature_mask,
            name: self.name.clone(),
        }
    }
}

/// Creates the views of one frame and numbers them.
pub struct RenderViewSet {
    count: u32,
}

impl RenderViewSet {
    /// Number of views created in this frame.
    pub closed spec fn view_count(&self) -> nat {
        self.count as nat
    }

    /// The view set of a frame in which no view was created yet.
    pub fn new() -> (views: Self)
        ensures
            views.view_count() == 0,
    {
        RenderViewSet { count: 0 }
    }

    /// Creates a view. Its index is the number of views created before it in
    /// this frame, so views of one frame have distinct indices. A frame has
    /// room for as many views as an index can number.
    pub fn create_view(
        &mut self,
        frustum: ViewFrustumHandle,
        position: [u32; 3],
        view_matrix: [u32; 16],
        projection_matrix: [u32; 16],
        extents: (u32, u32),
        depth_range: RenderViewDepthRange,
        phase_mask: RenderPhaseMask,
        feature_mask: RenderFeatureMask,
        name: &str,
    ) -> (view: RenderView)
        requires
            old(self).view_count() < u32::MAX,
        ensures
            final(self).view_count() == old(self).view_count() + 1,
            view.index == old(self).view_count(),
            view.frustum == frustum,
            view.position == position,
            view.view_matrix == view_matrix,
            view.projection_matrix == projection_matrix,
            view.extents == extents,
            view.depth_range == depth_range,
            view.phase_mask == phase_mask,
            view.feature_mask == feature_mask,
            view.name@ == name@,
    {
        let index: u32 = self.count;
        self.count = index + 1;
        RenderView {
            index,
            frustum,
            position,
            view_matrix,
            projection_matrix,
            extents,
            depth_range,
            phase_mask,
            feature_mask,
            name: String::from_str(name),
        }
    }

    /// Number of views created in this frame.
    pub fn len(&self) -> (count: u32)
        ensures
            count == self.view_count(),
    {
        self.count
    }
}

impl Default for RenderViewSet {
    /// The view set of a frame in which no view was created yet.
    fn default() -> (views: Self)
        ensures
            views.view_count() == 0,
    {
        RenderViewSet::new()
    }
}

/// The camera of the main view, as the host reads it from the scene: its
/// name, the features that it draws, its perspective projection, where it
/// is, the point that it looks at and which way is up, and its two matrices.
pub struct MainCamera {
    pub name: String,
    pub feature_mask: RenderFeatureMask,
    pub fov_y_radians: u32,
    pub aspect_ratio: u32,
    pub near: u32,
    pub far: u32,
    pub translation: [u32; 3],
    pub look_at: [u32; 3],
    pub up: [u32; 3],
    pub view_matrix: [u32; 16],
    pub projection_matrix: [u32; 16],
}

/// The frustum of the main view of `camera`: a perspective with normal
/// depth, at the camera's place, looking at the point that the camera looks
/// at.
pub open spec fn main_view_frustum(camera: MainCamera) -> ViewFrustum {
    ViewFrustum {
        projection: Some(
            PerspectiveParameters {
                fov_y_radians: camera.fov_y_radians,
                ratio: camera.aspect_ratio,
                near_distance: camera.near,
                far_distance: camera.far,
                depth_range: DepthRange::Normal,
            },
        ),
        placement: Some(
            FrustumPlacement { eye: camera.translation, look_at: camera.look_at, up: camera.up },
        ),
    }
}

/// Creates the main view of the frame for `camera`, on a window of
/// `extents` pixels.
///
/// Registers a frustum for the view, sets the frustum's projection and
/// placement from the camera, and creates the view in `views`. The view
/// takes part in the opaque phase and in no other, and draws the features
/// of the camera's feature mask. The host then asks what the frustum sees,
/// and the frame packet builder adds the answer to the view's entry.
pub fn create_main_view(
    registry: &RenderRegistry,
    views: &mut RenderViewSet,
    region: &mut VisibilityRegion,
    extents: (u32, u32),
    camera: &MainCamera,
) -> (view: RenderView)
    requires
        registry.well_formed(),
        exists|index: int| name_at(registry.phases(), opaque_phase_name(), index),
        old(views).view_count() < u32::MAX,
        old(region).well_formed(),
    ensures
        final(views).view_count() == old(views).view_count() + 1,
        final(region).well_formed(),
        final(region).slots() == old(region).slots(),
        is_frustum_registered_in(
            old(region).frustum_slots(),
            final(region).frustum_slots(),
            view.frustum,
            main_view_frustum(*camera),
        ),
        view.index == old(views).view_count(),
        view.position == camera.translation,
        view.view_matrix == camera.view_matrix,
        view.projection_matrix == camera.projection_matrix,
        view.extents == extents,
        view.depth_range == (RenderViewDepthRange { near: camera.near, far: camera.far }),
        view.name@ == camera.name@,
        forall|phase: RenderPhaseIndex|
            view.phase_mask.includes(phase) <==> name_at(
                registry.phases(),
                opaque_phase_name(),
                phase as int,
            ),
        view.feature_mask == camera.feature_mask,
{
    let opaque: RenderPhaseIndex = registry.render_phase_index_from_name("Opaque").unwrap();
    let render_phase_mask = RenderPhaseMaskBuilder::new().add_render_phase(opaque).build();
    let render_feature_mask = camera.feature_mask;
    let depth_range = RenderViewDepthRange::new(camera.near, camera.far);

    let view_frustum = region.register_view_frustum();
    let projection = PerspectiveParameters {
        fov_y_radians: camera.fov_y_radians,
        ratio: camera.aspect_ratio,
        near_distance: camera.near,
        far_distance: camera.far,
        depth_range: DepthRange::Normal,
    };
    region.set_frustum_projection(view_frustum, projection);
    region.set_frustum_transform(view_frustum, camera.translation, camera.look_at, camera.up);

    let main_view = views.create_view(
        view_frustum,
        camera.translation,
        camera.view_matrix,
        camera.projection_matrix,
        extents,
        depth_range,
        render_phase_mask,
        render_feature_mask,
        camera.name.as_str(),
    );
    proof {
        assert forall|phase: RenderPhaseIndex|
            main_view.phase_mask.includes(phase) <==> name_at(
                registry.phases(),
                opaque_phase_name(),
                phase as int,
            ) by {
            if name_at(registry.phases(), opaque_phase_name(), phase as int) && phase != opaque {
                if phase < opaque {
                    assert(registry.phases()[phase as int]@ != registry.phases()[opaque as int]@);
                } else {
                    assert(registry.phases()[opaque as int]@ != registry.phases()[phase as int]@);
                }
            }
        }
    }
    main_view
}

} // verus!
