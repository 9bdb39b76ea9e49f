//! The visibility region: the registry of the objects that can be seen, and
//! of the view frustums that look at them.
//!
//! Objects live in an arena of slots. A handle names a slot and the
//! generation the slot had when the object was registered; releasing the
//! object moves the slot on to its next generation, so that a handle that
//! was released never names a later object. Frustums live in an arena of
//! their own, of the same kind: a frustum is registered for a view and
//! released with the frame packet that holds the view.
//!
//! The region keeps, for each object, the key of its cull model and its
//! latest placement. It does no geometry: the host tests the objects
//! against a frustum and hands back the handles of those inside.

use vstd::prelude::*;
use crate::mask::RenderFeatureIndex;
use crate::sequence::same_but_at;

verus! {

/// Key by which the host finds the cull model of an object.
pub type CullModelKey = u64;

/// Handle of a registered object.
#[derive(Clone, Copy, Debug, PartialEq, Eq, Hash, Structural)]
pub struct VisibilityHandle {
    pub index: usize,
    pub generation: u32,
}

/// Handle of a registered view frustum. A frustum lives as long as the view
/// that looks through it: it is released with the frame packet that holds
/// the view.
#[derive(Clone, Copy, Debug, PartialEq, Eq, Hash, Structural)]
pub struct ViewFrustumHandle {
    pub index: usize,
    pub generation: u32,
}

/// How a projection maps depth.
#[derive(Clone, Copy, Debug, PartialEq, Eq, Structural)]
pub enum DepthRange {
    Normal,
    Infinite,
    Reverse,
    InfiniteReverse,
}

/// A perspective projection. The four numbers are the bit patterns of
/// single precision numbers.
#[derive(Clone, Copy, Debug, PartialEq, Eq, Structural)]
pub struct PerspectiveParameters {
    pub fov_y_radians: u32,
    pub ratio: u32,
    pub near_distance: u32,
    pub far_distance: u32,
    pub depth_range: DepthRange,
}

/// Where a frustum looks from, what it looks at and which way is up, each
/// component as the bit pattern of a single precision number.
#[derive(Clone, Copy, Debug)]
pub struct FrustumPlacement {
    pub eye: [u32; 3],
    pub look_at: [u32; 3],
    pub up: [u32; 3],
}

/// A view frustum: its projection and its placement, as far as they were
/// set.
#[derive(Clone, Copy, Debug)]
pub struct ViewFrustum {
    pub projection: Option<PerspectiveParameters>,
    pub placement: Option<FrustumPlacement>,
}

/// One slot of the arena of frustums.
#[derive(Clone, Copy, Debug)]
pub struct FrustumSlot {
    pub generation: u32,
    pub frustum: Option<ViewFrustum>,
}

/// `handle` names a frustum that is registered now.
pub open spec fn is_live_frustum(slots: Seq<FrustumSlot>, handle: ViewFrustumHandle) -> bool {
    &&& handle.index < slots.len()
    &&& slots[handle.index as int].generation == handle.generation
    &&& slots[handle.index as int].frustum is Some
}

/// The frustum that a live handle names.
pub open spec fn frustum_of(slots: Seq<FrustumSlot>, handle: ViewFrustumHandle) -> ViewFrustum {
    slots[handle.index as int].frustum->0
}

/// A slot that holds a frustum can still move on to a next generation.
pub open spec fn frustum_slots_well_formed(slots: Seq<FrustumSlot>) -> bool {
    &&& slots.len() <= usize::MAX
    &&& forall|i: int|
        0 <= i < slots.len() ==> ((#[trigger] slots[i]).frustum is Some ==> slots[i].generation
            < u32::MAX)
}

/// A slot can take a new frustum: it is empty, and not at its last
/// generation.
pub open spec fn is_free_frustum_slot(slot: FrustumSlot) -> bool {
    slot.frustum is None && slot.generation < u32::MAX
}

/// `after` is `before` with one frustum more, `frustum`, under `handle`: it
/// went into the first free slot, or into a new slot where none was free.
/// Every other slot is as it was.
pub open spec fn is_frustum_registered_in(
    before: Seq<FrustumSlot>,
    after: Seq<FrustumSlot>,
    handle: ViewFrustumHandle,
    frustum: ViewFrustum,
) -> bool {
    &&& handle.index <= before.len()
    &&& forall|i: int| 0 <= i < handle.index ==> !is_free_frustum_slot(#[trigger] before[i])
    &&& if handle.index < before.len() {
        &&& is_free_frustum_slot(before[handle.index as int])
        &&& after.len() == before.len()
        &&& handle.generation == before[handle.index as int].generation
    } else {
        &&& after.len() == before.len() + 1
        &&& handle.generation == 0
    }
    &&& is_live_frustum(after, handle)
    &&& frustum_of(after, handle) == frustum
    &&& forall|i: int|
        0 <= i < before.len() && i != handle.index ==> #[trigger] after[i] == before[i]
}

/// `after` is `before` with the frustum under the live handle `handle` set
/// to `frustum`. No other slot changes.
pub open spec fn is_frustum_set_in(
    before: Seq<FrustumSlot>,
    after: Seq<FrustumSlot>,
    handle: ViewFrustumHandle,
    frustum: ViewFrustum,
) -> bool {
    after == before.update(
        handle.index as int,
        FrustumSlot { generation: handle.generation, frustum: Some(frustum) },
    )
}

/// `after` is `before` without the frustum under `handle`: the slot is
/// empty and has moved on to its next generation. No other slot changes.
pub open spec fn is_frustum_released_in(
    before: Seq<FrustumSlot>,
    after: Seq<FrustumSlot>,
    handle: ViewFrustumHandle,
) -> bool {
    after == before.update(
        handle.index as int,
        FrustumSlot { generation: (handle.generation + 1) as u32, frustum: None },
    )
}

/// Whether an object is expected to move.
#[derive(Clone, Copy, Debug, PartialEq, Eq, Structural)]
pub enum ObjectKind {
    Static,
    Dynamic,
}

/// A render node of some feature: what a feature draws for one object.
#[derive(Clone, Copy, Debug, PartialEq, Eq, Hash, Structural)]
pub struct RenderNodeHandle {
    pub feature: RenderFeatureIndex,
    pub node: u32,
}

/// Where an object is: translation, rotation (a quaternion) and scale, each
/// component as the bit pattern of a single precision number. The region
/// stores a placement and hands it on; it never reads the numbers.
#[derive(Clone, Copy, Debug)]
pub struct Placement {
    pub translation: [u32; 3],
    pub rotation: [u32; 4],
    pub scale: [u32; 3],
}

/// A registered object. `placement` is where it was put last, or `None`
/// while it was never placed.
pub struct VisibilityObject {
    pub entity_id: u64,
    pub kind: ObjectKind,
    pub cull_model: CullModelKey,
    pub placement: Option<Placement>,
    pub nodes: Vec<RenderNodeHandle>,
}

/// What the host needs of an object to test it against a frustum.
#[derive(Clone, Copy, Debug)]
pub struct VisibilityCandidate {
    pub handle: VisibilityHandle,
    pub kind: ObjectKind,
    pub cull_model: CullModelKey,
    pub placement: Option<Placement>,
}

/// One slot of the arena.
pub struct VisibilitySlot {
    pub generation: u32,
    pub object: Option<VisibilityObject>,
}

/// `handle` names an object that is registered now.
pub open spec fn is_live(slots: Seq<VisibilitySlot>, handle: VisibilityHandle) -> bool {
    &&& handle.index < slots.len()
    &&& slots[handle.index as int].generation == handle.generation
    &&& slots[handle.index as int].object is Some
}

/// `handle` names an object that was released: its slot has moved on.
pub open spec fn is_stale(slots: Seq<VisibilitySlot>, handle: VisibilityHandle) -> bool {
    handle.index < slots.len() && handle.generation < slots[handle.index as int].generation
}

/// The object that a live handle names.
pub open spec fn object_of(
    slots: Seq<VisibilitySlot>,
    handle: VisibilityHandle,
) -> VisibilityObject {
    slots[handle.index as int].object->0
}

/// A slot that holds an object can still move on to a next generation.
pub open spec fn slots_well_formed(slots: Seq<VisibilitySlot>) -> bool {
    &&& slots.len() <= usize::MAX
    &&& forall|i: int|
        0 <= i < slots.len() ==> ((#[trigger] slots[i]).object is Some ==> slots[i].generation
            < u32::MAX)
}

/// A slot can take a new object: it is empty, and not at its last generation.
pub open spec fn is_free(slot: VisibilitySlot) -> bool {
    slot.object is None && slot.generation < u32::MAX
}

/// `after` is `before` with one object more, under `handle`: the object
/// went into the first free slot, or into a new slot where none was free.
/// Every other slot is as it was.
pub open spec fn is_registered_in(
    before: Seq<VisibilitySlot>,
    after: Seq<VisibilitySlot>,
    handle: VisibilityHandle,
) -> bool {
    &&& handle.index <= before.len()
    &&& forall|i: int| 0 <= i < handle.index ==> !is_free(#[trigger] before[i])
    &&& if handle.index < before.len() {
        &&& is_free(before[handle.index as int])
        &&& after.len() == before.len()
        &&& handle.generation == before[handle.index as int].generation
    } else {
        &&& after.len() == before.len() + 1
        &&& handle.generation == 0
    }
    &&& is_live(after, handle)
    &&& forall|i: int|
        0 <= i < before.len() && i != handle.index ==> #[trigger] after[i] == before[i]
}

/// `after` is `before` without the object under `handle`: the slot is empty
/// and has moved on to its next generation. Every other slot is as it was.
pub open spec fn is_released_in(
    before: Seq<VisibilitySlot>,
    after: Seq<VisibilitySlot>,
    handle: VisibilityHandle,
) -> bool {
    &&& same_but_at(before, after, handle.index as int)
    &&& after[handle.index as int].object is None
    &&& after[handle.index as int].generation == handle.generation + 1
}

/// `after` is `before` with the object under the live handle `handle` put at
/// `placement`. Nothing else of the object changes, and no other slot.
pub open spec fn is_placed_in(
    before: Seq<VisibilitySlot>,
    after: Seq<VisibilitySlot>,
    handle: VisibilityHandle,
    placement: Placement,
) -> bool {
    &&& same_but_at(before, after, handle.index as int)
    &&& is_live(after, handle)
    &&& object_of(after, handle).placement == Some(placement)
    &&& object_of(after, handle).nodes@ == object_of(before, handle).nodes@
    &&& object_of(after, handle).entity_id == object_of(before, handle).entity_id
    &&& object_of(after, handle).kind == object_of(before, handle).kind
    &&& object_of(after, handle).cull_model == object_of(before, handle).cull_model
}

/// `after` is `before` with the render node `node` attached to the object
/// under the live handle `handle`, behind the nodes it carries already.
/// Nothing else of the object changes, and no other slot.
pub open spec fn is_node_added_in(
    before: Seq<VisibilitySlot>,
    after: Seq<VisibilitySlot>,
    handle: VisibilityHandle,
    node: RenderNodeHandle,
) -> bool {
    &&& same_but_at(before, after, handle.index as int)
    &&& is_live(after, handle)
    &&& object_of(after, handle).nodes@ == object_of(before, handle).nodes@.push(node)
    &&& object_of(after, handle).placement == object_of(before, handle).placement
    &&& object_of(after, handle).entity_id == object_of(before, handle).entity_id
    &&& object_of(after, handle).kind == object_of(before, handle).kind
    &&& object_of(after, handle).cull_model == object_of(before, handle).cull_model
}

/// What the host is handed of the object under a live handle.
pub open spec fn candidate_of(
    slots: Seq<VisibilitySlot>,
    handle: VisibilityHandle,
) -> VisibilityCandidate {
    VisibilityCandidate {
        handle,
        kind: object_of(slots, handle).kind,
        cull_model: object_of(slots, handle).cull_model,
        placement: object_of(slots, handle).placement,
    }
}

/// The candidates of the registered objects, in slot order.
pub open spec fn candidates_of(slots: Seq<VisibilitySlot>) -> Seq<VisibilityCandidate>
    decreases slots.len(),
{
    if slots.len() == 0 {
        Seq::empty()
    } else {
        let rest = candidates_of(slots.drop_last());
        let handle = VisibilityHandle {
            index: (slots.len() - 1) as usize,
            generation: slots.last().generation,
        };
        if slots.last().object is Some {
            rest.push(candidate_of(slots, handle))
        } else {
            rest
        }
    }
}

/// The registry of visible objects and of view frustums.
pub struct VisibilityRegion {
    slots: Vec<VisibilitySlot>,
    frustums: Vec<FrustumSlot>,
}

impl VisibilityRegion {
    /// The slots of the arena of objects.
    pub closed spec fn slots(&self) -> Seq<VisibilitySlot> {
        self.slots@
    }

    /// The slots of the arena of frustums.
    pub closed spec fn frustum_slots(&self) -> Seq<FrustumSlot> {
        self.frustums@
    }

    /// A slot in use, of either arena, has a next generation to move on to.
    /// Every region that [`Self::new`] and the methods below hand out is
    /// well formed.
    pub open spec fn well_formed(&self) -> bool {
        slots_well_formed(self.slots()) && frustum_slots_well_formed(self.frustum_slots())
    }

    /// A region without objects and frustums.
    pub fn new() -> (region: Self)
        ensures
            region.well_formed(),
            region.slots().len() == 0,
            region.frustum_slots().len() == 0,
    {
        VisibilityRegion { slots: Vec::new(), frustums: Vec::new() }
    }

    /// Registers a view frustum, without projection and placement. Both are
    /// set once, before the frustum is queried.
    pub fn register_view_frustum(&mut self) -> (frustum: ViewFrustumHandle)
        requires
            old(self).well_formed(),
        ensures
            final(self).well_formed(),
            final(self).slots() == old(self).slots(),
            is_frustum_registered_in(
                old(self).frustum_slots(),
                final(self).frustum_slots(),
                frustum,
                ViewFrustum { projection: None, placement: None },
            ),
    {
        let mut i: usize = 0;
        while i < self.frustums.len() && !(self.frustums[i].frustum.is_none()
            && self.frustums[i].generation < u32::MAX)
            invariant
                i <= self.frustums.len(),
                self.frustums@ == old(self).frustums@,
                self.slots@ == old(self).slots@,
                forall|at: int|
                    0 <= at < i ==> !is_free_frustum_slot(#[trigger] self.frustums@[at]),
            decreases self.frustums.len() - i,
        {
            i += 1;
        }
        let unset = ViewFrustum { projection: None, placement: None };
        if i < self.frustums.len() {
            let generation: u32 = self.frustums[i].generation;
            self.frustums.set(i, FrustumSlot { generation, frustum: Some(unset) });
            ViewFrustumHandle { index: i, generation }
        } else {
            self.frustums.push(FrustumSlot { generation: 0, frustum: Some(unset) });
            let count: usize = self.frustums.len();
            assert(self.frustums@.len() == count);
            ViewFrustumHandle { index: i, generation: 0 }
        }
    }

    /// Whether `frustum` names a frustum that is registered now.
    pub fn contains_frustum(&self, frustum: ViewFrustumHandle) -> (live: bool)
        ensures
            live == is_live_frustum(self.frustum_slots(), frustum),
    {
        frustum.index < self.frustums.len() && self.frustums[frustum.index].generation
            == frustum.generation && self.frustums[frustum.index].frustum.is_some()
    }

    /// The frustum under `frustum`, as it is set now; `None` for a handle
    /// that names no registered frustum.
    pub fn view_frustum(&self, frustum: ViewFrustumHandle) -> (found: Option<ViewFrustum>)
        ensures
            match found {
                Some(found) => is_live_frustum(self.frustum_slots(), frustum) && found
                    == frustum_of(self.frustum_slots(), frustum),
                None => !is_live_frustum(self.frustum_slots(), frustum),
            },
    {
        if self.contains_frustum(frustum) {
            self.frustums[frustum.index].frustum
        } else {
            None
        }
    }

    /// Sets the projection of a frustum. Returns whether the handle names
    /// a registered frustum; one that does not changes nothing.
    pub fn set_frustum_projection(
        &mut self,
        frustum: ViewFrustumHandle,
        projection: PerspectiveParameters,
    ) -> (set: bool)
        requires
            old(self).well_formed(),
        ensures
            final(self).well_formed(),
            final(self).slots() == old(self).slots(),
            set == is_live_frustum(old(self).frustum_slots(), frustum),
            !set ==> final(self).frustum_slots() == old(self).frustum_slots(),
            set ==> is_frustum_set_in(
                old(self).frustum_slots(),
                final(self).frustum_slots(),
                frustum,
                ViewFrustum {
                    projection: Some(projection),
                    placement: frustum_of(old(self).frustum_slots(), frustum).placement,
                },
            ),
    {
        match self.view_frustum(frustum) {
            Some(found) => {
                self.frustums.set(
                    frustum.index,
                    FrustumSlot {
                        generation: frustum.generation,
                        frustum: Some(
                            ViewFrustum {
                                projection: Some(projection),
                                placement: found.placement,
                            },
                        ),
                    },
                );
                true
            },
            None => false,
        }
    }

    /// Sets where a frustum looks from and to. Returns whether the handle
    /// names a registered frustum; one that does not changes nothing.
    pub fn set_frustum_transform(
        &mut self,
        frustum: ViewFrustumHandle,
        eye: [u32; 3],
        look_at: [u32; 3],
        up: [u32; 3],
    ) -> (set: bool)
        requires
            old(self).well_formed(),
        ensures
            final(self).well_formed(),
            final(self).slots() == old(self).slots(),
            set == is_live_frustum(old(self).frustum_slots(), frustum),
            !set ==> final(self).frustum_slots() == old(self).frustum_slots(),
            set ==> is_frustum_set_in(
                old(self).frustum_slots(),
                final(self).frustum_slots(),
                frustum,
                ViewFrustum {
                    projection: frustum_of(old(self).frustum_slots(), frustum).projection,
                    placement: Some(FrustumPlacement { eye, look_at, up }),
                },
            ),
    {
        match self.view_frustum(frustum) {
            Some(found) => {
                self.frustums.set(
                    frustum.index,
                    FrustumSlot {
                        generation: frustum.generation,
                        frustum: Some(
                            ViewFrustum {
                                projection: found.projection,
                                placement: Some(FrustumPlacement { eye, look_at, up }),
                            },
                        ),
                    },
                );
                true
            },
            None => false,
        }
    }

    /// Releases the frustum under `frustum`. Returns whether there was one;
    /// a handle that names no registered frustum changes nothing. The handle
    /// names no frustum afterwards, nor ever again.
    pub fn release_view_frustum(&mut self, frustum: ViewFrustumHandle) -> (released: bool)
        requires
            old(self).well_formed(),
        ensures
            final(self).well_formed(),
            final(self).slots() == old(self).slots(),
            released == is_live_frustum(old(self).frustum_slots(), frustum),
            released ==> is_frustum_released_in(
                old(self).frustum_slots(),
                final(self).frustum_slots(),
                frustum,
            ),
            !released ==> final(self).frustum_slots() == old(self).frustum_slots(),
    {
        if !self.contains_frustum(frustum) {
            return false;
        }
        self.frustums.set(
            frustum.index,
            FrustumSlot { generation: frustum.generation + 1, frustum: None },
        );
        true
    }

    fn register_object(
        &mut self,
        entity_id: u64,
        kind: ObjectKind,
        cull_model: CullModelKey,
    ) -> (handle: VisibilityHandle)
        requires
            old(self).well_formed(),
        ensures
            final(self).well_formed(),
            final(self).frustum_slots() == old(self).frustum_slots(),
            is_registered_in(old(self).slots(), final(self).slots(), handle),
            object_of(final(self).slots(), handle).entity_id == entity_id,
            object_of(final(self).slots(), handle).kind == kind,
            object_of(final(self).slots(), handle).cull_model == cull_model,
            object_of(final(self).slots(), handle).placement is None,
            object_of(final(self).slots(), handle).nodes@.len() == 0,
    {
        let mut i: usize = 0;
        while i < self.slots.len() && !(self.slots[i].object.is_none() && self.slots[i].generation
            < u32::MAX)
            invariant
                i <= self.slots.len(),
                self.slots@ == old(self).slots@,
                forall|at: int| 0 <= at < i ==> !is_free(#[trigger] self.slots@[at]),
            decreases self.slots.len() - i,
        {
            i += 1;
        }
        let object = VisibilityObject {
            entity_id,
            kind,
            cull_model,
            placement: None,
            nodes: Vec::new(),
        };
        if i < self.slots.len() {
            let generation: u32 = self.slots[i].generation;
            self.slots.set(i, VisibilitySlot { generation, object: Some(object) });
            VisibilityHandle { index: i, generation }
        } else {
            self.slots.push(VisibilitySlot { generation: 0, object: Some(object) });
            let count: usize = self.slots.len();
            assert(self.slots@.len() == count);
            VisibilityHandle { index: i, generation: 0 }
        }
    }

    /// Registers an object that is not expected to move, and hands out its
    /// handle. The object carries no render node yet.
    pub fn register_static_object(
        &mut self,
        entity_id: u64,
        cull_model: CullModelKey,
    ) -> (handle: VisibilityHandle)
        requires
            old(self).well_formed(),
        ensures
            final(self).well_formed(),
            final(self).frustum_slots() == old(self).frustum_slots(),
            is_registered_in(old(self).slots(), final(self).slots(), handle),
            object_of(final(self).slots(), handle).entity_id == entity_id,
            object_of(final(self).slots(), handle).kind == ObjectKind::Static,
            object_of(final(self).slots(), handle).cull_model == cull_model,
            object_of(final(self).slots(), handle).placement is None,
            object_of(final(self).slots(), handle).nodes@.len() == 0,
    {
        self.register_object(entity_id, ObjectKind::Static, cull_model)
    }

    /// Registers an object that moves, and hands out its handle. The object
    /// carries no render node yet.
    pub fn register_dynamic_object(
        &mut self,
        entity_id: u64,
        cull_model: CullModelKey,
    ) -> (handle: VisibilityHandle)
        requires
            old(self).well_formed(),
        ensures
            final(self).well_formed(),
            final(self).frustum_slots() == old(self).frustum_slots(),
            is_registered_in(old(self).slots(), final(self).slots(), handle),
            object_of(final(self).slots(), handle).entity_id == entity_id,
            object_of(final(self).slots(), handle).kind == ObjectKind::Dynamic,
            object_of(final(self).slots(), handle).cull_model == cull_model,
            object_of(final(self).slots(), handle).placement is None,
            object_of(final(self).slots(), handle).nodes@.len() == 0,
    {
        self.register_object(entity_id, ObjectKind::Dynamic, cull_model)
    }

    /// Whether `handle` names an object that is registered now.
    pub fn contains(&self, handle: VisibilityHandle) -> (live: bool)
        ensures
            live == is_live(self.slots(), handle),
    {
        let index: usize = handle.index;
        index < self.slots.len() && self.slots[index].generation == handle.generation
            && self.slots[index].object.is_some()
    }

    /// Releases the object under `handle`. Returns whether there was one;
    /// a handle that names no registered object changes nothing.
    pub fn unregister(&mut self, handle: VisibilityHandle) -> (released: bool)
        requires
            old(self).well_formed(),
        ensures
            final(self).well_formed(),
            final(self).frustum_slots() == old(self).frustum_slots(),
            released == is_live(old(self).slots(), handle),
            released ==> is_released_in(old(self).slots(), final(self).slots(), handle),
            !released ==> final(self).slots() == old(self).slots(),
    {
        if !self.contains(handle) {
            return false;
        }
        let index: usize = handle.index;
        self.slots.set(index, VisibilitySlot { generation: handle.generation + 1, object: None });
        true
    }

    /// Attaches a render node to the object under `handle`, behind the nodes
    /// it carries already. Returns whether the handle names a registered
    /// object; one that does not changes nothing.
    pub fn add_render_node(
        &mut self,
        handle: VisibilityHandle,
        node: RenderNodeHandle,
    ) -> (added: bool)
        requires
            old(self).well_formed(),
        ensures
            final(self).well_formed(),
            final(self).frustum_slots() == old(self).frustum_slots(),
            added == is_live(old(self).slots(), handle),
            !added ==> final(self).slots() == old(self).slots(),
            added ==> is_node_added_in(old(self).slots(), final(self).slots(), handle, node),
    {
        if !self.contains(handle) {
            return false;
        }
        let index: usize = handle.index;
        match &self.slots[index].object {
            Some(object) => {
                let mut nodes = object.nodes.clone();
                nodes.push(node);
                let updated = VisibilityObject {
                    entity_id: object.entity_id,
                    kind: object.kind,
                    cull_model: object.cull_model,
                    placement: object.placement,
                    nodes,
                };
                self.slots.set(
                    index,
                    VisibilitySlot { generation: handle.generation, object: Some(updated) },
                );
                true
            },
            None => false,
        }
    }

    /// Puts the object under `handle` at `placement`. The host's next test
    /// against a frustum sees the object there. Returns whether the handle
    /// names a registered object; one that does not changes nothing.
    pub fn set_transform(
        &mut self,
        handle: VisibilityHandle,
        placement: Placement,
    ) -> (placed: bool)
        requires
            old(self).well_formed(),
        ensures
            final(self).well_formed(),
            final(self).frustum_slots() == old(self).frustum_slots(),
            placed == is_live(old(self).slots(), handle),
            !placed ==> final(self).slots() == old(self).slots(),
            placed ==> is_placed_in(old(self).slots(), final(self).slots(), handle, placement),
    {
        if !self.contains(handle) {
            return false;
        }
        let index: usize = handle.index;
        match &self.slots[index].object {
            Some(object) => {
                let updated = VisibilityObject {
                    entity_id: object.entity_id,
                    kind: object.kind,
                    cull_model: object.cull_model,
                    placement: Some(placement),
                    nodes: object.nodes.clone(),
                };
                self.slots.set(
                    index,
                    VisibilitySlot { generation: handle.generation, object: Some(updated) },
                );
                true
            },
            None => false,
        }
    }

    /// The objects that the host tests against a frustum: every registered
    /// object, in slot order, with its cull model and its latest placement.
    pub fn visibility_candidates(&self) -> (candidates: Vec<VisibilityCandidate>)
        requires
            self.well_formed(),
        ensures
            candidates@ == candidates_of(self.slots()),
    {
        let mut candidates: Vec<VisibilityCandidate> = Vec::new();
        let mut i: usize = 0;
        assert(self.slots@.take(0) =~= Seq::<VisibilitySlot>::empty());
        while i < self.slots.len()
            invariant
                i <= self.slots.len(),
                self.slots@.len() <= usize::MAX,
                candidates@ == candidates_of(self.slots@.take(i as int)),
            decreases self.slots.len() - i,
        {
            proof {
                let upto = self.slots@.take(i + 1);
                assert(upto.drop_last() =~= self.slots@.take(i as int));
                assert(upto.last() == self.slots@[i as int]);
            }
            let slot = &self.slots[i];
            match &slot.object {
                Some(object) => {
                    candidates.push(
                        VisibilityCandidate {
                            handle: VisibilityHandle { index: i,
                                generation: slot.generation },
                            kind: object.kind,
                            cull_model: object.cull_model,
                            placement: object.placement,
                        },
                    );
                },
                None => {},
            }
            i += 1;
        }
        assert(self.slots@.take(self.slots.len() as int) =~= self.slots@);
        candidates
    }

    /// The entity that registered the object under `handle`.
    pub fn entity_id(&self, handle: VisibilityHandle) -> (entity: Option<u64>)
        ensures
            match entity {
                Some(entity) => is_live(self.slots(), handle) && entity == object_of(
                    self.slots(),
                    handle,
                ).entity_id,
                None => !is_live(self.slots(), handle),
            },
    {
        if !self.contains(handle) {
            return None;
        }
        match &self.slots[handle.index].object {
            Some(object) => Some(object.entity_id),
            None => None,
        }
    }

    /// The first registered object of `entity_id`, in slot order.
    pub fn find_by_entity(&self, entity_id: u64) -> (found: Option<VisibilityHandle>)
        requires
            self.well_formed(),
        ensures
            match found {
                Some(handle) => {
                    &&& is_live(self.slots(), handle)
                    &&& object_of(self.slots(), handle).entity_id == entity_id
                    &&& forall|i: int|
                        0 <= i < handle.index
                            ==> !((#[trigger] self.slots()[i]).object matches Some(
                            object,
                        ) && object.entity_id == entity_id)
                },
                None => forall|i: int|
                    0 <= i < self.slots().len()
                        ==> !((#[trigger] self.slots()[i]).object matches Some(
                        object,
                    ) && object.entity_id == entity_id),
            },
    {
        let mut i: usize = 0;
        while i < self.slots.len()
            invariant
                i <= self.slots.len(),
                self.slots@.len() <= usize::MAX,
                forall|at: int|
                    0 <= at < i ==> !((#[trigger] self.slots@[at]).object matches Some(object)
                        && object.entity_id == entity_id),
            decreases self.slots.len() - i,
        {
            let slot = &self.slots[i];
            let owned: bool = match &slot.object {
                Some(object) => object.entity_id == entity_id,
                None => false,
            };
            if owned {
                return Some(VisibilityHandle { index: i, generation: slot.generation });
            }
            i += 1;
        }
        None
    }

    /// The slots of the arena.
    pub fn slot_list(&self) -> (slots: &Vec<VisibilitySlot>)
        ensures
            slots@ == self.slots(),
    {
        &self.slots
    }
}

/// A handle that was released stays released: registering an object never
/// hands out, or brings back to life, a handle that is stale.
pub proof fn law_registration_keeps_stale_handles_dead(
    before: Seq<VisibilitySlot>,
    after: Seq<VisibilitySlot>,
    handle: VisibilityHandle,
    stale: VisibilityHandle,
)
    requires
        slots_well_formed(before),
        is_registered_in(before, after, handle),
        is_stale(before, stale),
    ensures
        stale != handle,
        is_stale(after, stale),
        !is_live(after, stale),
{
    if stale.index != handle.index {
        assert(after[stale.index as int] == before[stale.index as int]);
    }
}

/// Releasing an object makes its handle stale, and leaves every stale
/// handle stale.
pub proof fn law_release_makes_handle_stale(
    before: Seq<VisibilitySlot>,
    after: Seq<VisibilitySlot>,
    handle: VisibilityHandle,
    stale: VisibilityHandle,
)
    requires
        slots_well_formed(before),
        is_live(before, handle),
        is_released_in(before, after, handle),
        is_stale(before, stale),
    ensures
        is_stale(after, handle),
        !is_live(after, handle),
        is_stale(after, stale),
{
    if stale.index != handle.index {
        assert(after[stale.index as int] == before[stale.index as int]);
    }
}

/// Registering an object leaves every object that was registered before
/// under its handle, unchanged.
pub proof fn law_registration_keeps_live_objects(
    before: Seq<VisibilitySlot>,
    after: Seq<VisibilitySlot>,
    handle: VisibilityHandle,
    other: VisibilityHandle,
)
    requires
        is_registered_in(before, after, handle),
        is_live(before, other),
    ensures
        other != handle,
        is_live(after, other),
        object_of(after, other) == object_of(before, other),
{
    assert(after[other.index as int] == before[other.index as int]);
}

/// The candidates are the registered objects, as they are now: every
/// candidate names a registered object and carries that object's latest
/// placement, and every registered object is among the candidates. So a
/// test against a frustum sees each object where it was put last, and never
/// where it was before.
pub proof fn law_candidates_are_current(slots: Seq<VisibilitySlot>)
    requires
        slots_well_formed(slots),
    ensures
        forall|k: int|
            0 <= k < candidates_of(slots).len() ==> is_live(
                slots,
                (#[trigger] candidates_of(slots)[k]).handle,
            ) && candidates_of(slots)[k] == candidate_of(slots, candidates_of(slots)[k].handle),
        forall|handle: VisibilityHandle|
            is_live(slots, handle) ==> exists|k: int|
                0 <= k < candidates_of(slots).len() && #[trigger] candidates_of(slots)[k]
                    == candidate_of(slots, handle),
    decreases slots.len(),
{
    if slots.len() > 0 {
        let front = slots.drop_last();
        let rest = candidates_of(front);
        law_candidates_are_current(front);
        let last = VisibilityHandle {
            index: (slots.len() - 1) as usize,
            generation: slots.last().generation,
        };
        assert forall|k: int| 0 <= k < candidates_of(slots).len() implies is_live(
            slots,
            (#[trigger] candidates_of(slots)[k]).handle,
        ) && candidates_of(slots)[k] == candidate_of(slots, candidates_of(slots)[k].handle) by {
            if k < rest.len() {
                assert(candidates_of(slots)[k] == rest[k]);
                assert(is_live(front, rest[k].handle));
                assert(front[rest[k].handle.index as int] == slots[rest[k].handle.index as int]);
            }
        }
        assert forall|handle: VisibilityHandle| is_live(slots, handle) implies exists|k: int|
            0 <= k < candidates_of(slots).len() && #[trigger] candidates_of(slots)[k]
                == candidate_of(slots, handle) by {
            if handle.index == slots.len() - 1 {
                assert(handle == last);
                assert(candidates_of(slots)[rest.len() as int] == candidate_of(slots, handle));
            } else {
                assert(front[handle.index as int] == slots[handle.index as int]);
                assert(is_live(front, handle));
                let k = choose|k: int|
                    0 <= k < rest.len() && #[trigger] rest[k] == candidate_of(front, handle);
                assert(candidates_of(slots)[k] == rest[k]);
            }
        }
    }
}

/// `states` is the course of the arena while the object under `handle` is
/// moved to each of `placements` in turn.
pub open spec fn is_moved_through(
    states: Seq<Seq<VisibilitySlot>>,
    handle: VisibilityHandle,
    placements: Seq<Placement>,
) -> bool {
    &&& states.len() == placements.len() + 1
    &&& forall|i: int|
        0 <= i < placements.len() ==> is_placed_in(
            #[trigger] states[i],
            states[i + 1],
            handle,
            placements[i],
        )
}

/// The last placement wins: however often an object is moved, the arena is
/// afterwards as if it had been moved once, to the last place. The earlier
/// places leave no trace, so a test against a frustum sees the object at
/// the last place only.
pub proof fn law_last_placement_wins(
    states: Seq<Seq<VisibilitySlot>>,
    handle: VisibilityHandle,
    placements: Seq<Placement>,
)
    requires
        placements.len() > 0,
        is_moved_through(states, handle, placements),
    ensures
        is_placed_in(states[0], states.last(), handle, placements.last()),
        slots_well_formed(states.last()) ==> forall|k: int|
            0 <= k < candidates_of(states.last()).len() && (#[trigger] candidates_of(
                states.last(),
            )[k]).handle == handle ==> candidates_of(states.last())[k].placement == Some(
                placements.last(),
            ),
    decreases placements.len(),
{
    let count = placements.len() as int;
    assert(is_placed_in(states[count - 1], states[count], handle, placements[count - 1]));
    if count > 1 {
        let earlier = states.drop_last();
        assert forall|i: int| 0 <= i < count - 1 implies is_placed_in(
            #[trigger] earlier[i],
            earlier[i + 1],
            handle,
            placements.drop_last()[i],
        ) by {
            assert(is_placed_in(states[i], states[i + 1], handle, placements[i]));
        }
        law_last_placement_wins(earlier, handle, placements.drop_last());
        assert(earlier[0] == states[0] && earlier.last() == states[count - 1]);
    }
    if slots_well_formed(states.last()) {
        law_candidates_show_latest_placement(states[0], states.last(), handle, placements.last());
    }
}

/// A frustum that was released stays released: neither registering a
/// frustum nor releasing one brings its handle back.
pub proof fn law_released_frustum_stays_released(
    before: Seq<FrustumSlot>,
    after: Seq<FrustumSlot>,
    handle: ViewFrustumHandle,
    frustum: ViewFrustum,
    released: ViewFrustumHandle,
)
    requires
        frustum_slots_well_formed(before),
        released.index < before.len(),
        released.generation < before[released.index as int].generation,
        is_frustum_registered_in(before, after, handle, frustum) || (is_live_frustum(
            before,
            handle,
        ) && is_frustum_released_in(before, after, handle)),
    ensures
        released != handle,
        !is_live_frustum(after, released),
        released.generation < after[released.index as int].generation,
{
    if released.index != handle.index {
        assert(after[released.index as int] == before[released.index as int]);
    }
}

/// A test against a frustum sees an object where it was put last: once an
/// object is placed, the candidates hold it with that placement, and hold no
/// candidate for it with another.
pub proof fn law_candidates_show_latest_placement(
    before: Seq<VisibilitySlot>,
    after: Seq<VisibilitySlot>,
    handle: VisibilityHandle,
    placement: Placement,
)
    requires
        slots_well_formed(after),
        is_placed_in(before, after, handle, placement),
    ensures
        exists|k: int|
            0 <= k < candidates_of(after).len() && (#[trigger] candidates_of(after)[k]).handle
                == handle,
        forall|k: int|
            0 <= k < candidates_of(after).len() && (#[trigger] candidates_of(after)[k]).handle
                == handle ==> candidates_of(after)[k].placement == Some(placement),
{
    law_candidates_are_current(after);
    let k = choose|k: int|
        0 <= k < candidates_of(after).len() && #[trigger] candidates_of(after)[k] == candidate_of(
            after,
            handle,
        );
    assert(candidates_of(after)[k].handle == handle);
}

} // verus!
