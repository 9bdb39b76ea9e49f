//! Frame packets: for each view of a frame, the render nodes that the view
//! sees.
//!
//! A packet is assembled by a builder while the frame's visibility is
//! queried, and finished once. Finishing uses the builder up, so nothing is
//! added to a packet that is being rendered.

use vstd::prelude::*;
use crate::mask::{RenderFeatureIndex, RenderFeatureMask};
use crate::sequence::same_but_at;
use crate::view::{RenderView, RenderViewIndex, RenderViewSet};
use crate::visibility::{
    frustum_of, frustum_slots_well_formed, is_live, is_live_frustum, object_of, FrustumSlot,
    RenderNodeHandle, ViewFrustumHandle, VisibilityHandle, VisibilityRegion, VisibilitySlot,
};

verus! {

/// The render nodes that one view sees.
pub struct ViewPacket {
    pub view: RenderView,
    pub nodes: Vec<RenderNodeHandle>,
}

/// Entry `at` of `views` is the entry of the view with index `index`.
pub open spec fn view_at(views: Seq<ViewPacket>, index: RenderViewIndex, at: int) -> bool {
    0 <= at < views.len() && views[at].view.index == index
}

/// `views` has an entry for the view with index `index`.
pub open spec fn has_view(views: Seq<ViewPacket>, index: RenderViewIndex) -> bool {
    exists|at: int| view_at(views, index, at)
}

/// The nodes of `nodes` whose feature is in `mask`, in order.
pub open spec fn masked_nodes(nodes: Seq<RenderNodeHandle>, mask: RenderFeatureMask) -> Seq<
    RenderNodeHandle,
>
    decreases nodes.len(),
{
    if nodes.len() == 0 {
        Seq::empty()
    } else if mask.includes(nodes.last().feature) {
        masked_nodes(nodes.drop_last(), mask).push(nodes.last())
    } else {
        masked_nodes(nodes.drop_last(), mask)
    }
}

/// The render nodes that a view with feature mask `mask` takes from the
/// objects under the handles `visible`: for each handle in order that names
/// a registered object, the object's nodes whose feature is in the mask.
pub open spec fn visible_nodes(
    slots: Seq<VisibilitySlot>,
    mask: RenderFeatureMask,
    visible: Seq<VisibilityHandle>,
) -> Seq<RenderNodeHandle>
    decreases visible.len(),
{
    if visible.len() == 0 {
        Seq::empty()
    } else if is_live(slots, visible.last()) {
        visible_nodes(slots, mask, visible.drop_last()) + masked_nodes(
            object_of(slots, visible.last()).nodes@,
            mask,
        )
    } else {
        visible_nodes(slots, mask, visible.drop_last())
    }
}

/// `after` is the entry `before` with what its view takes from the objects
/// under `visible`, behind the nodes it holds already.
pub open spec fn is_extended_entry(
    before: ViewPacket,
    after: ViewPacket,
    slots: Seq<VisibilitySlot>,
    visible: Seq<VisibilityHandle>,
) -> bool {
    &&& after.view == before.view
    &&& after.nodes@ == before.nodes@ + visible_nodes(slots, before.view.feature_mask, visible)
}

/// `entry` is the entry of a view that is queried for the first time: the
/// view, and what it takes from the objects under `visible`.
pub open spec fn is_first_entry(
    entry: ViewPacket,
    view: RenderView,
    slots: Seq<VisibilitySlot>,
    visible: Seq<VisibilityHandle>,
) -> bool {
    &&& entry.view == view
    &&& entry.nodes@ == visible_nodes(slots, view.feature_mask, visible)
}

/// Each view has one entry, and an entry holds only nodes of features that
/// are in its view's feature mask.
pub open spec fn views_well_formed(views: Seq<ViewPacket>) -> bool {
    &&& forall|i: int, j: int| 0 <= i < j < views.len() ==> views[i].view.index
        != views[j].view.index
    &&& forall|at: int, k: int|
        0 <= at < views.len() && 0 <= k < views[at].nodes@.len()
            ==> views[at].view.feature_mask.includes(
            (#[trigger] views[at].nodes@[k]).feature,
        )
}

/// Every node of `masked_nodes` is a node of a feature in the mask.
proof fn lemma_masked_nodes_are_masked(nodes: Seq<RenderNodeHandle>, mask: RenderFeatureMask)
    ensures
        forall|k: int|
            0 <= k < masked_nodes(nodes, mask).len() ==> mask.includes(
                (#[trigger] masked_nodes(nodes, mask)[k]).feature,
            ),
    decreases nodes.len(),
{
    if nodes.len() > 0 {
        lemma_masked_nodes_are_masked(nodes.drop_last(), mask);
        let rest = masked_nodes(nodes.drop_last(), mask);
        assert forall|k: int| 0 <= k < masked_nodes(nodes, mask).len() implies mask.includes(
            (#[trigger] masked_nodes(nodes, mask)[k]).feature,
        ) by {
            if k < rest.len() {
                assert(masked_nodes(nodes, mask)[k] == rest[k]);
            }
        }
    }
}

/// Every node that a view takes is a node of a feature in the view's mask.
pub proof fn law_visible_nodes_are_masked(
    slots: Seq<VisibilitySlot>,
    mask: RenderFeatureMask,
    visible: Seq<VisibilityHandle>,
)
    ensures
        forall|k: int|
            0 <= k < visible_nodes(slots, mask, visible).len() ==> mask.includes(
                (#[trigger] visible_nodes(slots, mask, visible)[k]).feature,
            ),
    decreases visible.len(),
{
    if visible.len() > 0 {
        law_visible_nodes_are_masked(slots, mask, visible.drop_last());
        let rest = visible_nodes(slots, mask, visible.drop_last());
        if is_live(slots, visible.last()) {
            let own = masked_nodes(object_of(slots, visible.last()).nodes@, mask);
            lemma_masked_nodes_are_masked(object_of(slots, visible.last()).nodes@, mask);
            assert forall|k: int|
                0 <= k < visible_nodes(slots, mask, visible).len() implies mask.includes(
                (#[trigger] visible_nodes(slots, mask, visible)[k]).feature,
            ) by {
                if k < rest.len() {
                    assert(visible_nodes(slots, mask, visible)[k] == rest[k]);
                } else {
                    assert(visible_nodes(slots, mask, visible)[k] == own[k - rest.len()]);
                }
            }
        }
    }
}

/// Every node of `masked_nodes` is one of the nodes it was taken from.
proof fn lemma_masked_nodes_are_taken(nodes: Seq<RenderNodeHandle>, mask: RenderFeatureMask, k: int)
    requires
        0 <= k < masked_nodes(nodes, mask).len(),
    ensures
        exists|j: int| 0 <= j < nodes.len() && #[trigger] nodes[j] == masked_nodes(nodes, mask)[k],
    decreases nodes.len(),
{
    let rest = masked_nodes(nodes.drop_last(), mask);
    if k < rest.len() {
        lemma_masked_nodes_are_taken(nodes.drop_last(), mask, k);
        let j = choose|j: int|
            0 <= j < nodes.drop_last().len() && #[trigger] nodes.drop_last()[j] == rest[k];
        assert(nodes[j] == masked_nodes(nodes, mask)[k]);
    } else {
        assert(nodes[nodes.len() - 1] == masked_nodes(nodes, mask)[k]);
    }
}

/// Every node that a view takes is a node of a registered object whose
/// handle is among the visible ones: nothing enters a packet but what the
/// view sees.
pub proof fn law_visible_nodes_come_from_visible_objects(
    slots: Seq<VisibilitySlot>,
    mask: RenderFeatureMask,
    visible: Seq<VisibilityHandle>,
    k: int,
)
    requires
        0 <= k < visible_nodes(slots, mask, visible).len(),
    ensures
        exists|i: int, j: int|
            0 <= i < visible.len() && is_live(slots, visible[i]) && 0 <= j < object_of(
                slots,
                visible[i],
            ).nodes@.len() && #[trigger] object_of(slots, visible[i]).nodes@[j] == visible_nodes(
                slots,
                mask,
                visible,
            )[k],
    decreases visible.len(),
{
    let front = visible.drop_last();
    let rest = visible_nodes(slots, mask, front);
    if k < rest.len() {
        law_visible_nodes_come_from_visible_objects(slots, mask, front, k);
        let (i, j) = choose|i: int, j: int|
            0 <= i < front.len() && is_live(slots, front[i]) && 0 <= j < object_of(
                slots,
                front[i],
            ).nodes@.len() && #[trigger] object_of(slots, front[i]).nodes@[j] == rest[k];
        assert(front[i] == visible[i]);
        assert(object_of(slots, visible[i]).nodes@[j] == visible_nodes(slots, mask, visible)[k]);
    } else {
        let last = visible.len() - 1;
        let own = object_of(slots, visible[last]).nodes@;
        lemma_masked_nodes_are_taken(own, mask, k - rest.len());
        let j = choose|j: int|
            0 <= j < own.len() && #[trigger] own[j] == masked_nodes(own, mask)[k - rest.len()];
        assert(object_of(slots, visible[last]).nodes@[j] == visible_nodes(slots, mask, visible)[k]);
    }
}

/// A view takes no node from handles that name no registered object: with
/// nothing visible, or with every handle released, it takes none at all.
pub proof fn law_nothing_visible_gives_no_nodes(
    slots: Seq<VisibilitySlot>,
    mask: RenderFeatureMask,
    visible: Seq<VisibilityHandle>,
)
    requires
        forall|i: int| 0 <= i < visible.len() ==> !is_live(slots, #[trigger] visible[i]),
    ensures
        visible_nodes(slots, mask, visible).len() == 0,
    decreases visible.len(),
{
    if visible.len() > 0 {
        assert(!is_live(slots, visible[visible.len() - 1]));
        assert forall|i: int| 0 <= i < visible.drop_last().len() implies !is_live(
            slots,
            #[trigger] visible.drop_last()[i],
        ) by {
            assert(visible.drop_last()[i] == visible[i]);
        }
        law_nothing_visible_gives_no_nodes(slots, mask, visible.drop_last());
    }
}

/// Finds the entry of the view with index `index`.
fn find_view(views: &Vec<ViewPacket>, index: RenderViewIndex) -> (found: Option<usize>)
    ensures
        match found {
            Some(at) => view_at(views@, index, at as int),
            None => !has_view(views@, index),
        },
{
    let mut i: usize = 0;
    while i < views.len()
        invariant
            i <= views.len(),
            forall|at: int| 0 <= at < i ==> !view_at(views@, index, at),
        decreases views.len() - i,
    {
        if views[i].view.index == index {
            return Some(i);
        }
        i += 1;
    }
    None
}

/// Appends to `out` the nodes of `nodes` whose feature is in `mask`.
fn append_masked(
    out: &mut Vec<RenderNodeHandle>,
    nodes: &Vec<RenderNodeHandle>,
    mask: &RenderFeatureMask,
)
    ensures
        final(out)@ == old(out)@ + masked_nodes(nodes@, *mask),
{
    let mut k: usize = 0;
    assert(nodes@.take(0) =~= Seq::<RenderNodeHandle>::empty());
    while k < nodes.len()
        invariant
            k <= nodes.len(),
            out@ == old(out)@ + masked_nodes(nodes@.take(k as int), *mask),
        decreases nodes.len() - k,
    {
        proof {
            let upto = nodes@.take(k + 1);
            assert(upto.drop_last() =~= nodes@.take(k as int));
            assert(upto.last() == nodes@[k as int]);
        }
        let node = nodes[k];
        if mask.is_included_index(node.feature) {
            out.push(node);
        }
        k += 1;
    }
    assert(nodes@.take(nodes.len() as int) =~= nodes@);
}

/// Collects the nodes that a view with feature mask `mask` takes from the
/// objects under `visible`.
fn collect_visible(
    slots: &Vec<VisibilitySlot>,
    mask: &RenderFeatureMask,
    visible: &Vec<VisibilityHandle>,
) -> (nodes: Vec<RenderNodeHandle>)
    ensures
        nodes@ == visible_nodes(slots@, *mask, visible@),
{
    let mut nodes: Vec<RenderNodeHandle> = Vec::new();
    let mut i: usize = 0;
    assert(visible@.take(0) =~= Seq::<VisibilityHandle>::empty());
    while i < visible.len()
        invariant
            i <= visible.len(),
            nodes@ == visible_nodes(slots@, *mask, visible@.take(i as int)),
        decreases visible.len() - i,
    {
        proof {
            let upto = visible@.take(i + 1);
            assert(upto.drop_last() =~= visible@.take(i as int));
            assert(upto.last() == visible@[i as int]);
        }
        let handle = visible[i];
        let index: usize = handle.index;
        if index < slots.len() && slots[index].generation == handle.generation {
            match &slots[index].object {
                Some(object) => {
                    append_masked(&mut nodes, &object.nodes, mask);
                },
                None => {},
            }
        }
        i += 1;
    }
    assert(visible@.take(visible.len() as int) =~= visible@);
    nodes
}

/// Assembles the frame packet of the frame whose visibility is being
/// queried. One builder serves one frame and has one writer.
pub struct FramePacketBuilder {
    views: Vec<ViewPacket>,
}

impl FramePacketBuilder {
    /// The entries assembled so far, in the order in which their views were
    /// first queried.
    pub closed spec fn views(&self) -> Seq<ViewPacket> {
        self.views@
    }

    /// Every builder that [`Self::new`] and the methods below hand out is
    /// well formed.
    pub open spec fn well_formed(&self) -> bool {
        views_well_formed(self.views())
    }

    /// A builder without entries.
    pub fn new() -> (builder: Self)
        ensures
            builder.well_formed(),
            builder.views().len() == 0,
    {
        FramePacketBuilder { views: Vec::new() }
    }

    /// Adds what `view` sees to the view's entry.
    ///
    /// `visible` holds the handles of the objects that the host found inside
    /// the view's frustum. For each of them that names an object registered
    /// in `region`, in order, the object's render nodes of the features in
    /// the view's feature mask are appended to the entry. A view that is
    /// queried for the first time gets a new entry, behind the others; for a
    /// view that has an entry, the entry's own view decides on the mask.
    pub fn query_visibility_and_add_results(
        &mut self,
        view: &RenderView,
        region: &VisibilityRegion,
        visible: &Vec<VisibilityHandle>,
    )
        requires
            old(self).well_formed(),
        ensures
            final(self).well_formed(),
            forall|at: int|
                view_at(old(self).views(), view.index, at) ==> {
                    &&& same_but_at(old(self).views(), final(self).views(), at)
                    &&& is_extended_entry(
                        old(self).views()[at],
                        final(self).views()[at],
                        region.slots(),
                        visible@,
                    )
                },
            !has_view(old(self).views(), view.index) ==> {
                &&& final(self).views().len() == old(self).views().len() + 1
                &&& final(self).views().drop_last() == old(self).views()
                &&& is_first_entry(final(self).views().last(), *view, region.slots(), visible@)
            },
    {
        let slots = region.slot_list();
        match find_view(&self.views, view.index) {
            Some(at) => {
                let entry = &self.views[at];
                let kept = entry.view.duplicate();
                let mut nodes = entry.nodes.clone();
                let added = collect_visible(slots, &kept.feature_mask, visible);
                proof {
                    law_visible_nodes_are_masked(region.slots(), kept.feature_mask, visible@);
                }
                let ghost before = nodes@;
                let mut k: usize = 0;
                while k < added.len()
                    invariant
                        k <= added.len(),
                        nodes@ == before + added@.take(k as int),
                    decreases added.len() - k,
                {
                    nodes.push(added[k]);
                    assert(added@.take(k + 1) =~= added@.take(k as int).push(added@[k as int]));
                    k += 1;
                }
                assert(added@.take(added.len() as int) =~= added@);
                self.views.set(at, ViewPacket { view: kept, nodes });
                proof {
                    assert forall|other: int|
                        view_at(old(self).views(), view.index, other) implies other == at by {
                        if other < at {
                            assert(old(self).views()[other].view.index
                                != old(self).views()[at as int].view.index);
                        } else if at < other {
                            assert(old(self).views()[at as int].view.index
                                != old(self).views()[other].view.index);
                        }
                    }
                    assert(view_at(old(self).views(), view.index, at as int));
                    assert forall|i: int, j: int| 0 <= i < j
                        < self.views@.len() implies self.views@[i].view.index
                        != self.views@[j].view.index by {
                        assert(self.views@[i].view.index == old(self).views@[i].view.index);
                        assert(self.views@[j].view.index == old(self).views@[j].view.index);
                    }
                    assert forall|entry: int, k: int|
                        0 <= entry < self.views@.len() && 0 <= k
                            < self.views@[entry].nodes@.len() implies self.views@[entry].view.feature_mask.includes(
                        (#[trigger] self.views@[entry].nodes@[k]).feature,
                    ) by {
                        if entry == at {
                            if k < before.len() {
                                assert(self.views@[entry].nodes@[k]
                                    == old(self).views()[entry].nodes@[k]);
                                assert(old(self).views()[entry].view.feature_mask.includes(
                                    old(self).views()[entry].nodes@[k].feature,
                                ));
                            } else {
                                let taken = visible_nodes(
                                    region.slots(),
                                    kept.feature_mask,
                                    visible@,
                                );
                                assert(self.views@[entry].nodes@[k] == taken[k - before.len()]);
                                assert(kept.feature_mask.includes(taken[k - before.len()].feature));
                            }
                        } else {
                            assert(self.views@[entry] == old(self).views()[entry]);
                            assert(old(self).views()[entry].view.feature_mask.includes(
                                old(self).views()[entry].nodes@[k].feature,
                            ));
                        }
                    }
                }
            },
            None => {
                let nodes = collect_visible(slots, &view.feature_mask, visible);
                proof {
                    law_visible_nodes_are_masked(region.slots(), view.feature_mask, visible@);
                }
                self.views.push(ViewPacket { view: view.duplicate(), nodes });
                proof {
                    let count = old(self).views@.len() as int;
                    assert(self.views@.drop_last() =~= old(self).views@);
                    assert forall|i: int, j: int| 0 <= i < j
                        < self.views@.len() implies self.views@[i].view.index
                        != self.views@[j].view.index by {
                        if j == count {
                            assert(!view_at(old(self).views@, view.index, i));
                        }
                    }
                    assert forall|entry: int, k: int|
                        0 <= entry < self.views@.len() && 0 <= k
                            < self.views@[entry].nodes@.len() implies self.views@[entry].view.feature_mask.includes(
                        (#[trigger] self.views@[entry].nodes@[k]).feature,
                    ) by {
                        if entry < count {
                            assert(self.views@[entry] == old(self).views()[entry]);
                            assert(old(self).views()[entry].view.feature_mask.includes(
                                old(self).views()[entry].nodes@[k].feature,
                            ));
                        } else {
                            let taken = visible_nodes(region.slots(), view.feature_mask, visible@);
                            assert(self.views@[entry].nodes@ == taken);
                            assert(view.feature_mask.includes(taken[k].feature));
                        }
                    }
                }
            },
        }
    }

    /// Finishes the packet. The builder is used up.
    pub fn build(self) -> (packet: FramePacket)
        requires
            self.well_formed(),
        ensures
            packet.well_formed(),
            packet.views() == self.views(),
    {
        FramePacket { views: self.views }
    }
}

/// The finished record of which render nodes each view of a frame sees.
pub struct FramePacket {
    views: Vec<ViewPacket>,
}

impl FramePacket {
    /// The entries of the packet, in the order in which their views were
    /// first queried.
    pub closed spec fn views(&self) -> Seq<ViewPacket> {
        self.views@
    }

    /// Every packet that a builder finishes is well formed.
    pub open spec fn well_formed(&self) -> bool {
        views_well_formed(self.views())
    }

    /// Number of views that the packet has an entry for.
    pub fn view_count(&self) -> (count: usize)
        ensures
            count == self.views().len(),
    {
        self.views.len()
    }

    /// The entries of the packet.
    pub fn view_packets(&self) -> (views: &Vec<ViewPacket>)
        ensures
            views@ == self.views(),
    {
        &self.views
    }

    /// The render nodes that the view with index `view` sees; `None` for a
    /// view that was not queried.
    pub fn render_nodes(&self, view: RenderViewIndex) -> (nodes: Option<&Vec<RenderNodeHandle>>)
        ensures
            match nodes {
                Some(nodes) => exists|at: int|
                    view_at(self.views(), view, at) && nodes@
                        == (#[trigger] self.views()[at]).nodes@,
                None => !has_view(self.views(), view),
            },
    {
        match find_view(&self.views, view) {
            Some(at) => {
                assert(view_at(self.views(), view, at as int) && self.views()[at as int].nodes@
                    == self.views@[at as int].nodes@);
                Some(&self.views[at].nodes)
            },
            None => None,
        }
    }

    /// Number of render nodes that the view with index `view` sees; zero for
    /// a view that was not queried.
    pub fn render_node_count(&self, view: RenderViewIndex) -> (count: usize)
        ensures
            has_view(self.views(), view) ==> exists|at: int|
                view_at(self.views(), view, at) && count
                    == (#[trigger] self.views()[at]).nodes@.len(),
            !has_view(self.views(), view) ==> count == 0,
    {
        match find_view(&self.views, view) {
            Some(at) => self.views[at].nodes.len(),
            None => 0,
        }
    }

    /// The render nodes of feature `feature` that the view with index `view`
    /// sees, in order; none for a view that was not queried.
    pub fn render_nodes_of_feature(
        &self,
        view: RenderViewIndex,
        feature: RenderFeatureIndex,
    ) -> (nodes: Vec<RenderNodeHandle>)
        ensures
            has_view(self.views(), view) ==> exists|at: int|
                view_at(self.views(), view, at) && nodes@ == nodes_of_feature(
                    (#[trigger] self.views()[at]).nodes@,
                    feature,
                ),
            !has_view(self.views(), view) ==> nodes@.len() == 0,
    {
        let mut nodes: Vec<RenderNodeHandle> = Vec::new();
        match find_view(&self.views, view) {
            Some(at) => {
                let all = &self.views[at].nodes;
                let mut k: usize = 0;
                assert(all@.take(0) =~= Seq::<RenderNodeHandle>::empty());
                while k < all.len()
                    invariant
                        k <= all.len(),
                        nodes@ == nodes_of_feature(all@.take(k as int), feature),
                    decreases all.len() - k,
                {
                    proof {
                        let upto = all@.take(k + 1);
                        assert(upto.drop_last() =~= all@.take(k as int));
                        assert(upto.last() == all@[k as int]);
                    }
                    if all[k].feature == feature {
                        nodes.push(all[k]);
                    }
                    k += 1;
                }
                assert(all@.take(all.len() as int) =~= all@);
            },
            None => {},
        }
        nodes
    }
}

/// The nodes of `nodes` that belong to feature `feature`, in order.
pub open spec fn nodes_of_feature(nodes: Seq<RenderNodeHandle>, feature: RenderFeatureIndex) -> Seq<
    RenderNodeHandle,
>
    decreases nodes.len(),
{
    if nodes.len() == 0 {
        Seq::empty()
    } else if nodes.last().feature == feature {
        nodes_of_feature(nodes.drop_last(), feature).push(nodes.last())
    } else {
        nodes_of_feature(nodes.drop_last(), feature)
    }
}

/// Turns the frame over: finishes the packet of the frame that was queried
/// and installs an empty builder and an empty view set for the next one.
///
/// Afterwards `packet` holds what `builder` had assembled, `builder` has no
/// entries and `views` has created no view. The packet is not touched by
/// the queries of the next frame, which go to the new builder. The packet
/// that was stored before is handed back: its views are over, and
/// [`release_frame_packet`] releases their frustums.
pub fn build_frame_packet(
    packet: &mut Option<FramePacket>,
    builder: &mut FramePacketBuilder,
    views: &mut RenderViewSet,
) -> (replaced: Option<FramePacket>)
    requires
        old(builder).well_formed(),
    ensures
        final(builder).well_formed(),
        final(builder).views().len() == 0,
        final(views).view_count() == 0,
        *final(packet) is Some,
        (*final(packet))->0.well_formed(),
        (*final(packet))->0.views() == old(builder).views(),
        replaced == *old(packet),
{
    // Swap in the new builder for the next frame.
    let mut finished = FramePacketBuilder::new();
    std::mem::swap(builder, &mut finished);

    // Build the frame packet and put it into its slot.
    let mut stored = Some(finished.build());
    std::mem::swap(packet, &mut stored);

    // Make the view set of the next frame; the views of this one are over.
    *views = RenderViewSet::new();
    stored
}

/// One of the first `upto` entries of `views` holds a view that looks
/// through the frustum under `handle`.
pub open spec fn names_frustum(
    views: Seq<ViewPacket>,
    upto: int,
    handle: ViewFrustumHandle,
) -> bool {
    exists|at: int|
        0 <= at < upto && at < views.len() && (#[trigger] views[at]).view.frustum == handle
}

/// The handle under which slot `at` of `slots` holds its frustum.
pub open spec fn frustum_handle_at(slots: Seq<FrustumSlot>, at: int) -> ViewFrustumHandle {
    ViewFrustumHandle { index: at as usize, generation: slots[at].generation }
}

/// `after` is `before` without the frustums that the first `upto` entries
/// of `views` name: each slot that held one of them is empty and has moved
/// on to its next generation, and every other slot is as it was.
pub open spec fn frustums_released_in(
    before: Seq<FrustumSlot>,
    after: Seq<FrustumSlot>,
    views: Seq<ViewPacket>,
    upto: int,
) -> bool {
    &&& after.len() == before.len()
    &&& forall|at: int|
        0 <= at < before.len() ==> #[trigger] after[at] == if before[at].frustum is Some
            && names_frustum(views, upto, frustum_handle_at(before, at)) {
            FrustumSlot { generation: (before[at].generation + 1) as u32, frustum: None }
        } else {
            before[at]
        }
}

/// Releases the frustums of the views of a packet that was replaced. A
/// frustum lives as long as the packet that holds its view, and no longer.
/// The objects of the region are not touched.
pub fn release_frame_packet(region: &mut VisibilityRegion, packet: FramePacket)
    requires
        old(region).well_formed(),
    ensures
        final(region).well_formed(),
        final(region).slots() == old(region).slots(),
        frustums_released_in(
            old(region).frustum_slots(),
            final(region).frustum_slots(),
            packet.views(),
            packet.views().len() as int,
        ),
{
    let mut i: usize = 0;
    while i < packet.views.len()
        invariant
            i <= packet.views.len(),
            region.well_formed(),
            region.slots() == old(region).slots(),
            frustums_released_in(
                old(region).frustum_slots(),
                region.frustum_slots(),
                packet.views(),
                i as int,
            ),
        decreases packet.views.len() - i,
    {
        let ghost before = region.frustum_slots();
        let frustum = packet.views[i].view.frustum;
        region.release_view_frustum(frustum);
        proof {
            let start = old(region).frustum_slots();
            let after = region.frustum_slots();
            let views = packet.views();
            assert(views[i as int].view.frustum == frustum);
            assert forall|at: int| 0 <= at < start.len() implies #[trigger] after[at]
                == if start[at].frustum is Some && names_frustum(
                views,
                i + 1,
                frustum_handle_at(start, at),
            ) {
                FrustumSlot { generation: (start[at].generation + 1) as u32, frustum: None }
            } else {
                start[at]
            } by {
                let handle = frustum_handle_at(start, at);
                assert(before[at] == if start[at].frustum is Some && names_frustum(
                    views,
                    i as int,
                    handle,
                ) {
                    FrustumSlot { generation: (start[at].generation + 1) as u32, frustum: None }
                } else {
                    start[at]
                });
                assert(handle.index == at);
                if names_frustum(views, i as int, handle) {
                    let found = choose|found: int|
                        0 <= found < i && found < views.len() && (#[trigger] views[found]).view
                            .frustum == handle;
                    assert(names_frustum(views, i + 1, handle));
                } else if names_frustum(views, i + 1, handle) {
                    let found = choose|found: int|
                        0 <= found < i + 1 && found < views.len() && (
                        #[trigger] views[found]).view.frustum == handle;
                    assert(found == i);
                } else {
                    assert(handle != frustum);
                }
            }
        }
        i += 1;
    }
}

/// Once the frustums of a packet are released, no view of the packet names
/// a frustum any more, and every other frustum is under its handle as it
/// was.
pub proof fn law_released_packet_frustums_are_gone(
    before: Seq<FrustumSlot>,
    after: Seq<FrustumSlot>,
    views: Seq<ViewPacket>,
    handle: ViewFrustumHandle,
)
    requires
        frustum_slots_well_formed(before),
        frustums_released_in(before, after, views, views.len() as int),
    ensures
        is_live_frustum(after, handle) <==> is_live_frustum(before, handle) && !names_frustum(
            views,
            views.len() as int,
            handle,
        ),
        is_live_frustum(after, handle) ==> frustum_of(after, handle) == frustum_of(before, handle),
{
    if handle.index < before.len() {
        let at = handle.index as int;
        assert(after[at] == if before[at].frustum is Some && names_frustum(
            views,
            views.len() as int,
            frustum_handle_at(before, at),
        ) {
            FrustumSlot { generation: (before[at].generation + 1) as u32, frustum: None }
        } else {
            before[at]
        });
        if is_live_frustum(before, handle) {
            assert(frustum_handle_at(before, at) == handle);
        }
    }
}

/// A view that sees one object, which carries one render node of a feature
/// that the view draws, takes exactly that node: the entry of the view holds
/// one node, tagged with the feature that registered the object.
pub proof fn law_one_visible_node_is_taken(
    slots: Seq<VisibilitySlot>,
    mask: RenderFeatureMask,
    handle: VisibilityHandle,
    node: RenderNodeHandle,
)
    requires
        is_live(slots, handle),
        object_of(slots, handle).nodes@ == seq![node],
        mask.includes(node.feature),
    ensures
        visible_nodes(slots, mask, seq![handle]) == seq![node],
{
    let visible = seq![handle];
    let nodes = seq![node];
    assert(visible.drop_last() =~= Seq::<VisibilityHandle>::empty());
    assert(nodes.drop_last() =~= Seq::<RenderNodeHandle>::empty());
    assert(masked_nodes(nodes.drop_last(), mask) =~= Seq::<RenderNodeHandle>::empty());
    assert(masked_nodes(nodes, mask) =~= nodes);
    assert(visible_nodes(slots, mask, visible.drop_last()) =~= Seq::<RenderNodeHandle>::empty());
    assert(visible_nodes(slots, mask, visible) =~= nodes);
}

/// A packet finished from a builder without entries has no entry, and so no
/// render node, for any view: [`FramePacket::render_nodes`] gives `None` and
/// [`FramePacket::render_node_count`] gives zero, whatever view is asked for.
pub proof fn law_empty_builder_gives_empty_packet(
    builder: FramePacketBuilder,
    packet: FramePacket,
    view: RenderViewIndex,
)
    requires
        builder.views().len() == 0,
        packet.views() == builder.views(),
    ensures
        !has_view(packet.views(), view),
{
}

} // verus!
