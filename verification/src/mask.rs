//! Bitsets over registered render phase and render feature indices.
//!
//! A view carries one mask of each kind; a phase or feature takes part in a
//! view exactly when its index is included in the view's mask.

use vstd::prelude::*;

verus! {

/// Index of a registered render phase.
pub type RenderPhaseIndex = u32;

/// Index of a registered render feature.
pub type RenderFeatureIndex = u32;

/// Number of render phases a phase mask has room for.
pub const MAX_RENDER_PHASE_COUNT: u32 = 32;

/// Number of render features a feature mask has room for.
pub const MAX_RENDER_FEATURE_COUNT: u32 = 64;

/// Whether bit `index` is set in a 32-bit word.
pub open spec fn bit32(bits: u32, index: u32) -> bool {
    index < 32 && bits & (1u32 << index) != 0
}

/// Whether bit `index` is set in a 64-bit word.
pub open spec fn bit64(bits: u64, index: u32) -> bool {
    index < 64 && bits & (1u64 << (index as u64)) != 0
}

proof fn lemma_set_bit32(bits: u32, index: u32, other: u32)
    requires
        index < 32,
    ensures
        bit32((bits | (1u32 << index)) as u32, other) <==> (other == index || bit32(bits, other)),
        !bit32(0u32, other),
{
    if other < 32 {
        assert((bits | (1u32 << index)) & (1u32 << other) != 0 <==> (other == index || bits & (1u32
            << other) != 0)) by (bit_vector)
            requires
                index < 32,
                other < 32,
        ;
        assert(0u32 & (1u32 << other) == 0) by (bit_vector);
    }
}

proof fn lemma_set_bit64(bits: u64, index: u32, other: u32)
    requires
        index < 64,
    ensures
        bit64((bits | (1u64 << (index as u64))) as u64, other) <==> (other == index || bit64(
            bits,
            other,
        )),
        !bit64(0u64, other),
{
    if other < 64 {
        let i: u64 = index as u64;
        let o: u64 = other as u64;
        assert((bits | (1u64 << i)) & (1u64 << o) != 0 <==> (o == i || bits & (1u64 << o) != 0))
            by (bit_vector)
            requires
                i < 64,
                o < 64,
        ;
        assert(0u64 & (1u64 << o) == 0) by (bit_vector);
    }
}

/// The set of render phases a view takes part in.
#[derive(Clone, Copy, Debug)]
pub struct RenderPhaseMask {
    bits: u32,
}

impl RenderPhaseMask {
    /// Whether the phase with this index is in the mask. Indices at or beyond
    /// `MAX_RENDER_PHASE_COUNT` are never included.
    pub closed spec fn includes(self, index: RenderPhaseIndex) -> bool {
        bit32(self.bits, index)
    }

    /// The mask that includes no phase.
    pub fn empty() -> (mask: Self)
        ensures
            forall|index: RenderPhaseIndex| !mask.includes(index),
    {
        proof {
            assert forall|index: u32| !bit32(0u32, index) by {
                lemma_set_bit32(0u32, 0u32, index);
            }
        }
        RenderPhaseMask { bits: 0 }
    }

    /// Tests one phase index against the mask.
    pub fn is_included_index(&self, index: RenderPhaseIndex) -> (included: bool)
        ensures
            included == self.includes(index),
    {
        if index < MAX_RENDER_PHASE_COUNT {
            (self.bits & (1u32 << index)) != 0
        } else {
            false
        }
    }
}

/// Accumulates phase indices into a [`RenderPhaseMask`].
pub struct RenderPhaseMaskBuilder {
    bits: u32,
}

impl RenderPhaseMaskBuilder {
    /// Whether the phase with this index has been added.
    pub closed spec fn includes(self, index: RenderPhaseIndex) -> bool {
        bit32(self.bits, index)
    }

    /// A builder to which no phase has been added.
    pub fn new() -> (builder: Self)
        ensures
            forall|index: RenderPhaseIndex| !builder.includes(index),
    {
        proof {
            assert forall|index: u32| !bit32(0u32, index) by {
                lemma_set_bit32(0u32, 0u32, index);
            }
        }
        RenderPhaseMaskBuilder { bits: 0 }
    }

    /// Adds one registered phase. A phase mask has no room for an index at or
    /// beyond `MAX_RENDER_PHASE_COUNT`; the registry never hands one out.
    pub fn add_render_phase(self, index: RenderPhaseIndex) -> (builder: Self)
        requires
            index < MAX_RENDER_PHASE_COUNT,
        ensures
            forall|other: RenderPhaseIndex|
                builder.includes(other) <==> (other == index || self.includes(other)),
    {
        let bits: u32 = self.bits | (1u32 << index);
        proof {
            assert forall|other: u32|
                bit32(bits, other) <==> (other == index || bit32(self.bits, other)) by {
                lemma_set_bit32(self.bits, index, other);
            }
        }
        RenderPhaseMaskBuilder { bits }
    }

    /// Finishes the mask.
    pub fn build(self) -> (mask: RenderPhaseMask)
        ensures
            forall|index: RenderPhaseIndex| mask.includes(index) == self.includes(index),
    {
        RenderPhaseMask { bits: self.bits }
    }
}

impl Default for RenderPhaseMaskBuilder {
    /// A builder to which no phase has been added.
    fn default() -> (builder: Self)
        ensures
            forall|index: RenderPhaseIndex| !builder.includes(index),
    {
        RenderPhaseMaskBuilder::new()
    }
}

/// The set of render features a view takes part in.
#[derive(Clone, Copy, Debug)]
pub struct RenderFeatureMask {
    bits: u64,
}

impl RenderFeatureMask {
    /// Whether the feature with this index is in the mask. Indices at or
    /// beyond `MAX_RENDER_FEATURE_COUNT` are never included.
    pub closed spec fn includes(self, index: RenderFeatureIndex) -> bool {
        bit64(self.bits, index)
    }

    /// The mask that includes no feature.
    pub fn empty() -> (mask: Self)
        ensures
            forall|index: RenderFeatureIndex| !mask.includes(index),
    {
        proof {
            assert forall|index: u32| !bit64(0u64, index) by {
                lemma_set_bit64(0u64, 0u32, index);
            }
        }
        RenderFeatureMask { bits: 0 }
    }

    /// Tests one feature index against the mask.
    pub fn is_included_index(&self, index: RenderFeatureIndex) -> (included: bool)
        ensures
            included == self.includes(index),
    {
        if index < MAX_RENDER_FEATURE_COUNT {
            (self.bits & (1u64 << (index as u64))) != 0
        } else {
            false
        }
    }
}

/// Accumulates feature indices into a [`RenderFeatureMask`].
pub struct RenderFeatureMaskBuilder {
    bits: u64,
}

impl RenderFeatureMaskBuilder {
    /// Whether the feature with this index has been added.
    pub closed spec fn includes(self, index: RenderFeatureIndex) -> bool {
        bit64(self.bits, index)
    }

    /// A builder to which no feature has been added.
    pub fn new() -> (builder: Self)
        ensures
            forall|index: RenderFeatureIndex| !builder.includes(index),
    {
        proof {
            assert forall|index: u32| !bit64(0u64, index) by {
                lemma_set_bit64(0u64, 0u32, index);
            }
        }
        RenderFeatureMaskBuilder { bits: 0 }
    }

    /// Adds one registered feature. A feature mask has no room for an index at
    /// or beyond `MAX_RENDER_FEATURE_COUNT`; the registry never hands one out.
    pub fn add_render_feature(self, index: RenderFeatureIndex) -> (builder: Self)
        requires
            index < MAX_RENDER_FEATURE_COUNT,
        ensures
            forall|other: RenderFeatureIndex|
                builder.includes(other) <==> (other == index || self.includes(other)),
    {
        let bits: u64 = self.bits | (1u64 << (index as u64));
        proof {
            assert forall|other: u32|
                bit64(bits, other) <==> (other == index || bit64(self.bits, other)) by {
                lemma_set_bit64(self.bits, index, other);
            }
        }
        RenderFeatureMaskBuilder { bits }
    }

    /// Finishes the mask.
    pub fn build(self) -> (mask: RenderFeatureMask)
        ensures
            forall|index: RenderFeatureIndex| mask.includes(index) == self.includes(index),
    {
        RenderFeatureMask { bits: self.bits }
    }
}

impl Default for RenderFeatureMaskBuilder {
    /// A builder to which no feature has been added.
    fn default() -> (builder: Self)
        ensures
            forall|index: RenderFeatureIndex| !builder.includes(index),
    {
        RenderFeatureMaskBuilder::new()
    }
}

} // verus!
