//! The cache of graphics pipelines.
//!
//! A pipeline is made for a render phase, a material pass, the format of a
//! render target and a vertex layout. Making one is costly, so each is made once: asking
//! again with the same key gives the pipeline that was made the first time.

use vstd::prelude::*;
use crate::graph::ImageFormat;
use crate::mask::RenderPhaseIndex;

verus! {

/// What a pipeline is made for. The material pass and the vertex layout
/// are named by the keys under which the host holds them.
#[derive(Clone, Copy, Debug, PartialEq, Eq, Hash, Structural)]
pub struct PipelineKey {
    pub render_phase: RenderPhaseIndex,
    pub material_pass: u64,
    pub target_format: ImageFormat,
    pub vertex_layout: u64,
}

/// Handle of a pipeline of the cache.
#[derive(Clone, Copy, Debug, PartialEq, Eq, Hash, Structural)]
pub struct PipelineHandle {
    pub index: usize,
}

/// The answer of the cache to a request.
#[derive(Clone, Copy, Debug, PartialEq, Eq, Structural)]
pub enum PipelineLookup {
    /// The pipeline was made before: nothing is compiled.
    Cached(PipelineHandle),
    /// The pipeline is new: the host compiles it and keeps it under the
    /// handle.
    Created(PipelineHandle),
}

/// Pipeline `at` of `keys` was made for `key`.
pub open spec fn key_at(keys: Seq<PipelineKey>, key: PipelineKey, at: int) -> bool {
    0 <= at < keys.len() && keys[at] == key
}

/// A pipeline was made for `key`.
pub open spec fn has_key(keys: Seq<PipelineKey>, key: PipelineKey) -> bool {
    exists|at: int| key_at(keys, key, at)
}

/// No two pipelines were made for the same key.
pub open spec fn keys_distinct(keys: Seq<PipelineKey>) -> bool {
    forall|i: int, j: int| 0 <= i < j < keys.len() ==> keys[i] != keys[j]
}

/// `lookup` is the cache's answer to a request for `key`, which takes the
/// cache from `before` to `after`.
pub open spec fn is_lookup(
    before: Seq<PipelineKey>,
    key: PipelineKey,
    after: Seq<PipelineKey>,
    lookup: PipelineLookup,
) -> bool {
    match lookup {
        PipelineLookup::Cached(handle) => key_at(before, key, handle.index as int) && after
            == before,
        PipelineLookup::Created(handle) => !has_key(before, key) && handle.index == before.len()
            && after == before.push(key),
    }
}

/// The graphics pipelines made so far.
pub struct GraphicsPipelineCache {
    keys: Vec<PipelineKey>,
}

impl GraphicsPipelineCache {
    /// The keys of the pipelines made so far; a pipeline's handle is its
    /// position.
    pub closed spec fn keys(&self) -> Seq<PipelineKey> {
        self.keys@
    }

    /// Every cache that [`Self::new`] and the method below hand out is well
    /// formed.
    pub open spec fn well_formed(&self) -> bool {
        keys_distinct(self.keys())
    }

    /// A cache without pipelines.
    pub fn new() -> (cache: Self)
        ensures
            cache.well_formed(),
            cache.keys().len() == 0,
    {
        GraphicsPipelineCache { keys: Vec::new() }
    }

    /// Number of pipelines made so far.
    pub fn len(&self) -> (count: usize)
        ensures
            count == self.keys().len(),
    {
        self.keys.len()
    }

    /// The pipeline for `key`: the one made before where there is one, and
    /// a new one else.
    pub fn get_or_create_graphics_pipeline(&mut self, key: PipelineKey) -> (lookup: PipelineLookup)
        requires
            old(self).well_formed(),
        ensures
            final(self).well_formed(),
            is_lookup(old(self).keys(), key, final(self).keys(), lookup),
    {
        let mut i: usize = 0;
        while i < self.keys.len()
            invariant
                i <= self.keys.len(),
                self.keys@ == old(self).keys@,
                keys_distinct(self.keys@),
                forall|at: int| 0 <= at < i ==> !key_at(self.keys@, key, at),
            decreases self.keys.len() - i,
        {
            if self.keys[i] == key {
                return PipelineLookup::Cached(PipelineHandle { index: i });
            }
            i += 1;
        }
        self.keys.push(key);
        proof {
            assert forall|a: int, b: int| 0 <= a < b < self.keys@.len() implies self.keys@[a]
                != self.keys@[b] by {
                if b == i {
                    assert(!key_at(old(self).keys@, key, a));
                }
            }
        }
        PipelineLookup::Created(PipelineHandle { index: i })
    }
}

/// Pipelines are made once: whatever the cache answered to a request, it
/// answers the same request, made again, with the same pipeline from the
/// cache, and makes nothing.
pub proof fn law_repeated_request_is_cached(
    before: Seq<PipelineKey>,
    key: PipelineKey,
    between: Seq<PipelineKey>,
    first: PipelineLookup,
    after: Seq<PipelineKey>,
    second: PipelineLookup,
)
    requires
        keys_distinct(before),
        is_lookup(before, key, between, first),
        is_lookup(between, key, after, second),
    ensures
        after == between,
        second == PipelineLookup::Cached(
            match first {
                PipelineLookup::Cached(handle) => handle,
                PipelineLookup::Created(handle) => handle,
            },
        ),
{
    let handle = match first {
        PipelineLookup::Cached(handle) => handle,
        PipelineLookup::Created(handle) => handle,
    };
    assert(key_at(between, key, handle.index as int));
    assert forall|i: int, j: int| 0 <= i < j < between.len() implies between[i] != between[j] by {
        if first is Created && j == before.len() {
            assert(!key_at(before, key, i));
        }
    }
    match second {
        PipelineLookup::Cached(again) => {
            if again.index < handle.index {
                assert(between[again.index as int] != between[handle.index as int]);
            } else if handle.index < again.index {
                assert(between[handle.index as int] != between[again.index as int]);
            }
        },
        PipelineLookup::Created(again) => {},
    }
}

} // verus!
