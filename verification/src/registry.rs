//! The render registry: the table of render phases and render features,
//! built once at startup and read-only afterwards.
//!
//! Registration hands out indices in the order of the calls, starting at
//! zero. A phase or a feature is known by its name; a name registers once.

use vstd::prelude::*;
use vstd::string::*;
use crate::mask::{
    RenderFeatureIndex, RenderPhaseIndex, MAX_RENDER_FEATURE_COUNT, MAX_RENDER_PHASE_COUNT,
};

verus! {

/// No two entries carry the same name.
pub open spec fn names_distinct(names: Seq<String>) -> bool {
    forall|i: int, j: int| 0 <= i < j < names.len() ==> names[i]@ != names[j]@
}

/// Entry `index` of `names` carries the name `name`.
pub open spec fn name_at(names: Seq<String>, name: Seq<char>, index: int) -> bool {
    0 <= index < names.len() && names[index]@ == name
}

/// Some entry of `names` carries the name `name`.
pub open spec fn is_registered(names: Seq<String>, name: Seq<char>) -> bool {
    exists|index: int| name_at(names, name, index)
}

/// Why a registration is refused.
#[derive(Clone, Copy, Debug, PartialEq, Eq, Structural)]
pub enum RegistryError {
    /// The phase is registered already, under `index`.
    DuplicatePhase { index: u32 },
    /// The feature is registered already, under `index`.
    DuplicateFeature { index: u32 },
    /// `MAX_RENDER_PHASE_COUNT` phases are registered.
    TooManyPhases,
    /// `MAX_RENDER_FEATURE_COUNT` features are registered.
    TooManyFeatures,
}

/// What registering `name` in a table of at most `capacity` entries does:
/// `before` is the table before the call, `after` the table after it,
/// `outcome` the index handed out, or the index that `name` has already
/// (`Err(Some(..))`), or that the table is full (`Err(None)`).
pub open spec fn is_registration(
    capacity: nat,
    before: Seq<String>,
    name: Seq<char>,
    after: Seq<String>,
    outcome: Result<u32, Option<u32>>,
) -> bool {
    match outcome {
        Ok(index) => {
            &&& !is_registered(before, name)
            &&& before.len() < capacity
            &&& index == before.len()
            &&& after.len() == before.len() + 1
            &&& after.take(before.len() as int) == before
            &&& after[before.len() as int]@ == name
        },
        Err(Some(index)) => name_at(before, name, index as int) && after == before,
        Err(None) => !is_registered(before, name) && before.len() >= capacity && after == before,
    }
}

/// The outcome of a phase registration, as [`is_registration`] takes it.
pub open spec fn phase_outcome(result: Result<RenderPhaseIndex, RegistryError>) -> Option<
    Result<u32, Option<u32>>,
> {
    match result {
        Ok(index) => Some(Ok(index)),
        Err(RegistryError::DuplicatePhase { index }) => Some(Err(Some(index))),
        Err(RegistryError::TooManyPhases) => Some(Err(None)),
        Err(_) => None,
    }
}

/// The outcome of a feature registration, as [`is_registration`] takes it.
pub open spec fn feature_outcome(result: Result<RenderFeatureIndex, RegistryError>) -> Option<
    Result<u32, Option<u32>>,
> {
    match result {
        Ok(index) => Some(Ok(index)),
        Err(RegistryError::DuplicateFeature { index }) => Some(Err(Some(index))),
        Err(RegistryError::TooManyFeatures) => Some(Err(None)),
        Err(_) => None,
    }
}

/// Looks `name` up in `names`.
fn find_name(names: &Vec<String>, name: &String) -> (found: Option<usize>)
    ensures
        match found {
            Some(index) => name_at(names@, name@, index as int),
            None => !is_registered(names@, name@),
        },
{
    let mut i: usize = 0;
    while i < names.len()
        invariant
            i <= names.len(),
            forall|at: int| 0 <= at < i ==> !name_at(names@, name@, at),
        decreases names.len() - i,
    {
        if names[i] == *name {
            return Some(i);
        }
        i += 1;
    }
    None
}

/// Registers `name` in a table of at most `capacity` entries.
fn register_name(names: &mut Vec<String>, capacity: u32, name: &str) -> (outcome: Result<
    u32,
    Option<u32>,
>)
    requires
        names_distinct(old(names)@),
        old(names)@.len() <= capacity,
    ensures
        names_distinct(final(names)@),
        final(names)@.len() <= capacity,
        is_registration(capacity as nat, old(names)@, name@, final(names)@, outcome),
{
    let owned = String::from_str(name);
    match find_name(names, &owned) {
        Some(index) => Err(Some(index as u32)),
        None => {
            let index: usize = names.len();
            if index >= capacity as usize {
                Err(None)
            } else {
                names.push(owned);
                proof {
                    assert(names@.take(index as int) =~= old(names)@);
                    assert forall|i: int, j: int| 0 <= i < j < names@.len() implies names@[i]@
                        != names@[j]@ by {
                        if j == index {
                            assert(!name_at(old(names)@, name@, i));
                        }
                    }
                }
                Ok(index as u32)
            }
        },
    }
}

/// Accumulates the phases and features of the renderer. Built once, at
/// startup, and finished by [`RenderRegistryBuilder::build`].
pub struct RenderRegistryBuilder {
    phases: Vec<String>,
    features: Vec<String>,
}

impl RenderRegistryBuilder {
    /// The registered phases; a phase's index is its position.
    pub closed spec fn phases(&self) -> Seq<String> {
        self.phases@
    }

    /// The registered features; a feature's index is its position.
    pub closed spec fn features(&self) -> Seq<String> {
        self.features@
    }

    /// Names are registered once, and the indices fit the masks. Every
    /// builder that [`Self::new`] and the methods below hand out is well
    /// formed.
    pub open spec fn well_formed(&self) -> bool {
        &&& names_distinct(self.phases())
        &&& names_distinct(self.features())
        &&& self.phases().len() <= MAX_RENDER_PHASE_COUNT
        &&& self.features().len() <= MAX_RENDER_FEATURE_COUNT
    }

    /// A builder with nothing registered.
    pub fn new() -> (builder: Self)
        ensures
            builder.well_formed(),
            builder.phases().len() == 0,
            builder.features().len() == 0,
    {
        RenderRegistryBuilder { phases: Vec::new(), features: Vec::new() }
    }

    /// Registers the render phase `name` and hands out the next unused phase
    /// index.
    ///
    /// Fails, and changes nothing, where `name` is registered already, and
    /// else where `MAX_RENDER_PHASE_COUNT` phases are registered.
    pub fn register_render_phase(&mut self, name: &str) -> (result: Result<
        RenderPhaseIndex,
        RegistryError,
    >)
        requires
            old(self).well_formed(),
        ensures
            final(self).well_formed(),
            final(self).features() == old(self).features(),
            phase_outcome(result) is Some,
            is_registration(
                MAX_RENDER_PHASE_COUNT as nat,
                old(self).phases(),
                name@,
                final(self).phases(),
                phase_outcome(result)->0,
            ),
    {
        match register_name(&mut self.phases, MAX_RENDER_PHASE_COUNT, name) {
            Ok(index) => Ok(index),
            Err(Some(index)) => Err(RegistryError::DuplicatePhase { index }),
            Err(None) => Err(RegistryError::TooManyPhases),
        }
    }

    /// Registers the render feature `name` and hands out the next unused
    /// feature index.
    ///
    /// Fails, and changes nothing, where `name` is registered already, and
    /// else where `MAX_RENDER_FEATURE_COUNT` features are registered.
    pub fn register_feature(&mut self, name: &str) -> (result: Result<
        RenderFeatureIndex,
        RegistryError,
    >)
        requires
            old(self).well_formed(),
        ensures
            final(self).well_formed(),
            final(self).phases() == old(self).phases(),
            feature_outcome(result) is Some,
            is_registration(
                MAX_RENDER_FEATURE_COUNT as nat,
                old(self).features(),
                name@,
                final(self).features(),
                feature_outcome(result)->0,
            ),
    {
        match register_name(&mut self.features, MAX_RENDER_FEATURE_COUNT, name) {
            Ok(index) => Ok(index),
            Err(Some(index)) => Err(RegistryError::DuplicateFeature { index }),
            Err(None) => Err(RegistryError::TooManyFeatures),
        }
    }

    /// Finishes the registry. Nothing can be registered afterwards.
    pub fn build(self) -> (registry: RenderRegistry)
        requires
            self.well_formed(),
        ensures
            registry.well_formed(),
            registry.phases() == self.phases(),
            registry.features() == self.features(),
    {
        RenderRegistry { phases: self.phases, features: self.features }
    }
}

impl Default for RenderRegistryBuilder {
    /// A builder with nothing registered.
    fn default() -> (builder: Self)
        ensures
            builder.well_formed(),
            builder.phases().len() == 0,
            builder.features().len() == 0,
    {
        RenderRegistryBuilder::new()
    }
}

/// The finished, read-only table of phases and features.
pub struct RenderRegistry {
    phases: Vec<String>,
    features: Vec<String>,
}

impl RenderRegistry {
    /// The registered phases; a phase's index is its position.
    pub closed spec fn phases(&self) -> Seq<String> {
        self.phases@
    }

    /// The registered features; a feature's index is its position.
    pub closed spec fn features(&self) -> Seq<String> {
        self.features@
    }

    /// Names are registered once, and the indices fit the masks.
    pub open spec fn well_formed(&self) -> bool {
        &&& names_distinct(self.phases())
        &&& names_distinct(self.features())
        &&& self.phases().len() <= MAX_RENDER_PHASE_COUNT
        &&& self.features().len() <= MAX_RENDER_FEATURE_COUNT
    }

    /// Number of registered phases.
    pub fn registered_render_phase_count(&self) -> (count: RenderPhaseIndex)
        requires
            self.well_formed(),
        ensures
            count == self.phases().len(),
    {
        self.phases.len() as u32
    }

    /// Number of registered features.
    pub fn registered_feature_count(&self) -> (count: RenderFeatureIndex)
        requires
            self.well_formed(),
        ensures
            count == self.features().len(),
    {
        self.features.len() as u32
    }

    /// The index of the phase `name`, if it is registered.
    pub fn render_phase_index_from_name(&self, name: &str) -> (index: Option<RenderPhaseIndex>)
        requires
            self.well_formed(),
        ensures
            match index {
                Some(index) => name_at(self.phases(), name@, index as int),
                None => !is_registered(self.phases(), name@),
            },
    {
        let owned = String::from_str(name);
        match find_name(&self.phases, &owned) {
            Some(index) => Some(index as u32),
            None => None,
        }
    }

    /// The index of the feature `name`, if it is registered.
    pub fn feature_index_from_name(&self, name: &str) -> (index: Option<RenderFeatureIndex>)
        requires
            self.well_formed(),
        ensures
            match index {
                Some(index) => name_at(self.features(), name@, index as int),
                None => !is_registered(self.features(), name@),
            },
    {
        let owned = String::from_str(name);
        match find_name(&self.features, &owned) {
            Some(index) => Some(index as u32),
            None => None,
        }
    }

    /// The name under which phase `index` is registered.
    pub fn render_phase_debug_name(&self, index: RenderPhaseIndex) -> (name: Option<String>)
        ensures
            match name {
                Some(name) => index < self.phases().len() && name == self.phases()[index as int],
                None => index >= self.phases().len(),
            },
    {
        if (index as usize) < self.phases.len() {
            Some(self.phases[index as usize].clone())
        } else {
            None
        }
    }

    /// The name under which feature `index` is registered.
    pub fn feature_debug_name(&self, index: RenderFeatureIndex) -> (name: Option<String>)
        ensures
            match name {
                Some(name) => index < self.features().len() && name
                    == self.features()[index as int],
                None => index >= self.features().len(),
            },
    {
        if (index as usize) < self.features.len() {
            Some(self.features[index as usize].clone())
        } else {
            None
        }
    }
}

/// Name of the phase that draws opaque geometry.
pub open spec fn opaque_phase_name() -> Seq<char> {
    "Opaque"@
}

/// Name of the feature that draws meshes.
pub open spec fn mesh_feature_name() -> Seq<char> {
    "MeshRenderFeature"@
}

/// Startup step of the mesh renderer: registers the mesh feature with the
/// registry builder that the startup steps share.
///
/// The builder slot is full until [`build_render_registry`] has run; this
/// step runs before it.
pub fn register_mesh_feature(builder: &mut Option<RenderRegistryBuilder>) -> (result: Result<
    RenderFeatureIndex,
    RegistryError,
>)
    requires
        *old(builder) is Some,
        (*old(builder))->0.well_formed(),
    ensures
        *final(builder) is Some,
        (*final(builder))->0.well_formed(),
        (*final(builder))->0.phases() == (*old(builder))->0.phases(),
        feature_outcome(result) is Some,
        is_registration(
            MAX_RENDER_FEATURE_COUNT as nat,
            (*old(builder))->0.features(),
            mesh_feature_name(),
            (*final(builder))->0.features(),
            feature_outcome(result)->0,
        ),
{
    let mut registry = builder.take().unwrap();
    let result = registry.register_feature("MeshRenderFeature");
    *builder = Some(registry);
    result
}

/// Last startup step: registers the opaque phase, finishes the registry and
/// puts it into its slot.
///
/// On success the builder slot is left empty, since nothing registers after
/// startup, and the registry slot holds the finished registry. On failure the
/// builder is put back unchanged and the registry slot is left as it was.
pub fn build_render_registry(
    builder: &mut Option<RenderRegistryBuilder>,
    registry: &mut Option<RenderRegistry>,
) -> (result: Result<RenderPhaseIndex, RegistryError>)
    requires
        *old(builder) is Some,
        (*old(builder))->0.well_formed(),
    ensures
        phase_outcome(result) is Some,
        match result {
            Ok(index) => {
                &&& *final(builder) is None
                &&& *final(registry) is Some
                &&& (*final(registry))->0.well_formed()
                &&& (*final(registry))->0.features() == (*old(builder))->0.features()
                &&& is_registration(
                    MAX_RENDER_PHASE_COUNT as nat,
                    (*old(builder))->0.phases(),
                    opaque_phase_name(),
                    (*final(registry))->0.phases(),
                    Ok(index),
                )
            },
            Err(error) => {
                &&& *final(registry) == *old(registry)
                &&& *final(builder) is Some
                &&& (*final(builder))->0.well_formed()
                &&& (*final(builder))->0.phases() == (*old(builder))->0.phases()
                &&& (*final(builder))->0.features() == (*old(builder))->0.features()
                &&& is_registration(
                    MAX_RENDER_PHASE_COUNT as nat,
                    (*old(builder))->0.phases(),
                    opaque_phase_name(),
                    (*old(builder))->0.phases(),
                    phase_outcome(result)->0,
                )
            },
        },
{
    let mut pending = builder.take().unwrap();
    match pending.register_render_phase("Opaque") {
        Ok(index) => {
            *registry = Some(pending.build());
            Ok(index)
        },
        Err(error) => {
            *builder = Some(pending);
            Err(error)
        },
    }
}

/// A name registers once: where a registration of `name` succeeds, the next
/// registration of the same name fails, names the index handed out the first
/// time, and leaves the table as it was.
pub proof fn law_second_registration_fails(
    capacity: nat,
    before: Seq<String>,
    name: Seq<char>,
    between: Seq<String>,
    first: u32,
    after: Seq<String>,
    second: Result<u32, Option<u32>>,
)
    requires
        names_distinct(before),
        is_registration(capacity, before, name, between, Ok(first)),
        is_registration(capacity, between, name, after, second),
    ensures
        second == Err::<u32, Option<u32>>(Some(first)),
        after == between,
{
    assert(name_at(between, name, first as int));
    match second {
        Ok(index) => {},
        Err(Some(index)) => {
            if index != first {
                assert forall|i: int, j: int| 0 <= i < j < between.len() implies between[i]@
                    != between[j]@ by {
                    if j == before.len() {
                        assert(between[i] == before[i]) by {
                            assert(between.take(before.len() as int)[i] == before[i]);
                        }
                        assert(!name_at(before, name, i));
                    } else {
                        assert(between.take(before.len() as int)[i] == before[i]);
                        assert(between.take(before.len() as int)[j] == before[j]);
                    }
                }
                if (index as int) < (first as int) {
                    assert(between[index as int]@ != between[first as int]@);
                } else {
                    assert(between[first as int]@ != between[index as int]@);
                }
            }
        },
        Err(None) => {},
    }
}

/// Indices are contiguous from zero: the first registration in an empty
/// table hands out index zero, and each later one hands out the index after
/// the one before it.
pub proof fn law_indices_contiguous(
    capacity: nat,
    before: Seq<String>,
    name: Seq<char>,
    between: Seq<String>,
    first: u32,
    next_name: Seq<char>,
    after: Seq<String>,
    second: u32,
)
    requires
        is_registration(capacity, before, name, between, Ok(first)),
        is_registration(capacity, between, next_name, after, Ok(second)),
    ensures
        before.len() == 0 ==> first == 0,
        second == first + 1,
{
}

/// Indices are stable: a registration, whether it succeeds or fails, leaves
/// every name that was registered before under the index it had.
pub proof fn law_indices_stable(
    capacity: nat,
    before: Seq<String>,
    name: Seq<char>,
    after: Seq<String>,
    outcome: Result<u32, Option<u32>>,
    earlier: Seq<char>,
    index: int,
)
    requires
        is_registration(capacity, before, name, after, outcome),
        name_at(before, earlier, index),
    ensures
        name_at(after, earlier, index),
{
    if outcome is Ok {
        assert(after.take(before.len() as int)[index] == before[index]);
    }
}

} // verus!
