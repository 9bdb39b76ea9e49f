//! The plan of an application: its stages in the order in which they run each
//! frame, and what plugins have registered with it.
//!
//! A plugin is composed into an application by a call that takes the plan
//! and adds to it. The host then builds its schedule from the finished plan:
//! it creates the stages in the plan's order and performs the recorded steps.

use vstd::prelude::*;

verus! {

/// A stage of the per-frame schedule: one of the host's own, or one that a
/// plugin adds.
#[derive(Clone, Copy, Debug, PartialEq, Eq, Hash, Structural)]
pub enum StageLabel {
    First,
    LoadAssets,
    PreUpdate,
    Update,
    PostUpdate,
    AssetEvents,
    Last,
    Pipeline(crate::frame_plugin::RenderStage),
    Direct(crate::rafx_plugin::RenderStage),
}

/// A stage of the startup schedule, which runs once.
#[derive(Clone, Copy, Debug, PartialEq, Eq, Hash, Structural)]
pub enum StartupStage {
    PreStartup,
    Startup,
    PostStartup,
}

/// The systems that the plugins of this library register.
#[derive(Clone, Copy, Debug, PartialEq, Eq, Hash, Structural)]
pub enum SystemId {
    BuildRenderRegistry,
    BuildFramePacket,
    CreateMainView,
    RegisterMeshFeature,
    MeshUpdateVisibility,
    MeshExtract,
    SetupRenderer,
    Render,
}

/// The resources that the plugins of this library insert.
#[derive(Clone, Copy, Debug, PartialEq, Eq, Hash, Structural)]
pub enum ResourceId {
    RenderRegistryBuilder,
    RenderRegistry,
    FramePacketBuilder,
    FramePacket,
    RenderViewSet,
    VisibilityRegion,
    Renderer,
}

/// The asset types that the plugins of this library add.
#[derive(Clone, Copy, Debug, PartialEq, Eq, Hash, Structural)]
pub enum AssetKind {
    Mesh,
    StandardMaterial,
}

/// The component types that the plugins of this library register.
#[derive(Clone, Copy, Debug, PartialEq, Eq, Hash, Structural)]
pub enum ComponentKind {
    Visibility,
}

/// One thing a plugin registered, besides stages.
#[derive(Clone, Copy, Debug, PartialEq, Eq, Hash, Structural)]
pub enum PlanStep {
    InsertResource(ResourceId),
    RegisterType(ComponentKind),
    AddAsset(AssetKind),
    StartupSystem(StartupStage, SystemId),
    System(StageLabel, SystemId),
}

/// Why a plan refuses a registration.
#[derive(Clone, Copy, Debug, PartialEq, Eq, Structural)]
pub enum PlanError {
    /// The plan has no such stage.
    UnknownStage(StageLabel),
    /// The plan has the stage already.
    DuplicateStage(StageLabel),
}

/// Stage `label` is at position `at` of `stages`.
pub open spec fn stage_at(stages: Seq<StageLabel>, label: StageLabel, at: int) -> bool {
    0 <= at < stages.len() && stages[at] == label
}

/// `stages` holds the stage `label`.
pub open spec fn has_stage(stages: Seq<StageLabel>, label: StageLabel) -> bool {
    exists|at: int| stage_at(stages, label, at)
}

/// No stage occurs twice.
pub open spec fn stages_distinct(stages: Seq<StageLabel>) -> bool {
    forall|i: int, j: int| 0 <= i < j < stages.len() ==> stages[i] != stages[j]
}

/// Stage `earlier` runs before stage `later`.
pub open spec fn runs_before(
    stages: Seq<StageLabel>,
    earlier: StageLabel,
    later: StageLabel,
) -> bool {
    exists|i: int, j: int| i < j && stage_at(stages, earlier, i) && stage_at(stages, later, j)
}

/// Finds a stage.
fn find_stage(stages: &Vec<StageLabel>, label: StageLabel) -> (found: Option<usize>)
    ensures
        match found {
            Some(at) => stage_at(stages@, label, at as int),
            None => !has_stage(stages@, label),
        },
{
    let mut i: usize = 0;
    while i < stages.len()
        invariant
            i <= stages.len(),
            forall|at: int| 0 <= at < i ==> !stage_at(stages@, label, at),
        decreases stages.len() - i,
    {
        if stages[i] == label {
            return Some(i);
        }
        i += 1;
    }
    None
}

/// The plan of an application.
pub struct AppPlan {
    stages: Vec<StageLabel>,
    steps: Vec<PlanStep>,
}

impl AppPlan {
    /// The stages of the per-frame schedule, in the order in which they run.
    pub closed spec fn stages(&self) -> Seq<StageLabel> {
        self.stages@
    }

    /// What was registered, in the order of the registrations.
    pub closed spec fn steps(&self) -> Seq<PlanStep> {
        self.steps@
    }

    /// No stage occurs twice. Every plan that [`Self::new`] and the methods
    /// below hand out is well formed.
    pub open spec fn well_formed(&self) -> bool {
        stages_distinct(self.stages())
    }

    /// A plan without stages, with nothing registered.
    pub fn new() -> (plan: Self)
        ensures
            plan.well_formed(),
            plan.stages().len() == 0,
            plan.steps().len() == 0,
    {
        AppPlan { stages: Vec::new(), steps: Vec::new() }
    }

    /// Adds the stage `stage` behind all others.
    ///
    /// Fails, and changes nothing, exactly where the plan has the stage
    /// already.
    pub fn add_stage(&mut self, stage: StageLabel) -> (result: Result<(), PlanError>)
        requires
            old(self).well_formed(),
        ensures
            final(self).well_formed(),
            final(self).steps() == old(self).steps(),
            match result {
                Ok(()) => !has_stage(old(self).stages(), stage) && final(self).stages()
                    == old(self).stages().push(stage),
                Err(error) => has_stage(old(self).stages(), stage) && error
                    == PlanError::DuplicateStage(stage) && final(self).stages()
                        == old(self).stages(),
            },
    {
        if find_stage(&self.stages, stage).is_some() {
            Err(PlanError::DuplicateStage(stage))
        } else {
            self.stages.push(stage);
            proof {
                assert forall|a: int, b: int| 0 <= a < b
                    < self.stages@.len() implies self.stages@[a]
                    != self.stages@[b] by {
                    if b == old(self).stages@.len() {
                        assert(!stage_at(old(self).stages@, stage, a));
                    }
                }
            }
            Ok(())
        }
    }

    /// The stages of the per-frame schedule, in the order in which they run.
    pub fn stage_list(&self) -> (stages: &Vec<StageLabel>)
        ensures
            stages@ == self.stages(),
    {
        &self.stages
    }

    /// What was registered, in the order of the registrations.
    pub fn step_list(&self) -> (steps: &Vec<PlanStep>)
        ensures
            steps@ == self.steps(),
    {
        &self.steps
    }

    /// Whether the plan has the stage `label`.
    pub fn contains_stage(&self, label: StageLabel) -> (present: bool)
        ensures
            present == has_stage(self.stages(), label),
    {
        find_stage(&self.stages, label).is_some()
    }

    /// Adds the stage `stage` right behind the stage `target`.
    ///
    /// Fails, and changes nothing, where the plan has no stage `target`, and
    /// else where it has the stage `stage` already.
    pub fn add_stage_after(&mut self, target: StageLabel, stage: StageLabel) -> (result: Result<
        (),
        PlanError,
    >)
        requires
            old(self).well_formed(),
        ensures
            final(self).well_formed(),
            final(self).steps() == old(self).steps(),
            match result {
                Ok(()) => {
                    &&& has_stage(old(self).stages(), target)
                    &&& !has_stage(old(self).stages(), stage)
                    &&& forall|at: int|
                        stage_at(old(self).stages(), target, at) ==> final(self).stages()
                            == old(self).stages().insert(at + 1, stage)
                },
                Err(error) => {
                    &&& final(self).stages() == old(self).stages()
                    &&& if !has_stage(old(self).stages(), target) {
                        error == PlanError::UnknownStage(target)
                    } else {
                        has_stage(old(self).stages(), stage) && error == PlanError::DuplicateStage(
                            stage,
                        )
                    }
                },
            },
    {
        match find_stage(&self.stages, target) {
            None => Err(PlanError::UnknownStage(target)),
            Some(at) => {
                if find_stage(&self.stages, stage).is_some() {
                    Err(PlanError::DuplicateStage(stage))
                } else {
                    assert(at < self.stages.len());
                    self.stages.insert(at + 1, stage);
                    proof {
                        let before = old(self).stages@;
                        let after = self.stages@;
                        assert forall|i: int, j: int| 0 <= i < j < after.len() implies after[i]
                            != after[j] by {
                            let a = if i <= at {
                                i
                            } else {
                                i - 1
                            };
                            let b = if j <= at {
                                j
                            } else {
                                j - 1
                            };
                            if i == at + 1 {
                                assert(!stage_at(before, stage, b));
                            } else if j == at + 1 {
                                assert(!stage_at(before, stage, a));
                            } else {
                                assert(before[a] != before[b]);
                            }
                        }
                        assert forall|other: int|
                            stage_at(before, target, other) implies other == at by {
                            if other < at {
                                assert(before[other] != before[at as int]);
                            } else if at < other {
                                assert(before[at as int] != before[other]);
                            }
                        }
                    }
                    Ok(())
                }
            },
        }
    }

    /// Inserts a resource.
    pub fn insert_resource(&mut self, resource: ResourceId)
        ensures
            final(self).stages() == old(self).stages(),
            final(self).steps() == old(self).steps().push(PlanStep::InsertResource(resource)),
    {
        self.steps.push(PlanStep::InsertResource(resource));
    }

    /// Registers a component type.
    pub fn register_type(&mut self, component: ComponentKind)
        ensures
            final(self).stages() == old(self).stages(),
            final(self).steps() == old(self).steps().push(PlanStep::RegisterType(component)),
    {
        self.steps.push(PlanStep::RegisterType(component));
    }

    /// Adds an asset type.
    pub fn add_asset(&mut self, asset: AssetKind)
        ensures
            final(self).stages() == old(self).stages(),
            final(self).steps() == old(self).steps().push(PlanStep::AddAsset(asset)),
    {
        self.steps.push(PlanStep::AddAsset(asset));
    }

    /// Adds a system to a stage of the startup schedule.
    pub fn add_startup_system_to_stage(&mut self, stage: StartupStage, system: SystemId)
        ensures
            final(self).stages() == old(self).stages(),
            final(self).steps() == old(self).steps().push(PlanStep::StartupSystem(stage, system)),
    {
        self.steps.push(PlanStep::StartupSystem(stage, system));
    }

    /// Adds a system to the startup schedule's main stage.
    pub fn add_startup_system(&mut self, system: SystemId)
        ensures
            final(self).stages() == old(self).stages(),
            final(self).steps() == old(self).steps().push(
                PlanStep::StartupSystem(StartupStage::Startup, system),
            ),
    {
        self.steps.push(PlanStep::StartupSystem(StartupStage::Startup, system));
    }

    /// Adds a system to a stage of the per-frame schedule.
    ///
    /// Fails, and changes nothing, exactly where the plan has no such stage.
    pub fn add_system_to_stage(&mut self, stage: StageLabel, system: SystemId) -> (result: Result<
        (),
        PlanError,
    >)
        ensures
            final(self).stages() == old(self).stages(),
            match result {
                Ok(()) => has_stage(old(self).stages(), stage) && final(self).steps()
                    == old(self).steps().push(PlanStep::System(stage, system)),
                Err(error) => !has_stage(old(self).stages(), stage) && error
                    == PlanError::UnknownStage(stage) && final(self).steps() == old(self).steps(),
            },
    {
        if find_stage(&self.stages, stage).is_some() {
            self.steps.push(PlanStep::System(stage, system));
            Ok(())
        } else {
            Err(PlanError::UnknownStage(stage))
        }
    }
}

} // verus!
