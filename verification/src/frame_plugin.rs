//! The plugin that sets the frame pipeline up: its stages, its resources
//! and the systems that turn the frame over.

use vstd::prelude::*;
use crate::plan::{
    has_stage, runs_before, stage_at, stages_distinct, AppPlan, PlanError, PlanStep, ResourceId,
    StageLabel, StartupStage, SystemId,
};

verus! {

/// Stages of the frame pipeline, in the order in which they run.
#[derive(Clone, Copy, Debug, PartialEq, Eq, Hash, Structural)]
pub enum RenderStage {
    Visibility,
    PreExtract,
    Extract,
    Prepare,
    Submit,
}

/// The labels of the pipeline's stages, in the order in which they run.
pub open spec fn pipeline_stages() -> Seq<StageLabel> {
    seq![
        StageLabel::Pipeline(RenderStage::Visibility),
        StageLabel::Pipeline(RenderStage::PreExtract),
        StageLabel::Pipeline(RenderStage::Extract),
        StageLabel::Pipeline(RenderStage::Prepare),
        StageLabel::Pipeline(RenderStage::Submit),
    ]
}

/// `stages` with the pipeline's stages right behind position `at`.
pub open spec fn with_pipeline_stages(stages: Seq<StageLabel>, at: int) -> Seq<StageLabel> {
    stages.take(at + 1) + pipeline_stages() + stages.skip(at + 1)
}

/// `stages` with the first `count` stages of the pipeline right behind
/// position `at`.
pub open spec fn with_first_pipeline_stages(
    stages: Seq<StageLabel>,
    at: int,
    count: int,
) -> Seq<StageLabel> {
    stages.take(at + 1) + pipeline_stages().take(count) + stages.skip(at + 1)
}

/// The labels of the pipeline's stages, in the order in which they run.
fn pipeline_stage_list() -> (stages: Vec<StageLabel>)
    ensures
        stages@ == pipeline_stages(),
{
    let stages = vec![
        StageLabel::Pipeline(RenderStage::Visibility),
        StageLabel::Pipeline(RenderStage::PreExtract),
        StageLabel::Pipeline(RenderStage::Extract),
        StageLabel::Pipeline(RenderStage::Prepare),
        StageLabel::Pipeline(RenderStage::Submit),
    ];
    assert(stages@ =~= pipeline_stages());
    stages
}

/// What the plugin registers besides stages, in order: the resources of the
/// pipeline, the startup system that finishes the registry, and the two
/// systems of the frame. The main view is created, and what it sees is
/// asked for, in the pre-extract stage; the frame is turned over in the
/// extract stage, so that the packet stands before the prepare stage begins.
pub open spec fn pipeline_steps() -> Seq<PlanStep> {
    seq![
        PlanStep::InsertResource(ResourceId::RenderRegistryBuilder),
        PlanStep::InsertResource(ResourceId::RenderRegistry),
        PlanStep::InsertResource(ResourceId::FramePacketBuilder),
        PlanStep::InsertResource(ResourceId::FramePacket),
        PlanStep::InsertResource(ResourceId::RenderViewSet),
        PlanStep::InsertResource(ResourceId::VisibilityRegion),
        PlanStep::StartupSystem(StartupStage::PostStartup, SystemId::BuildRenderRegistry),
        PlanStep::System(StageLabel::Pipeline(RenderStage::PreExtract), SystemId::CreateMainView),
        PlanStep::System(StageLabel::Pipeline(RenderStage::Extract), SystemId::BuildFramePacket),
    ]
}

/// Pipeline stage number `k` is the first one that `stages` holds.
pub open spec fn is_first_present(stages: Seq<StageLabel>, k: int) -> bool {
    &&& 0 <= k < pipeline_stages().len()
    &&& has_stage(stages, pipeline_stages()[k])
    &&& forall|j: int| 0 <= j < k ==> !has_stage(stages, #[trigger] pipeline_stages()[j])
}

/// The plugin of the frame pipeline.
#[derive(Clone, Copy, Debug, Default)]
pub struct BevyRafxPlugin;

impl BevyRafxPlugin {
    /// Composes the frame pipeline into `app`.
    ///
    /// Puts the five pipeline stages, in their order, right behind the
    /// host's `PostUpdate` stage, and registers the pipeline's resources and
    /// systems. Fails, and changes nothing, where `app` has no `PostUpdate`
    /// stage, and else where it has one of the pipeline's stages already:
    /// the error then names the first of them.
    pub fn build(&self, app: &mut AppPlan) -> (result: Result<(), PlanError>)
        requires
            old(app).well_formed(),
        ensures
            final(app).well_formed(),
            match result {
                Ok(()) => {
                    &&& has_stage(old(app).stages(), StageLabel::PostUpdate)
                    &&& forall|k: int|
                        0 <= k < pipeline_stages().len() ==> !has_stage(
                            old(app).stages(),
                            #[trigger] pipeline_stages()[k],
                        )
                    &&& forall|at: int|
                        stage_at(old(app).stages(), StageLabel::PostUpdate, at)
                            ==> final(app).stages() == with_pipeline_stages(old(app).stages(), at)
                    &&& final(app).steps() == old(app).steps() + pipeline_steps()
                },
                Err(error) => {
                    &&& final(app).stages() == old(app).stages()
                    &&& final(app).steps() == old(app).steps()
                    &&& if !has_stage(old(app).stages(), StageLabel::PostUpdate) {
                        error == PlanError::UnknownStage(StageLabel::PostUpdate)
                    } else {
                        exists|k: int|
                            is_first_present(old(app).stages(), k) && error
                                == PlanError::DuplicateStage(#[trigger] pipeline_stages()[k])
                    }
                },
            },
    {
        if !app.contains_stage(StageLabel::PostUpdate) {
            return Err(PlanError::UnknownStage(StageLabel::PostUpdate));
        }
        let stages = pipeline_stage_list();
        let mut k: usize = 0;
        while k < stages.len()
            invariant
                k <= stages.len(),
                stages@ == pipeline_stages(),
                app.well_formed(),
                app.stages() == old(app).stages(),
                app.steps() == old(app).steps(),
                has_stage(app.stages(), StageLabel::PostUpdate),
                forall|j: int|
                    0 <= j < k ==> !has_stage(app.stages(), #[trigger] pipeline_stages()[j]),
            decreases stages.len() - k,
        {
            if app.contains_stage(stages[k]) {
                assert(is_first_present(app.stages(), k as int));
                return Err(PlanError::DuplicateStage(stages[k]));
            }
            k += 1;
        }
        let ghost start = app.stages();
        let ghost at = choose|at: int| stage_at(start, StageLabel::PostUpdate, at);
        proof {
            assert forall|other: int|
                stage_at(start, StageLabel::PostUpdate, other) implies other == at by {
                if other < at {
                    assert(start[other] != start[at]);
                } else if at < other {
                    assert(start[at] != start[other]);
                }
            }
        }

        app.insert_resource(ResourceId::RenderRegistryBuilder);
        app.insert_resource(ResourceId::RenderRegistry);
        app.insert_resource(ResourceId::FramePacketBuilder);
        app.insert_resource(ResourceId::FramePacket);
        app.insert_resource(ResourceId::RenderViewSet);
        app.insert_resource(ResourceId::VisibilityRegion);

        let mut target = StageLabel::PostUpdate;
        let mut k: usize = 0;
        proof {
            assert(app.stages() =~= with_first_pipeline_stages(start, at, 0));
            assert(app.steps() =~= old(app).steps() + pipeline_steps().take(6));
        }
        while k < stages.len()
            invariant
                k <= stages.len(),
                stages@ == pipeline_stages(),
                start == old(app).stages(),
                stage_at(start, StageLabel::PostUpdate, at),
                forall|j: int|
                    0 <= j < pipeline_stages().len() ==> !has_stage(
                        start,
                        #[trigger] pipeline_stages()[j],
                    ),
                app.well_formed(),
                app.steps() == old(app).steps() + pipeline_steps().take(6),
                app.stages() == with_first_pipeline_stages(start, at, k as int),
                stage_at(app.stages(), target, at + k),
            decreases stages.len() - k,
        {
            proof {
                lemma_later_stage_absent(start, at, k as int, k as int);
            }
            if let Err(error) = app.add_stage_after(target, stages[k]) {
                return Err(error);
            }
            proof {
                assert(app.stages() =~= with_first_pipeline_stages(start, at, k + 1));
            }
            target = stages[k];
            k += 1;
        }
        proof {
            assert(pipeline_stages().take(5) =~= pipeline_stages());
        }

        let pre_extract = StageLabel::Pipeline(RenderStage::PreExtract);
        let extract = StageLabel::Pipeline(RenderStage::Extract);
        app.add_startup_system_to_stage(StartupStage::PostStartup, SystemId::BuildRenderRegistry);
        proof {
            assert(stage_at(app.stages(), pre_extract, at + 2));
            assert(stage_at(app.stages(), extract, at + 3));
        }
        if let Err(error) = app.add_system_to_stage(pre_extract, SystemId::CreateMainView) {
            return Err(error);
        }
        if let Err(error) = app.add_system_to_stage(extract, SystemId::BuildFramePacket) {
            return Err(error);
        }
        proof {
            assert(app.steps() =~= old(app).steps() + pipeline_steps());
        }
        Ok(())
    }
}

/// A stage of the pipeline is none of those that run before it, so it is
/// not in a plan that has only those composed in.
proof fn lemma_later_stage_absent(stages: Seq<StageLabel>, at: int, count: int, k: int)
    requires
        0 <= at < stages.len(),
        0 <= count <= k < pipeline_stages().len(),
        !has_stage(stages, pipeline_stages()[k]),
    ensures
        !has_stage(with_first_pipeline_stages(stages, at, count), pipeline_stages()[k]),
{
    let composed = with_first_pipeline_stages(stages, at, count);
    let label = pipeline_stages()[k];
    assert forall|i: int| !stage_at(composed, label, i) by {
        if 0 <= i < composed.len() {
            if i <= at {
                assert(!stage_at(stages, label, i));
            } else if i <= at + count {
                let earlier = i - at - 1;
                assert(composed[i] == pipeline_stages()[earlier]);
                assert(pipeline_stages()[0] == StageLabel::Pipeline(RenderStage::Visibility));
                assert(pipeline_stages()[1] == StageLabel::Pipeline(RenderStage::PreExtract));
                assert(pipeline_stages()[2] == StageLabel::Pipeline(RenderStage::Extract));
                assert(pipeline_stages()[3] == StageLabel::Pipeline(RenderStage::Prepare));
                assert(pipeline_stages()[4] == StageLabel::Pipeline(RenderStage::Submit));
            } else {
                assert(!stage_at(stages, label, i - count));
            }
        }
    }
}

/// With the pipeline composed in, its stages run in their order, right
/// behind `PostUpdate`: visibility, then pre-extract, extract, prepare and
/// submit, with no other stage between them.
pub proof fn law_pipeline_stages_run_in_order(stages: Seq<StageLabel>, at: int, k: int)
    requires
        stage_at(stages, StageLabel::PostUpdate, at),
        0 <= k < pipeline_stages().len(),
    ensures
        stage_at(with_pipeline_stages(stages, at), StageLabel::PostUpdate, at),
        stage_at(with_pipeline_stages(stages, at), pipeline_stages()[k], at + 1 + k),
{
}

/// The plugin registers `system` in the stage `stage` of the frame.
pub open spec fn registers_in(steps: Seq<PlanStep>, system: SystemId, stage: StageLabel) -> bool {
    exists|i: int| 0 <= i < steps.len() && #[trigger] steps[i] == PlanStep::System(stage, system)
}

/// In every frame the main view is created, and what it sees is asked for,
/// before the frame is turned over, and never after: the stage in which the
/// plugin registers the creation of the view runs before the stage in which
/// it registers the turn-over. The views are created behind the visibility
/// stage, in which the objects are brought up to date, and the packet
/// stands before the prepare stage begins.
pub proof fn law_view_is_created_before_turn_over(
    stages: Seq<StageLabel>,
    at: int,
    create: StageLabel,
    turn_over: StageLabel,
)
    requires
        stage_at(stages, StageLabel::PostUpdate, at),
        stages_distinct(with_pipeline_stages(stages, at)),
        registers_in(pipeline_steps(), SystemId::CreateMainView, create),
        registers_in(pipeline_steps(), SystemId::BuildFramePacket, turn_over),
    ensures
        runs_before(with_pipeline_stages(stages, at), create, turn_over),
        !runs_before(with_pipeline_stages(stages, at), turn_over, create),
        runs_before(
            with_pipeline_stages(stages, at),
            StageLabel::Pipeline(RenderStage::Visibility),
            create,
        ),
        runs_before(
            with_pipeline_stages(stages, at),
            turn_over,
            StageLabel::Pipeline(RenderStage::Prepare),
        ),
{
    let steps = pipeline_steps();
    let after = with_pipeline_stages(stages, at);
    let i = choose|i: int|
        0 <= i < steps.len() && #[trigger] steps[i] == PlanStep::System(
            create,
            SystemId::CreateMainView,
        );
    let j = choose|j: int|
        0 <= j < steps.len() && #[trigger] steps[j] == PlanStep::System(
            turn_over,
            SystemId::BuildFramePacket,
        );
    assert(i == 7 && j == 8) by {
        assert(steps.len() == 9);
        assert(steps[0] is InsertResource && steps[1] is InsertResource);
        assert(steps[2] is InsertResource && steps[3] is InsertResource);
        assert(steps[4] is InsertResource && steps[5] is InsertResource);
        assert(steps[6] is StartupSystem);
        assert(steps[7] == PlanStep::System(
            StageLabel::Pipeline(RenderStage::PreExtract),
            SystemId::CreateMainView,
        ));
        assert(steps[8] == PlanStep::System(
            StageLabel::Pipeline(RenderStage::Extract),
            SystemId::BuildFramePacket,
        ));
    }
    law_pipeline_stages_run_in_order(stages, at, 0);
    law_pipeline_stages_run_in_order(stages, at, 1);
    law_pipeline_stages_run_in_order(stages, at, 2);
    law_pipeline_stages_run_in_order(stages, at, 3);
    assert(stage_at(after, StageLabel::Pipeline(RenderStage::Visibility), at + 1));
    assert(stage_at(after, create, at + 2));
    assert(stage_at(after, turn_over, at + 3));
    assert(stage_at(after, StageLabel::Pipeline(RenderStage::Prepare), at + 4));
    if runs_before(after, turn_over, create) {
        let (a, b) = choose|a: int, b: int|
            a < b && stage_at(after, turn_over, a) && stage_at(after, create, b);
        if a != at + 3 {
            if a < at + 3 {
                assert(after[a] != after[at + 3]);
            } else {
                assert(after[at + 3] != after[a]);
            }
        }
        if b != at + 2 {
            if b < at + 2 {
                assert(after[b] != after[at + 2]);
            } else {
                assert(after[at + 2] != after[b]);
            }
        }
    }
}

/// Composing the pipeline in keeps the host's stages in the order they had.
pub proof fn law_host_stages_keep_their_order(stages: Seq<StageLabel>, at: int, i: int, j: int)
    requires
        0 <= at < stages.len(),
        0 <= i < j < stages.len(),
    ensures
        ({
            let after = with_pipeline_stages(stages, at);
            let moved_i = if i <= at {
                i
            } else {
                i + 5
            };
            let moved_j = if j <= at {
                j
            } else {
                j + 5
            };
            moved_i < moved_j && after[moved_i] == stages[i] && after[moved_j] == stages[j]
        }),
{
}

} // verus!
