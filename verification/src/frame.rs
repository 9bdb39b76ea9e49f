//! The course of one frame, as a state machine.
//!
//! The host does the work of a frame: it creates the views, queries
//! visibility, turns the frame packet over, builds and compiles the render
//! graph, submits the command buffers and presents the image. After each
//! piece of work it reports what happened; the machine answers with the
//! work that comes next. A frame that fails is abandoned as a whole: nothing
//! of it is submitted or presented, and the next frame starts from the state
//! that was turned over for it.

use vstd::prelude::*;

verus! {

/// How far a frame has come.
#[derive(Clone, Copy, Debug, PartialEq, Eq, Structural)]
pub enum FrameState {
    /// No work of the frame is done.
    Idle,
    ViewsCreated,
    VisibilityQueried,
    PacketBuilt,
    GraphBuilt,
    GraphCompiled,
    Submitted,
    /// The frame is on the screen.
    Presented,
    /// The graph did not compile. Nothing was submitted.
    CompileFailed,
    /// The device refused the command buffers.
    SubmitFailed,
    /// The swapchain refused the image.
    PresentFailed,
}

/// What the host reports.
#[derive(Clone, Copy, Debug, PartialEq, Eq, Structural)]
pub enum FrameEvent {
    /// A new frame starts.
    BeginFrame,
    ViewsCreated,
    VisibilityQueried,
    PacketBuilt,
    /// No image of the swapchain could be acquired, as when the swapchain is
    /// out of date.
    ImageAcquireFailed,
    GraphBuilt,
    GraphCompiled,
    GraphCompileFailed,
    Submitted,
    SubmitFailed,
    Presented,
    PresentFailed,
}

/// What the host has to do next.
#[derive(Clone, Copy, Debug, PartialEq, Eq, Structural)]
pub enum FrameAction {
    CreateViews,
    QueryVisibility,
    BuildFramePacket,
    BuildGraph,
    CompileGraph,
    Submit,
    Present,
    /// The frame is done: tell the resource manager, then begin the next.
    CompleteFrame,
    /// Skip submission, surface the error, then begin the next frame.
    AbandonFrame,
    /// Recreate the swapchain, then try again.
    RecreateSwapchain,
    /// The report does not fit the state of the frame: nothing changes.
    Rejected,
}

/// The frame is over, well or badly: only a new frame goes on from here.
pub open spec fn is_terminal(state: FrameState) -> bool {
    state is Presented || state is CompileFailed || state is SubmitFailed || state is PresentFailed
}

/// The frame failed.
pub open spec fn is_failure(state: FrameState) -> bool {
    state is CompileFailed || state is SubmitFailed || state is PresentFailed
}

/// The state that follows `state` on `event`, and what the host does next.
pub open spec fn transition(state: FrameState, event: FrameEvent) -> (FrameState, FrameAction) {
    match (state, event) {
        (FrameState::Idle, FrameEvent::BeginFrame) => (FrameState::Idle, FrameAction::CreateViews),
        (FrameState::Presented, FrameEvent::BeginFrame) => (
            FrameState::Idle,
            FrameAction::CreateViews,
        ),
        (FrameState::CompileFailed, FrameEvent::BeginFrame) => (
            FrameState::Idle,
            FrameAction::CreateViews,
        ),
        (FrameState::SubmitFailed, FrameEvent::BeginFrame) => (
            FrameState::Idle,
            FrameAction::CreateViews,
        ),
        (FrameState::PresentFailed, FrameEvent::BeginFrame) => (
            FrameState::Idle,
            FrameAction::CreateViews,
        ),
        (FrameState::Idle, FrameEvent::ViewsCreated) => (
            FrameState::ViewsCreated,
            FrameAction::QueryVisibility,
        ),
        (FrameState::ViewsCreated, FrameEvent::VisibilityQueried) => (
            FrameState::VisibilityQueried,
            FrameAction::BuildFramePacket,
        ),
        (FrameState::VisibilityQueried, FrameEvent::PacketBuilt) => (
            FrameState::PacketBuilt,
            FrameAction::BuildGraph,
        ),
        (FrameState::PacketBuilt, FrameEvent::ImageAcquireFailed) => (
            FrameState::PacketBuilt,
            FrameAction::RecreateSwapchain,
        ),
        (FrameState::PacketBuilt, FrameEvent::GraphBuilt) => (
            FrameState::GraphBuilt,
            FrameAction::CompileGraph,
        ),
        (FrameState::GraphBuilt, FrameEvent::GraphCompiled) => (
            FrameState::GraphCompiled,
            FrameAction::Submit,
        ),
        (FrameState::GraphBuilt, FrameEvent::GraphCompileFailed) => (
            FrameState::CompileFailed,
            FrameAction::AbandonFrame,
        ),
        (FrameState::GraphCompiled, FrameEvent::Submitted) => (
            FrameState::Submitted,
            FrameAction::Present,
        ),
        (FrameState::GraphCompiled, FrameEvent::SubmitFailed) => (
            FrameState::SubmitFailed,
            FrameAction::AbandonFrame,
        ),
        (FrameState::Submitted, FrameEvent::Presented) => (
            FrameState::Presented,
            FrameAction::CompleteFrame,
        ),
        (FrameState::Submitted, FrameEvent::PresentFailed) => (
            FrameState::PresentFailed,
            FrameAction::RecreateSwapchain,
        ),
        _ => (state, FrameAction::Rejected),
    }
}

/// The number of frames that are over after `event` in `state`, where
/// `finished` were over before: a frame counts when the next one begins.
pub open spec fn frames_after(state: FrameState, event: FrameEvent, finished: nat) -> nat {
    if is_terminal(state) && event is BeginFrame {
        finished + 1
    } else {
        finished
    }
}

/// The state that a run of events leads to.
pub open spec fn run(state: FrameState, events: Seq<FrameEvent>) -> FrameState
    decreases events.len(),
{
    if events.len() == 0 {
        state
    } else {
        transition(run(state, events.drop_last()), events.last()).0
    }
}

/// Tracks the frames of a renderer.
pub struct FrameDriver {
    state: FrameState,
    finished: u64,
}

impl FrameDriver {
    /// How far the current frame has come.
    pub closed spec fn frame_state(&self) -> FrameState {
        self.state
    }

    /// Number of frames that are over.
    pub closed spec fn finished_frames(&self) -> nat {
        self.finished as nat
    }

    /// A driver before its first frame.
    pub fn new() -> (driver: Self)
        ensures
            driver.frame_state() == FrameState::Idle,
            driver.finished_frames() == 0,
    {
        FrameDriver { state: FrameState::Idle, finished: 0 }
    }

    /// How far the current frame has come.
    pub fn state(&self) -> (state: FrameState)
        ensures
            state == self.frame_state(),
    {
        self.state
    }

    /// Number of frames that are over.
    pub fn frames_completed(&self) -> (count: u64)
        ensures
            count == self.finished_frames(),
    {
        self.finished
    }

    /// Takes a report of the host and says what comes next.
    ///
    /// A report that does not fit the state of the frame is rejected and
    /// changes nothing. The frame counter has room for every frame that a
    /// machine can render.
    pub fn step(&mut self, event: FrameEvent) -> (action: FrameAction)
        requires
            old(self).finished_frames() < u64::MAX,
        ensures
            final(self).frame_state() == transition(old(self).frame_state(), event).0,
            action == transition(old(self).frame_state(), event).1,
            final(self).finished_frames() == frames_after(
                old(self).frame_state(),
                event,
                old(self).finished_frames(),
            ),
    {
        let (next, action) = match (self.state, event) {
            (FrameState::Idle, FrameEvent::BeginFrame) => (
                FrameState::Idle,
                FrameAction::CreateViews,
            ),
            (FrameState::Presented, FrameEvent::BeginFrame) => (
                FrameState::Idle,
                FrameAction::CreateViews,
            ),
            (FrameState::CompileFailed, FrameEvent::BeginFrame) => (
                FrameState::Idle,
                FrameAction::CreateViews,
            ),
            (FrameState::SubmitFailed, FrameEvent::BeginFrame) => (
                FrameState::Idle,
                FrameAction::CreateViews,
            ),
            (FrameState::PresentFailed, FrameEvent::BeginFrame) => (
                FrameState::Idle,
                FrameAction::CreateViews,
            ),
            (FrameState::Idle, FrameEvent::ViewsCreated) => (
                FrameState::ViewsCreated,
                FrameAction::QueryVisibility,
            ),
            (FrameState::ViewsCreated, FrameEvent::VisibilityQueried) => (
                FrameState::VisibilityQueried,
                FrameAction::BuildFramePacket,
            ),
            (FrameState::VisibilityQueried, FrameEvent::PacketBuilt) => (
                FrameState::PacketBuilt,
                FrameAction::BuildGraph,
            ),
            (FrameState::PacketBuilt, FrameEvent::ImageAcquireFailed) => (
                FrameState::PacketBuilt,
                FrameAction::RecreateSwapchain,
            ),
            (FrameState::PacketBuilt, FrameEvent::GraphBuilt) => (
                FrameState::GraphBuilt,
                FrameAction::CompileGraph,
            ),
            (FrameState::GraphBuilt, FrameEvent::GraphCompiled) => (
                FrameState::GraphCompiled,
                FrameAction::Submit,
            ),
            (FrameState::GraphBuilt, FrameEvent::GraphCompileFailed) => (
                FrameState::CompileFailed,
                FrameAction::AbandonFrame,
            ),
            (FrameState::GraphCompiled, FrameEvent::Submitted) => (
                FrameState::Submitted,
                FrameAction::Present,
            ),
            (FrameState::GraphCompiled, FrameEvent::SubmitFailed) => (
                FrameState::SubmitFailed,
                FrameAction::AbandonFrame,
            ),
            (FrameState::Submitted, FrameEvent::Presented) => (
                FrameState::Presented,
                FrameAction::CompleteFrame,
            ),
            (FrameState::Submitted, FrameEvent::PresentFailed) => (
                FrameState::PresentFailed,
                FrameAction::RecreateSwapchain,
            ),
            _ => (self.state, FrameAction::Rejected),
        };
        let over: bool = match self.state {
            FrameState::Presented => true,
            FrameState::CompileFailed => true,
            FrameState::SubmitFailed => true,
            FrameState::PresentFailed => true,
            _ => false,
        };
        let begins: bool = match event {
            FrameEvent::BeginFrame => true,
            _ => false,
        };
        if over && begins {
            self.finished = self.finished + 1;
        }
        self.state = next;
        action
    }
}

/// The reports of a frame in which all goes well.
pub open spec fn successful_frame() -> Seq<FrameEvent> {
    seq![
        FrameEvent::ViewsCreated,
        FrameEvent::VisibilityQueried,
        FrameEvent::PacketBuilt,
        FrameEvent::GraphBuilt,
        FrameEvent::GraphCompiled,
        FrameEvent::Submitted,
        FrameEvent::Presented,
    ]
}

/// A frame in which all goes well leads from `Idle` through every state in
/// turn to `Presented`.
pub proof fn law_successful_frame_is_presented()
    ensures
        run(FrameState::Idle, successful_frame().take(1)) == FrameState::ViewsCreated,
        run(FrameState::Idle, successful_frame().take(2)) == FrameState::VisibilityQueried,
        run(FrameState::Idle, successful_frame().take(3)) == FrameState::PacketBuilt,
        run(FrameState::Idle, successful_frame().take(4)) == FrameState::GraphBuilt,
        run(FrameState::Idle, successful_frame().take(5)) == FrameState::GraphCompiled,
        run(FrameState::Idle, successful_frame().take(6)) == FrameState::Submitted,
        run(FrameState::Idle, successful_frame()) == FrameState::Presented,
{
    let all = successful_frame();
    assert(all.take(0) =~= Seq::<FrameEvent>::empty());
    assert(all.take(1).drop_last() =~= all.take(0));
    assert(all.take(2).drop_last() =~= all.take(1));
    assert(all.take(3).drop_last() =~= all.take(2));
    assert(all.take(4).drop_last() =~= all.take(3));
    assert(all.take(5).drop_last() =~= all.take(4));
    assert(all.take(6).drop_last() =~= all.take(5));
    assert(all.drop_last() =~= all.take(6));
    assert(run(FrameState::Idle, all.take(0)) == FrameState::Idle);
    assert(run(FrameState::Idle, all.take(1)) == FrameState::ViewsCreated);
    assert(run(FrameState::Idle, all.take(2)) == FrameState::VisibilityQueried);
    assert(run(FrameState::Idle, all.take(3)) == FrameState::PacketBuilt);
    assert(run(FrameState::Idle, all.take(4)) == FrameState::GraphBuilt);
    assert(run(FrameState::Idle, all.take(5)) == FrameState::GraphCompiled);
    assert(run(FrameState::Idle, all.take(6)) == FrameState::Submitted);
}

/// A frame that is over stays as it is until the next frame begins: every
/// other report is rejected. So a frame whose graph did not compile is never
/// submitted, and a frame that was not submitted is never presented.
pub proof fn law_finished_frame_waits_for_next(state: FrameState, event: FrameEvent)
    requires
        is_terminal(state),
    ensures
        event is BeginFrame ==> transition(state, event) == (
            FrameState::Idle,
            FrameAction::CreateViews,
        ),
        !(event is BeginFrame) ==> transition(state, event) == (state, FrameAction::Rejected),
{
}

/// Whatever is reported after a frame has failed, no state of that frame is
/// reached again: the run stays in the failure until a new frame begins.
pub proof fn law_failed_frame_is_abandoned(state: FrameState, events: Seq<FrameEvent>)
    requires
        is_failure(state),
        forall|i: int| 0 <= i < events.len() ==> !(#[trigger] events[i] is BeginFrame),
    ensures
        run(state, events) == state,
    decreases events.len(),
{
    if events.len() > 0 {
        assert forall|i: int| 0 <= i < events.drop_last().len() implies !(
        #[trigger] events.drop_last()[i] is BeginFrame) by {
            assert(events.drop_last()[i] == events[i]);
        }
        law_failed_frame_is_abandoned(state, events.drop_last());
        assert(!(events[events.len() - 1] is BeginFrame));
    }
}

/// The graph is built only after the frame packet was turned over, and
/// commands are submitted only after the graph compiled: a step reaches
/// `GraphBuilt` only from `PacketBuilt`, `GraphCompiled` only from
/// `GraphBuilt`, `Submitted` only from `GraphCompiled` and `Presented` only
/// from `Submitted`.
pub proof fn law_steps_come_in_order(state: FrameState, event: FrameEvent)
    ensures
        ({
            let next = transition(state, event).0;
            &&& next is GraphBuilt && !(state is GraphBuilt) ==> state is PacketBuilt
            &&& next is GraphCompiled && !(state is GraphCompiled) ==> state is GraphBuilt
            &&& next is Submitted && !(state is Submitted) ==> state is GraphCompiled
            &&& next is Presented && !(state is Presented) ==> state is Submitted
            &&& next is PacketBuilt && !(state is PacketBuilt) ==> state is VisibilityQueried
            &&& next is VisibilityQueried && !(state is VisibilityQueried) ==> state is ViewsCreated
        }),
{
}

/// The count of finished frames never goes down, and goes up by one exactly
/// when a new frame begins after a frame that is over.
pub proof fn law_frames_are_counted_once(state: FrameState, event: FrameEvent, finished: nat)
    ensures
        frames_after(state, event, finished) >= finished,
        frames_after(state, event, finished) <= finished + 1,
        frames_after(state, event, finished) == finished + 1 <==> (is_terminal(state) && event
            is BeginFrame),
{
}

} // verus!
