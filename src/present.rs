use vstd::prelude::*;

verus! {

/// Where the presentation loop stands.
#[derive(Clone, Copy, Debug, PartialEq, Eq, Structural)]
pub enum LoopState {
    /// Waiting for a free swapchain image.
    Acquiring,
    /// An image was acquired; its command list is to be submitted and presented.
    Submitting { image: usize },
    /// This iteration's submission is scheduled; the close signal is to be polled.
    Polling,
    Stopped,
}

/// What the outside world reports back after performing an action.
#[derive(Clone, Copy, Debug, PartialEq, Eq, Structural)]
pub enum LoopEvent {
    ImageAcquired { image: usize },
    SurfaceLost,
    Submitted,
    CloseSignal { requested: bool },
}

/// What the loop asks the outside world to do next.
#[derive(Clone, Copy, Debug, PartialEq, Eq, Structural)]
pub enum LoopAction {
    AcquireImage,
    SubmitAndPresent { image: usize },
    PollClose,
    Stop,
    Nothing,
}

/// The action a state is waiting to see carried out.
pub open spec fn awaited_action(s: LoopState) -> LoopAction {
    match s {
        LoopState::Acquiring => LoopAction::AcquireImage,
        LoopState::Submitting { image } => LoopAction::SubmitAndPresent { image },
        LoopState::Polling => LoopAction::PollClose,
        LoopState::Stopped => LoopAction::Nothing,
    }
}

/// One transition of the loop. An event that does not answer the state's
/// awaited action leaves the state as it is and asks for that action again.
pub open spec fn step_spec(s: LoopState, e: LoopEvent) -> (LoopState, LoopAction) {
    match (s, e) {
        (LoopState::Acquiring, LoopEvent::ImageAcquired { image }) => (
            LoopState::Submitting { image },
            LoopAction::SubmitAndPresent { image },
        ),
        (LoopState::Acquiring, LoopEvent::SurfaceLost) => (LoopState::Stopped, LoopAction::Stop),
        (LoopState::Submitting { .. }, LoopEvent::Submitted) => (
            LoopState::Polling,
            LoopAction::PollClose,
        ),
        (LoopState::Polling, LoopEvent::CloseSignal { requested }) => if requested {
            (LoopState::Stopped, LoopAction::Stop)
        } else {
            (LoopState::Acquiring, LoopAction::AcquireImage)
        },
        _ => (s, awaited_action(s)),
    }
}

/// The state the loop starts in and its first action.
pub fn loop_start() -> (r: (LoopState, LoopAction))
    ensures
        r == (LoopState::Acquiring, LoopAction::AcquireImage),
{
    (LoopState::Acquiring, LoopAction::AcquireImage)
}

/// Advances the loop by one reported event.
pub fn loop_step(s: LoopState, e: LoopEvent) -> (r: (LoopState, LoopAction))
    ensures
        r == step_spec(s, e),
{
    match (s, e) {
        (LoopState::Acquiring, LoopEvent::ImageAcquired { image }) => (
            LoopState::Submitting { image },
            LoopAction::SubmitAndPresent { image },
        ),
        (LoopState::Acquiring, LoopEvent::SurfaceLost) => (LoopState::Stopped, LoopAction::Stop),
        (LoopState::Submitting { .. }, LoopEvent::Submitted) => (
            LoopState::Polling,
            LoopAction::PollClose,
        ),
        (LoopState::Polling, LoopEvent::CloseSignal { requested }) => if requested {
            (LoopState::Stopped, LoopAction::Stop)
        } else {
            (LoopState::Acquiring, LoopAction::AcquireImage)
        },
        _ => {
            let a = match s {
                LoopState::Acquiring => LoopAction::AcquireImage,
                LoopState::Submitting { image } => LoopAction::SubmitAndPresent { image },
                LoopState::Polling => LoopAction::PollClose,
                LoopState::Stopped => LoopAction::Nothing,
            };
            (s, a)
        },
    }
}

/// The actions the loop asks for while it is fed `events`, starting in `s`.
pub open spec fn run_actions(s: LoopState, events: Seq<LoopEvent>) -> Seq<LoopAction>
    decreases events.len(),
{
    if events.len() == 0 {
        Seq::empty()
    } else {
        let (s2, a) = step_spec(s, events[0]);
        seq![a] + run_actions(s2, events.drop_first())
    }
}

proof fn lemma_stopped_is_quiet(events: Seq<LoopEvent>)
    ensures
        run_actions(LoopState::Stopped, events).len() == events.len(),
        forall|i: int|
            0 <= i < events.len() ==> #[trigger] run_actions(LoopState::Stopped, events)[i]
                == LoopAction::Nothing,
    decreases events.len(),
{
    if events.len() > 0 {
        lemma_stopped_is_quiet(events.drop_first());
        let rest = run_actions(LoopState::Stopped, events.drop_first());
        assert forall|i: int| 0 <= i < events.len() implies #[trigger] run_actions(
            LoopState::Stopped,
            events,
        )[i] == LoopAction::Nothing by {
            if i > 0 {
                assert(run_actions(LoopState::Stopped, events)[i] == rest[i - 1]);
            }
        }
    }
}

/// A close signal seen while polling, that is after the iteration's submission
/// was scheduled, stops the loop at once, and whatever is reported afterwards
/// it never acquires another image.
pub proof fn lemma_close_stops_loop(events: Seq<LoopEvent>)
    requires
        events.len() > 0,
        events[0] == (LoopEvent::CloseSignal { requested: true }),
    ensures
        run_actions(LoopState::Polling, events)[0] == LoopAction::Stop,
        forall|i: int|
            0 <= i < events.len() ==> #[trigger] run_actions(LoopState::Polling, events)[i]
                != LoopAction::AcquireImage,
{
    lemma_stopped_is_quiet(events.drop_first());
    let rest = run_actions(LoopState::Stopped, events.drop_first());
    assert forall|i: int| 0 <= i < events.len() implies #[trigger] run_actions(
        LoopState::Polling,
        events,
    )[i] != LoopAction::AcquireImage by {
        if i > 0 {
            assert(run_actions(LoopState::Polling, events)[i] == rest[i - 1]);
        }
    }
}

/// The loop reaches `Polling` only by way of a reported submission.
pub proof fn lemma_polling_follows_submission(s: LoopState, e: LoopEvent)
    requires
        s != LoopState::Polling,
        step_spec(s, e).0 == LoopState::Polling,
    ensures
        s is Submitting,
        e == LoopEvent::Submitted,
{
}

} // verus!
