use gpu_core::present::{loop_start, loop_step, LoopAction, LoopEvent, LoopState};
use gpu_core::sync::{chain, wait_step, FenceState, SyncError, WaitStep};

#[test]
fn zero_timeout_on_pending_times_out() {
    assert_eq!(wait_step(FenceState::Pending, Some(0), 0), WaitStep::Done(Err(SyncError::Timeout)));
    assert_eq!(wait_step(FenceState::Pending, Some(0), 7), WaitStep::Done(Err(SyncError::Timeout)));
}

#[test]
fn wait_outcomes() {
    assert_eq!(wait_step(FenceState::Signaled, Some(0), 0), WaitStep::Done(Ok(())));
    assert_eq!(
        wait_step(FenceState::Faulted { code: -4 }, None, 0),
        WaitStep::Done(Err(SyncError::SubmissionFaulted { code: -4 }))
    );
    assert_eq!(wait_step(FenceState::Pending, None, 1_000_000), WaitStep::Block);
    assert_eq!(wait_step(FenceState::Pending, Some(10), 9), WaitStep::Block);
    assert_eq!(wait_step(FenceState::Pending, Some(10), 10), WaitStep::Done(Err(SyncError::Timeout)));
}

#[test]
fn chain_states() {
    assert_eq!(chain(&vec![]), FenceState::Signaled);
    assert_eq!(chain(&vec![FenceState::Signaled, FenceState::Signaled]), FenceState::Signaled);
    assert_eq!(chain(&vec![FenceState::Signaled, FenceState::Pending, FenceState::Faulted { code: 1 }]), FenceState::Pending);
    assert_eq!(chain(&vec![FenceState::Signaled, FenceState::Faulted { code: 3 }, FenceState::Pending]), FenceState::Faulted { code: 3 });
}

/// Feeds the loop a scripted world in which the close signal comes on
/// iteration `close_on` (counted from 0); returns the actions asked for.
fn run_until_stop(close_on: usize) -> Vec<LoopAction> {
    let (mut s, mut a) = loop_start();
    let mut actions = vec![a];
    let mut iteration = 0usize;
    while s != LoopState::Stopped {
        let e = match a {
            LoopAction::AcquireImage => LoopEvent::ImageAcquired { image: iteration % 3 },
            LoopAction::SubmitAndPresent { .. } => LoopEvent::Submitted,
            LoopAction::PollClose => {
                let ev = LoopEvent::CloseSignal { requested: iteration == close_on };
                iteration += 1;
                ev
            }
            LoopAction::Stop | LoopAction::Nothing => unreachable!(),
        };
        let (s2, a2) = loop_step(s, e);
        s = s2;
        a = a2;
        actions.push(a);
    }
    actions
}

#[test]
fn close_signal_stops_after_that_iterations_submission() {
    let actions = run_until_stop(2);
    let acquires = actions.iter().filter(|a| **a == LoopAction::AcquireImage).count();
    let submits = actions.iter().filter(|a| matches!(a, LoopAction::SubmitAndPresent { .. })).count();
    assert_eq!(acquires, 3);
    assert_eq!(submits, 3);
    assert_eq!(actions.last(), Some(&LoopAction::Stop));
    assert_eq!(actions[actions.len() - 2], LoopAction::PollClose);
    assert_eq!(loop_step(LoopState::Stopped, LoopEvent::ImageAcquired { image: 0 }), (LoopState::Stopped, LoopAction::Nothing));
}

#[test]
fn surface_lost_stops_loop() {
    assert_eq!(loop_step(LoopState::Acquiring, LoopEvent::SurfaceLost), (LoopState::Stopped, LoopAction::Stop));
}

#[test]
fn unexpected_event_repeats_awaited_action() {
    assert_eq!(
        loop_step(LoopState::Submitting { image: 1 }, LoopEvent::CloseSignal { requested: true }),
        (LoopState::Submitting { image: 1 }, LoopAction::SubmitAndPresent { image: 1 })
    );
    assert_eq!(loop_step(LoopState::Polling, LoopEvent::Submitted), (LoopState::Polling, LoopAction::PollClose));
    assert_eq!(
        loop_step(LoopState::Polling, LoopEvent::CloseSignal { requested: false }),
        (LoopState::Acquiring, LoopAction::AcquireImage)
    );
}
