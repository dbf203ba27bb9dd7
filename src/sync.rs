use vstd::prelude::*;

verus! {

/// Observable state of a completion token.
#[derive(Clone, Copy, Debug, PartialEq, Eq, Structural)]
pub enum FenceState {
    Pending,
    Signaled,
    /// Terminal failure, with the driver's error code.
    Faulted { code: i32 },
}

#[derive(Clone, Copy, Debug, PartialEq, Eq, Structural)]
pub enum SyncError {
    Timeout,
    SubmissionFaulted { code: i32 },
}

/// What a waiting host does next, given what it has just observed.
#[derive(Clone, Copy, Debug, PartialEq, Eq)]
pub enum WaitStep {
    /// Stop waiting and hand this result to the caller.
    Done(Result<(), SyncError>),
    /// Keep blocking and observe the fence again.
    Block,
}

pub open spec fn wait_step_spec(state: FenceState, timeout: Option<u64>, elapsed: u64) -> WaitStep {
    match state {
        FenceState::Signaled => WaitStep::Done(Ok(())),
        FenceState::Faulted { code } => WaitStep::Done(Err(SyncError::SubmissionFaulted { code })),
        FenceState::Pending => match timeout {
            Some(d) => if elapsed >= d {
                WaitStep::Done(Err(SyncError::Timeout))
            } else {
                WaitStep::Block
            },
            None => WaitStep::Block,
        },
    }
}

/// One decision of `wait`: `state` is the fence as last observed, `timeout`
/// the caller's limit (`None`: wait for ever) and `elapsed` the time spent
/// waiting so far, in the same unit.
pub fn wait_step(state: FenceState, timeout: Option<u64>, elapsed: u64) -> (r: WaitStep)
    ensures
        r == wait_step_spec(state, timeout, elapsed),
{
    match state {
        FenceState::Signaled => WaitStep::Done(Ok(())),
        FenceState::Faulted { code } => WaitStep::Done(Err(SyncError::SubmissionFaulted { code })),
        FenceState::Pending => match timeout {
            Some(d) => if elapsed >= d {
                WaitStep::Done(Err(SyncError::Timeout))
            } else {
                WaitStep::Block
            },
            None => WaitStep::Block,
        },
    }
}

/// A zero timeout on a pending fence ends the wait at once with `Timeout`,
/// whatever time has passed: it never blocks.
pub proof fn lemma_zero_timeout_never_blocks(elapsed: u64)
    ensures
        wait_step_spec(FenceState::Pending, Some(0), elapsed) == WaitStep::Done(
            Err(SyncError::Timeout),
        ),
{
}

/// State of a chain of stages (submit, then present, then signal), each of
/// which starts after the one before it: the first fault ends the chain,
/// otherwise it is signaled once every stage is.
pub open spec fn chain_state(stages: Seq<FenceState>) -> FenceState
    decreases stages.len(),
{
    if stages.len() == 0 {
        FenceState::Signaled
    } else {
        match stages[0] {
            FenceState::Faulted { code } => FenceState::Faulted { code },
            FenceState::Pending => FenceState::Pending,
            FenceState::Signaled => chain_state(stages.drop_first()),
        }
    }
}

/// The state of a future chain, from the states of its stages in order.
pub fn chain(stages: &Vec<FenceState>) -> (r: FenceState)
    ensures
        r == chain_state(stages@),
{
    let mut i: usize = 0;
    assert(stages@.subrange(0, stages@.len() as int) =~= stages@);
    while i < stages.len()
        invariant
            i <= stages@.len(),
            chain_state(stages@) == chain_state(stages@.subrange(i as int, stages@.len() as int)),
        decreases stages@.len() - i,
    {
        let tail = Ghost(stages@.subrange(i as int, stages@.len() as int));
        assert(tail@[0] == stages@[i as int]);
        match stages[i] {
            FenceState::Faulted { code } => {
                return FenceState::Faulted { code };
            },
            FenceState::Pending => {
                return FenceState::Pending;
            },
            FenceState::Signaled => {
                assert(tail@.drop_first() =~= stages@.subrange(i + 1, stages@.len() as int));
            },
        }
        i = i + 1;
    }
    assert(stages@.subrange(i as int, stages@.len() as int) =~= Seq::<FenceState>::empty());
    FenceState::Signaled
}

/// A chain is signaled exactly when each of its stages is.
pub proof fn lemma_chain_signaled(stages: Seq<FenceState>)
    ensures
        chain_state(stages) == FenceState::Signaled <==> forall|i: int|
            0 <= i < stages.len() ==> #[trigger] stages[i] == FenceState::Signaled,
    decreases stages.len(),
{
    if stages.len() > 0 {
        lemma_chain_signaled(stages.drop_first());
        if chain_state(stages) == FenceState::Signaled {
            assert forall|i: int| 0 <= i < stages.len() implies #[trigger] stages[i]
                == FenceState::Signaled by {
                if i > 0 {
                    assert(stages[i] == stages.drop_first()[i - 1]);
                }
            }
        }
        if forall|i: int| 0 <= i < stages.len() ==> #[trigger] stages[i] == FenceState::Signaled {
            assert forall|i: int| 0 <= i < stages.drop_first().len() implies #[trigger] stages.drop_first()[i]
                == FenceState::Signaled by {
                assert(stages.drop_first()[i] == stages[i + 1]);
            }
        }
    }
}

} // verus!
