use vstd::prelude::*;
use crate::command::{CommandList, Op};
use crate::sync::{FenceState, WaitStep, chain, chain_state, wait_step, wait_step_spec};

verus! {

/// A resource as command lists name it.
#[derive(Clone, Copy, Debug, PartialEq, Eq, Structural)]
pub enum ResourceRef {
    Buffer { index: usize },
    Image { index: usize },
    DescriptorSet { index: usize },
    Framebuffer { index: usize },
}

/// `op` reads or writes `r`.
pub open spec fn op_touches(op: Op, r: ResourceRef) -> bool {
    match op {
        Op::BeginRenderPass { framebuffer, .. } => r == ResourceRef::Framebuffer { index: framebuffer },
        Op::Draw { vertex_buffer, .. } => r == ResourceRef::Buffer { index: vertex_buffer },
        Op::Dispatch { descriptor_set, .. } => r == ResourceRef::DescriptorSet {
            index: descriptor_set,
        },
        Op::CopyImageToBuffer { image, buffer } => r == ResourceRef::Image { index: image } || r
            == ResourceRef::Buffer { index: buffer },
        Op::EndRenderPass => false,
    }
}

pub fn touches(op: &Op, r: &ResourceRef) -> (b: bool)
    ensures
        b == op_touches(*op, *r),
{
    match *op {
        Op::BeginRenderPass { framebuffer, .. } => *r == ResourceRef::Framebuffer { index: framebuffer },
        Op::Draw { vertex_buffer, .. } => *r == ResourceRef::Buffer { index: vertex_buffer },
        Op::Dispatch { descriptor_set, .. } => *r == ResourceRef::DescriptorSet { index: descriptor_set },
        Op::CopyImageToBuffer { image, buffer } => *r == ResourceRef::Image { index: image } || *r
            == ResourceRef::Buffer { index: buffer },
        Op::EndRenderPass => false,
    }
}

/// Some operation of `ops` reads or writes `r`.
pub open spec fn list_touches(ops: Seq<Op>, r: ResourceRef) -> bool {
    exists|i: int| 0 <= i < ops.len() && op_touches(#[trigger] ops[i], r)
}

/// The submissions the host has handed to one queue, oldest first: their
/// ids, their operations, their completion states and the earlier submission
/// (by index) each one waits on, index for index. It alone decides when a
/// resource is free for the host to touch again.
pub struct Engine {
    pub ids: Vec<u64>,
    pub lists: Vec<Vec<Op>>,
    pub states: Vec<FenceState>,
    pub waits: Vec<Option<usize>>,
    pub next_id: u64,
}

#[derive(Clone, Copy, Debug, PartialEq, Eq, Structural)]
pub enum SubmitError {
    /// Every submission id has been handed out.
    IdsExhausted,
    /// The submission to wait on is not recorded.
    UnknownWait,
}

/// What a wait on submission `i` of `e` observes: its own state, chained after
/// that of the submission it waits on.
pub open spec fn future_state(e: Engine, i: int) -> FenceState {
    match e.waits@[i] {
        None => e.states@[i],
        Some(j) => chain_state(seq![e.states@[j as int], e.states@[i]]),
    }
}

/// Submission `i` of `e` is still in flight and touches `r`.
pub open spec fn in_flight_on(e: Engine, i: int, r: ResourceRef) -> bool {
    &&& 0 <= i < e.states@.len()
    &&& e.states@[i] == FenceState::Pending
    &&& list_touches(e.lists@[i]@, r)
}

/// The host may read or write `r`: no submission in flight touches it.
pub open spec fn host_may_touch(e: Engine, r: ResourceRef) -> bool {
    forall|i: int| !#[trigger] in_flight_on(e, i, r)
}

impl Engine {
    /// The records line up, ids rise strictly and stay below `next_id`, and
    /// each submission waits only on an earlier one.
    pub open spec fn wf(&self) -> bool {
        &&& self.lists@.len() == self.ids@.len()
        &&& self.states@.len() == self.ids@.len()
        &&& self.waits@.len() == self.ids@.len()
        &&& forall|i: int|
            0 <= i < self.ids@.len() ==> (#[trigger] self.waits@[i] matches Some(j) ==> j < i)
        &&& forall|i: int| 0 <= i < self.ids@.len() ==> #[trigger] self.ids@[i] < self.next_id
        &&& forall|i: int, j: int|
            0 <= i < j < self.ids@.len() ==> #[trigger] self.ids@[i] < #[trigger] self.ids@[j]
    }

    pub fn new() -> (r: Engine)
        ensures
            r.wf(),
            r.ids@.len() == 0,
            r.next_id == 0,
    {
        Engine { ids: Vec::new(), lists: Vec::new(), states: Vec::new(), waits: Vec::new(), next_id: 0 }
    }

    /// Hands `cl` to the queue, to start once submission `wait_on` (if any)
    /// has. Returns the new submission's id; fails, changing nothing, once
    /// every id has been used or where `wait_on` is not recorded.
    pub fn submit(&mut self, cl: &CommandList, wait_on: Option<u64>) -> (r: Result<u64, SubmitError>)
        requires
            old(self).wf(),
        ensures
            final(self).wf(),
            old(self).next_id == u64::MAX ==> r == Err::<u64, SubmitError>(SubmitError::IdsExhausted),
            old(self).next_id < u64::MAX && (wait_on matches Some(p) && forall|i: int|
                0 <= i < old(self).ids@.len() ==> #[trigger] old(self).ids@[i] != p) ==> r == Err::<
                u64,
                SubmitError,
            >(SubmitError::UnknownWait),
            r is Err ==> *final(self) == *old(self),
            r is Ok ==> {
                &&& r == Ok::<u64, SubmitError>(old(self).next_id)
                &&& final(self).waits@.drop_last() == old(self).waits@
                &&& (final(self).waits@.last() is Some <==> wait_on is Some)
                &&& (final(self).waits@.last() matches Some(j) ==> wait_on == Some(
                    old(self).ids@[j as int],
                ))
                &&& final(self).next_id == old(self).next_id + 1
                &&& final(self).ids@ == old(self).ids@.push(old(self).next_id)
                &&& final(self).states@ == old(self).states@.push(FenceState::Pending)
                &&& final(self).lists@.len() == old(self).lists@.len() + 1
                &&& final(self).lists@.drop_last() == old(self).lists@
                &&& final(self).lists@.last()@ == cl@
            },
            old(self).next_id < u64::MAX && (wait_on matches Some(p) ==> exists|i: int|
                0 <= i < old(self).ids@.len() && #[trigger] old(self).ids@[i] == p) ==> r is Ok,
            forall|res: ResourceRef|
                r is Ok && list_touches(cl@, res) ==> !#[trigger] host_may_touch(*final(self), res),
    {
        if self.next_id == u64::MAX {
            return Err(SubmitError::IdsExhausted);
        }
        let wait = match wait_on {
            Some(p) => match self.find(p) {
                Some(j) => Some(j),
                None => {
                    return Err(SubmitError::UnknownWait);
                },
            },
            None => None,
        };
        let id = self.next_id;
        let src = cl.ops();
        let mut ops: Vec<Op> = Vec::new();
        let mut k: usize = 0;
        while k < src.len()
            invariant
                k <= src@.len(),
                ops@ == src@.subrange(0, k as int),
            decreases src@.len() - k,
        {
            ops.push(src[k]);
            assert(ops@ =~= src@.subrange(0, k + 1));
            k = k + 1;
        }
        assert(ops@ =~= cl@);
        self.ids.push(id);
        self.lists.push(ops);
        self.states.push(FenceState::Pending);
        self.waits.push(wait);
        self.next_id = id + 1;
        proof {
            assert(self.lists@.drop_last() =~= old(self).lists@);
            assert(self.waits@.drop_last() =~= old(self).waits@);
            let n = self.ids@.len() - 1;
            assert forall|res: ResourceRef| list_touches(cl@, res) implies !#[trigger] host_may_touch(
                *self,
                res,
            ) by {
                assert(in_flight_on(*self, n, res));
            }
        }
        Ok(id)
    }

    /// Index of submission `id`, if it is recorded.
    fn find(&self, id: u64) -> (r: Option<usize>)
        requires
            self.wf(),
        ensures
            match r {
                Some(i) => i < self.ids@.len() && self.ids@[i as int] == id,
                None => forall|i: int| 0 <= i < self.ids@.len() ==> #[trigger] self.ids@[i] != id,
            },
    {
        let mut i: usize = 0;
        while i < self.ids.len()
            invariant
                i <= self.ids@.len(),
                forall|k: int| 0 <= k < i ==> #[trigger] self.ids@[k] != id,
            decreases self.ids@.len() - i,
        {
            if self.ids[i] == id {
                return Some(i);
            }
            i = i + 1;
        }
        None
    }

    /// The state of submission `id`; `None` where no such submission is recorded.
    pub fn state_of(&self, id: u64) -> (r: Option<FenceState>)
        requires
            self.wf(),
        ensures
            match r {
                Some(s) => exists|i: int|
                    0 <= i < self.ids@.len() && #[trigger] self.ids@[i] == id && self.states@[i] == s,
                None => forall|i: int| 0 <= i < self.ids@.len() ==> #[trigger] self.ids@[i] != id,
            },
    {
        match self.find(id) {
            Some(i) => Some(self.states[i]),
            None => None,
        }
    }

    /// Records the device's report on submission `id`: `Ok` when its work
    /// completed, `Err(code)` when it faulted. Only a pending submission
    /// changes, and only it; a completed one keeps its terminal state.
    /// Returns whether a pending submission was updated.
    pub fn complete(&mut self, id: u64, outcome: Result<(), i32>) -> (r: bool)
        requires
            old(self).wf(),
        ensures
            final(self).wf(),
            final(self).ids@ == old(self).ids@,
            final(self).lists@ == old(self).lists@,
            final(self).waits@ == old(self).waits@,
            final(self).next_id == old(self).next_id,
            r <==> exists|i: int|
                0 <= i < old(self).ids@.len() && #[trigger] old(self).ids@[i] == id
                    && old(self).states@[i] == FenceState::Pending,
            forall|i: int|
                0 <= i < old(self).ids@.len() ==> #[trigger] final(self).states@[i] == if old(
                    self,
                ).ids@[i] == id && old(self).states@[i] == FenceState::Pending {
                    match outcome {
                        Ok(_) => FenceState::Signaled,
                        Err(code) => FenceState::Faulted { code },
                    }
                } else {
                    old(self).states@[i]
                },
            final(self).states@.len() == old(self).states@.len(),
    {
        match self.find(id) {
            Some(i) => {
                if self.states[i] != FenceState::Pending {
                    proof {
                        assert forall|j: int| 0 <= j < self.ids@.len() && #[trigger] self.ids@[j]
                            == id implies j == i by {
                            if j < i {
                                assert(self.ids@[j] < self.ids@[i as int]);
                            } else if j > i {
                                assert(self.ids@[i as int] < self.ids@[j]);
                            }
                        }
                    }
                    return false;
                }
                let s = match outcome {
                    Ok(_) => FenceState::Signaled,
                    Err(code) => FenceState::Faulted { code },
                };
                self.states.set(i, s);
                proof {
                    assert forall|j: int| 0 <= j < self.ids@.len() && #[trigger] self.ids@[j]
                        == id implies j == i by {
                        if j < i {
                            assert(self.ids@[j] < self.ids@[i as int]);
                        } else if j > i {
                            assert(self.ids@[i as int] < self.ids@[j]);
                        }
                    }
                }
                true
            },
            None => false,
        }
    }

    /// Whether the host may read or write `r` now: no pending submission touches it.
    pub fn host_access_allowed(&self, r: &ResourceRef) -> (b: bool)
        requires
            self.wf(),
        ensures
            b == host_may_touch(*self, *r),
    {
        let mut i: usize = 0;
        while i < self.lists.len()
            invariant
                self.wf(),
                i <= self.lists@.len(),
                forall|k: int| 0 <= k < i ==> !#[trigger] in_flight_on(*self, k, *r),
            decreases self.lists@.len() - i,
        {
            if self.states[i] == FenceState::Pending {
                let ops = &self.lists[i];
                let mut k: usize = 0;
                while k < ops.len()
                    invariant
                        self.wf(),
                        i < self.lists@.len(),
                        *ops == self.lists@[i as int],
                        self.states@[i as int] == FenceState::Pending,
                        k <= ops@.len(),
                        forall|m: int| 0 <= m < k ==> !op_touches(#[trigger] ops@[m], *r),
                    decreases ops@.len() - k,
                {
                    if touches(&ops[k], r) {
                        assert(op_touches(self.lists@[i as int]@[k as int], *r));
                        assert(in_flight_on(*self, i as int, *r));
                        return false;
                    }
                    k = k + 1;
                }
            }
            i = i + 1;
        }
        assert forall|k: int| !#[trigger] in_flight_on(*self, k, *r) by {
            if 0 <= k < self.lists@.len() {
                assert(!in_flight_on(*self, k, *r));
            }
        }
        true
    }

    /// The state a wait on submission `id` observes: its own, chained after
    /// that of the submission it waits on. `None` where it is not recorded.
    pub fn future_state_of(&self, id: u64) -> (r: Option<FenceState>)
        requires
            self.wf(),
        ensures
            match r {
                Some(s) => exists|i: int|
                    0 <= i < self.ids@.len() && #[trigger] self.ids@[i] == id && s == future_state(
                        *self,
                        i,
                    ),
                None => forall|i: int| 0 <= i < self.ids@.len() ==> #[trigger] self.ids@[i] != id,
            },
    {
        match self.find(id) {
            Some(i) => {
                let own = self.states[i];
                match self.waits[i] {
                    None => Some(own),
                    Some(j) => {
                        let stages = vec![self.states[j], own];
                        assert(stages@ =~= seq![self.states@[j as int], own]);
                        Some(chain(&stages))
                    },
                }
            },
            None => None,
        }
    }

    /// One decision of a host wait on submission `id`, given the time spent
    /// waiting so far: `None` where no such submission is recorded.
    pub fn wait_on(&self, id: u64, timeout: Option<u64>, elapsed: u64) -> (r: Option<WaitStep>)
        requires
            self.wf(),
        ensures
            match r {
                Some(step) => exists|i: int|
                    0 <= i < self.ids@.len() && #[trigger] self.ids@[i] == id && step
                        == wait_step_spec(future_state(*self, i), timeout, elapsed),
                None => forall|i: int| 0 <= i < self.ids@.len() ==> #[trigger] self.ids@[i] != id,
            },
    {
        match self.future_state_of(id) {
            Some(s) => Some(wait_step(s, timeout, elapsed)),
            None => None,
        }
    }
}

} // verus!
