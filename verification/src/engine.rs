//! The device-side model that futures submit to: a set of serial queues, a
//! pool of binary semaphores, and a pool of fences.
//!
//! Submissions to one queue execute in submission order; submissions to
//! different queues are ordered only through explicit semaphore wait/signal
//! pairs. The engine records every accepted submission in a log, so the
//! exactly-once guarantees of the futures are stated over that log.

use vstd::prelude::*;

use crate::plan::{PlanS, SubmitPlan};

verus! {

/// Failure of a queue-level operation.
#[derive(Clone, Copy, Debug, PartialEq, Eq, Structural)]
pub enum SubmissionError {
    DeviceLost,
}

/// Failure while waiting on a fence.
#[derive(Clone, Copy, Debug, PartialEq, Eq, Structural)]
pub enum WaitError {
    Timeout,
    DeviceLost,
}

/// A binary synchronization primitive drawn from the device pool. It is
/// deliberately not `Clone`: a semaphore handle is moved, never shared, so a
/// signal can be merged into at most one plan.
pub struct Semaphore {
    pub id: u64,
    pub device: u64,
}

/// A host-observable completion flag for one device operation.
pub struct Fence {
    pub id: u64,
    pub device: u64,
}

/// One accepted queue submission.
pub struct SubmitRecord {
    pub queue: u64,
    pub plan: SubmitPlan,
}

/// Ghost counterpart of `SubmitRecord`.
pub ghost struct RecS {
    pub queue: u64,
    pub plan: PlanS,
}

/// The device model: queues addressed `0 .. queue_count`, a monotone
/// semaphore pool, a fence pool with per-fence completion state, a log of
/// accepted submissions, and a schedule of injected submission failures
/// (consumed front to back) so that error paths can be exercised.
pub struct Engine {
    pub device: u64,
    pub queue_count: u64,
    pub log: Vec<SubmitRecord>,
    pub fail_schedule: Vec<bool>,
    pub idle_waits: Vec<u64>,
    pub semaphores_acquired: u64,
    pub fences_acquired: u64,
    pub fence_ready: Vec<bool>,
}

impl Engine {
    /// One completion-state slot exists for every fence handed out.
    pub open spec fn wf(&self) -> bool {
        self.fence_ready@.len() == self.fences_acquired
    }

    /// The log of accepted submissions, abstractly.
    pub open spec fn logs(&self) -> Seq<RecS> {
        Seq::new(self.log@.len(), |i: int| RecS { queue: self.log@[i].queue, plan: self.log@[i].plan@ })
    }

    /// Whether the next `submit` call is scheduled to fail.
    pub open spec fn next_submit_fails(&self) -> bool {
        self.fail_schedule@.len() > 0 && self.fail_schedule@[0]
    }

    /// The schedule left after one `submit` call.
    pub open spec fn popped_schedule(&self) -> Seq<bool> {
        if self.fail_schedule@.len() > 0 {
            self.fail_schedule@.drop_first()
        } else {
            self.fail_schedule@
        }
    }

    /// Everything except the submission log and the failure schedule is the
    /// same in both states. Holds over each single `submit` call.
    pub open spec fn same_but_submissions(&self, other: &Engine) -> bool {
        &&& other.device == self.device
        &&& other.queue_count == self.queue_count
        &&& other.idle_waits@ == self.idle_waits@
        &&& other.semaphores_acquired == self.semaphores_acquired
        &&& other.fences_acquired == self.fences_acquired
        &&& other.fence_ready@ == self.fence_ready@
    }

    pub fn new(device: u64, queue_count: u64) -> (r: Engine)
        ensures
            r.wf(),
            r.device == device,
            r.queue_count == queue_count,
            r.logs() =~= Seq::<RecS>::empty(),
            r.fail_schedule@ =~= Seq::<bool>::empty(),
            r.idle_waits@ =~= Seq::<u64>::empty(),
            r.semaphores_acquired == 0,
            r.fences_acquired == 0,
    {
        Engine {
            device,
            queue_count,
            log: Vec::new(),
            fail_schedule: Vec::new(),
            idle_waits: Vec::new(),
            semaphores_acquired: 0,
            fences_acquired: 0,
            fence_ready: Vec::new(),
        }
    }

    /// Issue one submission to `queue`. Fails exactly when the front of the
    /// failure schedule says so; a failed submission is not logged.
    pub fn submit(&mut self, queue: u64, plan: SubmitPlan) -> (r: Result<(), SubmissionError>)
        requires
            old(self).wf(),
            queue < old(self).queue_count,
        ensures
            final(self).wf(),
            old(self).same_but_submissions(final(self)),
            final(self).fail_schedule@ == old(self).popped_schedule(),
            r is Err <==> old(self).next_submit_fails(),
            r is Ok ==> final(self).logs() =~= old(self).logs().push(
                RecS { queue, plan: plan@ },
            ),
            r is Err ==> final(self).logs() == old(self).logs(),
    {
        let fails: bool = if self.fail_schedule.len() > 0 {
            self.fail_schedule.remove(0)
        } else {
            false
        };
        if fails {
            Err(SubmissionError::DeviceLost)
        } else {
            self.log.push(SubmitRecord { queue, plan });
            Ok(())
        }
    }

    /// Block until `queue` has retired all its submissions. In this model the
    /// wait always succeeds and is recorded.
    pub fn wait_idle(&mut self, queue: u64) -> (r: Result<(), SubmissionError>)
        requires
            old(self).wf(),
            queue < old(self).queue_count,
        ensures
            final(self).wf(),
            r is Ok,
            final(self).idle_waits@ == old(self).idle_waits@.push(queue),
            final(self).device == old(self).device,
            final(self).queue_count == old(self).queue_count,
            final(self).logs() == old(self).logs(),
            final(self).fail_schedule@ == old(self).fail_schedule@,
            final(self).semaphores_acquired == old(self).semaphores_acquired,
            final(self).fences_acquired == old(self).fences_acquired,
            final(self).fence_ready@ == old(self).fence_ready@,
    {
        self.idle_waits.push(queue);
        Ok(())
    }

    /// Draw a fresh binary semaphore from the pool. The pool is a monotone
    /// counter, so an id, once handed out, is never reissued: a retired
    /// semaphore cannot be reused for a second signal.
    pub fn acquire_semaphore(&mut self) -> (s: Semaphore)
        requires
            old(self).wf(),
            old(self).semaphores_acquired < u64::MAX,
        ensures
            final(self).wf(),
            s.id == old(self).semaphores_acquired,
            s.device == old(self).device,
            final(self).semaphores_acquired == old(self).semaphores_acquired + 1,
            final(self).device == old(self).device,
            final(self).queue_count == old(self).queue_count,
            final(self).logs() == old(self).logs(),
            final(self).fail_schedule@ == old(self).fail_schedule@,
            final(self).idle_waits@ == old(self).idle_waits@,
            final(self).fences_acquired == old(self).fences_acquired,
            final(self).fence_ready@ == old(self).fence_ready@,
    {
        let id: u64 = self.semaphores_acquired;
        self.semaphores_acquired = self.semaphores_acquired + 1;
        Semaphore { id, device: self.device }
    }

    /// Draw a fresh fence. `ready` is its initial completion state: an
    /// operation that completed synchronously hands back an already signaled
    /// fence.
    pub fn acquire_fence(&mut self, ready: bool) -> (f: Fence)
        requires
            old(self).wf(),
            old(self).fences_acquired < u64::MAX,
        ensures
            final(self).wf(),
            f.id == old(self).fences_acquired,
            f.device == old(self).device,
            final(self).fences_acquired == old(self).fences_acquired + 1,
            final(self).fence_ready@ == old(self).fence_ready@.push(ready),
            final(self).device == old(self).device,
            final(self).queue_count == old(self).queue_count,
            final(self).logs() == old(self).logs(),
            final(self).fail_schedule@ == old(self).fail_schedule@,
            final(self).idle_waits@ == old(self).idle_waits@,
            final(self).semaphores_acquired == old(self).semaphores_acquired,
    {
        let id: u64 = self.fences_acquired;
        self.fences_acquired = self.fences_acquired + 1;
        self.fence_ready.push(ready);
        Fence { id, device: self.device }
    }

    /// The device retires the operation behind `fence_id`: its completion
    /// flag becomes observable to the host.
    pub fn signal_fence(&mut self, fence_id: u64)
        requires
            old(self).wf(),
            fence_id < old(self).fences_acquired,
        ensures
            final(self).wf(),
            final(self).fence_ready@ == old(self).fence_ready@.update(fence_id as int, true),
            final(self).device == old(self).device,
            final(self).queue_count == old(self).queue_count,
            final(self).logs() == old(self).logs(),
            final(self).fail_schedule@ == old(self).fail_schedule@,
            final(self).idle_waits@ == old(self).idle_waits@,
            final(self).semaphores_acquired == old(self).semaphores_acquired,
            final(self).fences_acquired == old(self).fences_acquired,
    {
        let n: usize = self.fence_ready.len();
        assert(fence_id < n);
        self.fence_ready.set(fence_id as usize, true);
    }

    /// Wait on a fence. Without a timeout the wait blocks until the device
    /// signals, so it always returns with the fence observed ready; with a
    /// timeout, a fence that is not yet ready times out.
    pub fn wait_fence(&mut self, fence: &Fence, timeout: Option<u64>) -> (r: Result<(), WaitError>)
        requires
            old(self).wf(),
            fence.id < old(self).fences_acquired,
        ensures
            final(self).wf(),
            final(self).device == old(self).device,
            final(self).queue_count == old(self).queue_count,
            final(self).logs() == old(self).logs(),
            final(self).fail_schedule@ == old(self).fail_schedule@,
            final(self).idle_waits@ == old(self).idle_waits@,
            final(self).semaphores_acquired == old(self).semaphores_acquired,
            final(self).fences_acquired == old(self).fences_acquired,
            old(self).fence_ready@[fence.id as int] ==> r is Ok
                && final(self).fence_ready@ == old(self).fence_ready@,
            !old(self).fence_ready@[fence.id as int] && timeout is None ==> r is Ok
                && final(self).fence_ready@ == old(self).fence_ready@.update(fence.id as int, true),
            !old(self).fence_ready@[fence.id as int] && timeout is Some ==> r
                == Result::<(), WaitError>::Err(WaitError::Timeout)
                && final(self).fence_ready@ == old(self).fence_ready@,
            r is Ok ==> final(self).fence_ready@[fence.id as int],
    {
        let n: usize = self.fence_ready.len();
        assert(fence.id < n);
        let idx: usize = fence.id as usize;
        if self.fence_ready[idx] {
            Ok(())
        } else if timeout.is_none() {
            self.fence_ready.set(idx, true);
            Ok(())
        } else {
            Err(WaitError::Timeout)
        }
    }

    /// How many submissions the engine has accepted so far.
    pub fn submission_count(&self) -> (n: usize)
        ensures
            n == self.logs().len(),
    {
        self.log.len()
    }
}

/// A log is a prefix of itself and of any extension of itself.
pub proof fn lemma_log_prefix_of_concat(a: Seq<RecS>, b: Seq<RecS>)
    ensures
        a.is_prefix_of(a + b),
        a.is_prefix_of(a),
{
    assert(a =~= (a + b).subrange(0, a.len() as int));
    assert(a =~= a.subrange(0, a.len() as int));
}

/// Extending the shared context on the left preserves prefixes.
pub proof fn lemma_log_prefix_extend(a: Seq<RecS>, p: Seq<RecS>, q: Seq<RecS>)
    requires
        p.is_prefix_of(q),
    ensures
        (a + p).is_prefix_of(a + q),
{
    assert((a + p) =~= (a + q).subrange(0, (a + p).len() as int));
}

/// Prefixes compose.
pub proof fn lemma_log_prefix_trans(a: Seq<RecS>, b: Seq<RecS>, c: Seq<RecS>)
    requires
        a.is_prefix_of(b),
        b.is_prefix_of(c),
    ensures
        a.is_prefix_of(c),
{
    assert(a =~= c.subrange(0, a.len() as int));
}

} // verus!
