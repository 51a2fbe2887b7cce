//! The signal decorator: wraps an upstream future and adds "when the
//! upstream work completes, also signal semaphore `S`", exposing `S` to a
//! downstream waiter.
//!
//! Its flush is idempotent: an "already submitted" flag makes the check and
//! the submission one atomic step for whoever holds the future, so the
//! signaling command is issued exactly once however many trigger paths run.

use vstd::prelude::*;

use crate::engine::{Engine, RecS, Semaphore, SubmissionError};
use crate::future::{AccessCheck, FlushError, GpuFuture2};
use crate::plan::{PlanS, SubmitPlan};

verus! {

/// The submissions that merging "signal `sem`" into an upstream plan
/// produces on `queue`, by the merge rules: an empty or wait-only plan
/// becomes one command submission carrying the signal; a command submission
/// gets the signal appended; a present is submitted first, followed by a
/// separate submission solely to produce the signal.
pub open spec fn signal_records(prev_plan: PlanS, queue: u64, sem: u64) -> Seq<RecS> {
    match prev_plan {
        PlanS::Empty => seq![
            RecS {
                queue,
                plan: PlanS::CommandSubmission { waits: Seq::empty(), signals: seq![sem] },
            },
        ],
        PlanS::SemaphoresWait { waits } => seq![
            RecS { queue, plan: PlanS::CommandSubmission { waits, signals: seq![sem] } },
        ],
        PlanS::CommandSubmission { waits, signals } => seq![
            RecS { queue, plan: PlanS::CommandSubmission { waits, signals: signals.push(sem) } },
        ],
        PlanS::BindSparse => Seq::empty(),
        PlanS::QueuePresent { waits, swapchain, image_index } => seq![
            RecS { queue, plan: PlanS::QueuePresent { waits, swapchain, image_index } },
            RecS {
                queue,
                plan: PlanS::CommandSubmission { waits: Seq::empty(), signals: seq![sem] },
            },
        ],
    }
}

/// Represents a semaphore being signaled after a previous event.
///
/// Dropping an unfinished chain must go through `destroy`, which blocks
/// until the queue is idle, so no device work referencing the semaphore
/// outlives the object holding it.
pub struct SemaphoreSignalFuture<F: GpuFuture2> {
    pub previous: F,
    pub semaphore: Semaphore,
    /// True once the signaling command has been submitted. Guarded by
    /// exclusive ownership: every path that reads it also holds `&mut self`,
    /// so check and submission are one atomic step and only one flush ever
    /// submits.
    pub wait_submitted: bool,
    /// True after a present was submitted but the signal that should follow
    /// it failed: the flush can no longer be retried, because retrying
    /// would submit the present a second time.
    pub poisoned: bool,
    /// True once the wait on the semaphore has been handed to a consumer.
    /// A binary semaphore is consumed by exactly one wait, so the wait is
    /// handed out once.
    pub wait_taken: bool,
    pub finished: bool,
}

/// Builds a new semaphore signal future over `future`, drawing a fresh
/// semaphore from the device pool. The upstream future must already have an
/// associated queue: the decorator cannot invent one.
pub fn then_signal_semaphore<F: GpuFuture2>(future: F, eng: &mut Engine) -> (r:
    SemaphoreSignalFuture<F>)
    requires
        future.inv(),
        future.queue_of() is Some,
        future.device_id() == old(eng).device,
        future.bounded(
            old(eng).semaphores_acquired,
            old(eng).fences_acquired,
            old(eng).queue_count,
        ),
        old(eng).wf(),
        old(eng).semaphores_acquired < u64::MAX,
    ensures
        final(eng).wf(),
        final(eng).device == old(eng).device,
        final(eng).queue_count == old(eng).queue_count,
        final(eng).logs() == old(eng).logs(),
        final(eng).fail_schedule@ == old(eng).fail_schedule@,
        final(eng).idle_waits@ == old(eng).idle_waits@,
        final(eng).semaphores_acquired == old(eng).semaphores_acquired + 1,
        final(eng).fences_acquired == old(eng).fences_acquired,
        final(eng).fence_ready@ == old(eng).fence_ready@,
        r.previous == future,
        r.semaphore.id == old(eng).semaphores_acquired,
        r.semaphore.device == old(eng).device,
        !r.wait_submitted,
        !r.poisoned,
        !r.wait_taken,
        !r.finished,
        r.inv(),
        r.bounded(
            final(eng).semaphores_acquired,
            final(eng).fences_acquired,
            final(eng).queue_count,
        ),
{
    proof {
        future.lemma_wf(eng.semaphores_acquired, eng.fences_acquired, eng.queue_count);
    }
    let semaphore = eng.acquire_semaphore();
    SemaphoreSignalFuture {
        previous: future,
        semaphore,
        wait_submitted: false,
        poisoned: false,
        wait_taken: false,
        finished: false,
    }
}

impl<F: GpuFuture2> SemaphoreSignalFuture<F> {
    /// Tear the future down. If its work is unfinished, force a flush, then
    /// block until the owning queue is idle, then propagate retirement
    /// upstream: no device work referencing the semaphore survives this
    /// call. An error here is a destructor-path failure; the caller has
    /// nothing to report it to and must treat it as fatal.
    pub fn destroy(self, eng: &mut Engine) -> (r: Result<(), FlushError>)
        requires
            self.inv(),
            self.bounded(
                old(eng).semaphores_acquired,
                old(eng).fences_acquired,
                old(eng).queue_count,
            ),
            old(eng).wf(),
        ensures
            final(eng).wf(),
            final(eng).device == old(eng).device,
            final(eng).queue_count == old(eng).queue_count,
            final(eng).semaphores_acquired == old(eng).semaphores_acquired,
            final(eng).fences_acquired == old(eng).fences_acquired,
            final(eng).fence_ready@ == old(eng).fence_ready@,
            self.finished() ==> r is Ok && *final(eng) == *old(eng),
            r is Ok && !self.finished() ==> final(eng).idle_waits@ == old(eng).idle_waits@.push(
                self.previous.queue_of().unwrap(),
            ),
            r is Ok && !self.finished() ==> final(eng).logs() =~= old(eng).logs() + self.pending(),
            old(eng).fail_schedule@.len() == 0 && self.clean() ==> r is Ok,
            r is Err ==> final(eng).idle_waits@ == old(eng).idle_waits@,
            r is Err ==> final(eng).logs().is_prefix_of(old(eng).logs() + self.pending()),
    {
        proof {
            self.lemma_wf(eng.semaphores_acquired, eng.fences_acquired, eng.queue_count);
        }
        let mut this = self;
        if this.finished {
            return Ok(());
        }
        let qopt = this.previous.queue();
        let q: u64 = if let Some(x) = qopt {
            x
        } else {
            0
        };
        match this.flush(eng) {
            Ok(()) => {},
            Err(e) => {
                return Err(e);
            },
        }
        let idle = eng.wait_idle(q);
        assert(idle is Ok);
        this.previous.signal_finished();
        Ok(())
    }
}

/// A signal decorator is never observed finished before its signaling
/// submission was performed: finished implies submitted.
pub proof fn lemma_finished_implies_submitted<F: GpuFuture2>(f: &SemaphoreSignalFuture<F>)
    requires
        f.inv(),
    ensures
        f.finished() ==> f.flushed(),
{
}

impl<F: GpuFuture2> GpuFuture2 for SemaphoreSignalFuture<F> {
    open spec fn device_id(&self) -> u64 {
        self.semaphore.device
    }

    open spec fn queue_of(&self) -> Option<u64> {
        self.previous.queue_of()
    }

    open spec fn change_allowed(&self) -> bool {
        true
    }

    open spec fn flushed(&self) -> bool {
        self.wait_submitted
    }

    open spec fn finished(&self) -> bool {
        self.finished
    }

    open spec fn signal_ready(&self) -> bool {
        self.wait_submitted && self.previous.signal_ready()
    }

    open spec fn clean(&self) -> bool {
        !self.poisoned && self.previous.clean()
    }

    open spec fn presentless(&self) -> bool {
        true
    }

    open spec fn pending(&self) -> Seq<RecS> {
        if self.wait_submitted {
            Seq::empty()
        } else {
            self.previous.build_pending() + signal_records(
                self.previous.plan_of(),
                self.previous.queue_of().unwrap(),
                self.semaphore.id,
            )
        }
    }

    open spec fn build_pending(&self) -> Seq<RecS> {
        self.pending()
    }

    open spec fn plan_of(&self) -> PlanS {
        if self.wait_taken {
            PlanS::Empty
        } else {
            PlanS::SemaphoresWait { waits: seq![self.semaphore.id] }
        }
    }

    open spec fn inv(&self) -> bool {
        &&& self.previous.inv()
        &&& self.previous.queue_of() is Some
        &&& (self.finished ==> self.wait_submitted)
        &&& (self.wait_submitted ==> self.previous.signal_ready())
        &&& !(self.wait_submitted && self.poisoned)
    }

    open spec fn bounded(&self, sems: u64, fences: u64, queues: u64) -> bool {
        &&& self.semaphore.id < sems
        &&& self.previous.bounded(sems, fences, queues)
    }

    /// Upstream accesses are absorbed into the synchronization edge this
    /// decorator creates: waiting on the semaphore already establishes the
    /// ordering, so an affirmative upstream answer becomes "no further
    /// stage/access requirement" for consumers above.
    open spec fn buffer_access_of(
        &self,
        buffer: u64,
        range_start: u64,
        range_end: u64,
        exclusive: bool,
        queue: u64,
    ) -> AccessCheck {
        match self.previous.buffer_access_of(buffer, range_start, range_end, exclusive, queue) {
            Ok(_) => Ok(None),
            Err(e) => Err(e),
        }
    }

    open spec fn image_access_of(
        &self,
        image: u64,
        range_start: u64,
        range_end: u64,
        exclusive: bool,
        layout: u32,
        queue: u64,
    ) -> AccessCheck {
        match self.previous.image_access_of(
            image,
            range_start,
            range_end,
            exclusive,
            layout,
            queue,
        ) {
            Ok(_) => Ok(None),
            Err(e) => Err(e),
        }
    }

    proof fn lemma_wf(&self, sems: u64, fences: u64, queues: u64) {
        self.previous.lemma_wf(sems, fences, queues);
    }

    fn device(&self) -> (r: u64) {
        self.semaphore.device
    }

    fn queue(&self) -> (r: Option<u64>) {
        self.previous.queue()
    }

    fn queue_change_allowed(&self) -> (r: bool) {
        true
    }

    fn cleanup_finished(&mut self) {
        self.previous.cleanup_finished();
    }

    fn flush(&mut self, eng: &mut Engine) -> (r: Result<(), FlushError>)
        ensures
            final(self).semaphore == old(self).semaphore,
            final(self).plan_of() == old(self).plan_of(),
            old(self).poisoned ==> ((r matches Err(FlushError::NonRetryable(_))) && *final(self)
                == *old(self) && *final(eng) == *old(eng)),
            r matches Err(FlushError::Submission(_)) ==> final(eng).logs().is_prefix_of(
                old(eng).logs() + old(self).previous.build_pending(),
            ),
            r is Err && final(eng).logs().len() > old(eng).logs().len()
                + old(self).previous.build_pending().len() ==> ((r matches Err(
                FlushError::NonRetryable(_),
            )) && final(self).poisoned),
    {
        if self.wait_submitted {
            return Ok(());
        }
        if self.poisoned {
            proof {
                crate::engine::lemma_log_prefix_of_concat(eng.logs(), old(self).pending());
            }
            return Err(FlushError::NonRetryable(SubmissionError::DeviceLost));
        }
        let qopt = self.previous.queue();
        let q: u64 = if let Some(x) = qopt {
            x
        } else {
            0
        };
        assert(Some(q) == self.previous.queue_of());
        proof {
            self.previous.lemma_wf(eng.semaphores_acquired, eng.fences_acquired, eng.queue_count);
        }
        let ghost prior = *old(self);
        let plan = match self.previous.build_submission(eng) {
            Ok(p) => p,
            Err(e) => {
                proof {
                    let base = old(eng).logs() + prior.previous.build_pending();
                    let recs = signal_records(
                        prior.previous.plan_of(),
                        q,
                        prior.semaphore.id,
                    );
                    crate::engine::lemma_log_prefix_of_concat(base, recs);
                    assert(base + recs =~= old(eng).logs() + prior.pending());
                    crate::engine::lemma_log_prefix_trans(
                        eng.logs(),
                        base,
                        old(eng).logs() + prior.pending(),
                    );
                }
                return Err(e);
            },
        };
        match plan {
            SubmitPlan::Empty => {
                let empty_waits: Vec<u64> = Vec::new();
                let sigs = vec![self.semaphore.id];
                proof {
                    assert(empty_waits@ =~= Seq::<u64>::empty());
                    assert(sigs@ =~= seq![self.semaphore.id]);
                }
                let sub = SubmitPlan::CommandSubmission { waits: empty_waits, signals: sigs };
                proof {
                    assert(seq![RecS { queue: q, plan: sub@ }] =~= signal_records(
                        prior.previous.plan_of(),
                        q,
                        prior.semaphore.id,
                    ));
                }
                match eng.submit(q, sub) {
                    Ok(()) => {},
                    Err(e) => {
                        proof {
                            let base = old(eng).logs() + prior.previous.build_pending();
                            let recs = signal_records(
                                prior.previous.plan_of(),
                                q,
                                prior.semaphore.id,
                            );
                            assert(eng.logs() =~= base);
                            crate::engine::lemma_log_prefix_of_concat(eng.logs(), recs);
                            crate::engine::lemma_log_prefix_of_concat(
                                eng.logs(),
                                Seq::<RecS>::empty(),
                            );
                            assert(eng.logs() + recs =~= old(eng).logs() + prior.pending());
                        }
                        return Err(FlushError::Submission(e));
                    },
                }
            },
            SubmitPlan::SemaphoresWait { waits } => {
                let sigs = vec![self.semaphore.id];
                proof {
                    assert(sigs@ =~= seq![self.semaphore.id]);
                }
                let sub = SubmitPlan::CommandSubmission { waits, signals: sigs };
                proof {
                    assert(seq![RecS { queue: q, plan: sub@ }] =~= signal_records(
                        prior.previous.plan_of(),
                        q,
                        prior.semaphore.id,
                    ));
                }
                match eng.submit(q, sub) {
                    Ok(()) => {},
                    Err(e) => {
                        proof {
                            let base = old(eng).logs() + prior.previous.build_pending();
                            let recs = signal_records(
                                prior.previous.plan_of(),
                                q,
                                prior.semaphore.id,
                            );
                            assert(eng.logs() =~= base);
                            crate::engine::lemma_log_prefix_of_concat(eng.logs(), recs);
                            crate::engine::lemma_log_prefix_of_concat(
                                eng.logs(),
                                Seq::<RecS>::empty(),
                            );
                            assert(eng.logs() + recs =~= old(eng).logs() + prior.pending());
                        }
                        return Err(FlushError::Submission(e));
                    },
                }
            },
            SubmitPlan::CommandSubmission { waits, signals } => {
                let mut signals = signals;
                signals.push(self.semaphore.id);
                let sub = SubmitPlan::CommandSubmission { waits, signals };
                proof {
                    assert(seq![RecS { queue: q, plan: sub@ }] =~= signal_records(
                        prior.previous.plan_of(),
                        q,
                        prior.semaphore.id,
                    ));
                }
                match eng.submit(q, sub) {
                    Ok(()) => {},
                    Err(e) => {
                        proof {
                            let base = old(eng).logs() + prior.previous.build_pending();
                            let recs = signal_records(
                                prior.previous.plan_of(),
                                q,
                                prior.semaphore.id,
                            );
                            assert(eng.logs() =~= base);
                            crate::engine::lemma_log_prefix_of_concat(eng.logs(), recs);
                            crate::engine::lemma_log_prefix_of_concat(
                                eng.logs(),
                                Seq::<RecS>::empty(),
                            );
                            assert(eng.logs() + recs =~= old(eng).logs() + prior.pending());
                        }
                        return Err(FlushError::Submission(e));
                    },
                }
            },
            SubmitPlan::BindSparse => {
                // No merge rule can layer a signal onto a sparse bind;
                // failing fast keeps the requirement from being dropped.
                return Err(FlushError::Unimplemented);
            },
            SubmitPlan::QueuePresent { waits, swapchain, image_index } => {
                let present = SubmitPlan::QueuePresent { waits, swapchain, image_index };
                let ghost present_rec = RecS { queue: q, plan: present@ };
                match eng.submit(q, present) {
                    Ok(()) => {},
                    Err(e) => {
                        proof {
                            let base = old(eng).logs() + prior.previous.build_pending();
                            let recs = signal_records(
                                prior.previous.plan_of(),
                                q,
                                prior.semaphore.id,
                            );
                            assert(eng.logs() =~= base);
                            crate::engine::lemma_log_prefix_of_concat(eng.logs(), recs);
                            crate::engine::lemma_log_prefix_of_concat(
                                eng.logs(),
                                Seq::<RecS>::empty(),
                            );
                            assert(eng.logs() + recs =~= old(eng).logs() + prior.pending());
                        }
                        // Nothing of this flush was submitted: a fresh
                        // flush may retry.
                        return Err(FlushError::Submission(e));
                    },
                }
                let empty_waits: Vec<u64> = Vec::new();
                let sigs = vec![self.semaphore.id];
                proof {
                    assert(empty_waits@ =~= Seq::<u64>::empty());
                    assert(sigs@ =~= seq![self.semaphore.id]);
                }
                let sub = SubmitPlan::CommandSubmission { waits: empty_waits, signals: sigs };
                proof {
                    assert(seq![present_rec, RecS { queue: q, plan: sub@ }] =~= signal_records(
                        prior.previous.plan_of(),
                        q,
                        prior.semaphore.id,
                    ));
                }
                match eng.submit(q, sub) {
                    Ok(()) => {},
                    Err(e) => {
                        // The present went through but its signal did not:
                        // a retry would present twice, so the flush becomes
                        // non-retryable.
                        self.poisoned = true;
                        proof {
                            let full = old(eng).logs() + prior.pending();
                            assert(eng.logs() =~= full.subrange(0, eng.logs().len() as int));
                            assert(eng.logs().is_prefix_of(full));
                        }
                        return Err(FlushError::NonRetryable(e));
                    },
                }
            },
        }
        // Written only after every submission succeeded, so a failed flush
        // can be retried.
        self.wait_submitted = true;
        proof {
            assert(eng.logs() =~= old(eng).logs() + prior.pending());
        }
        Ok(())
    }

    /// Flushing first is mandatory: the signal must be submitted before
    /// anyone is handed a plan that waits on it. The wait on the binary
    /// semaphore is consumed by exactly one waiter, so it is handed out
    /// once; afterwards the plan is empty.
    fn build_submission(&mut self, eng: &mut Engine) -> (r: Result<SubmitPlan, FlushError>)
        ensures
            final(self).semaphore == old(self).semaphore,
    {
        match self.flush(eng) {
            Ok(()) => {},
            Err(e) => {
                return Err(e);
            },
        }
        if self.wait_taken {
            return Ok(SubmitPlan::Empty);
        }
        self.wait_taken = true;
        let waits = vec![self.semaphore.id];
        proof {
            assert(waits@ =~= seq![self.semaphore.id]);
        }
        Ok(SubmitPlan::SemaphoresWait { waits })
    }

    /// Marks this future finished and propagates retirement upstream.
    fn signal_finished(&mut self)
        ensures
            final(self).previous.finished(),
    {
        assert(self.wait_submitted);
        self.finished = true;
        self.previous.signal_finished();
    }

    fn check_buffer_access(
        &self,
        buffer: u64,
        range_start: u64,
        range_end: u64,
        exclusive: bool,
        queue: u64,
    ) -> (r: AccessCheck) {
        match self.previous.check_buffer_access(buffer, range_start, range_end, exclusive, queue) {
            Ok(_) => Ok(None),
            Err(e) => Err(e),
        }
    }

    fn check_image_access(
        &self,
        image: u64,
        range_start: u64,
        range_end: u64,
        exclusive: bool,
        layout: u32,
        queue: u64,
    ) -> (r: AccessCheck) {
        match self.previous.check_image_access(
            image,
            range_start,
            range_end,
            exclusive,
            layout,
            queue,
        ) {
            Ok(_) => Ok(None),
            Err(e) => Err(e),
        }
    }
}

} // verus!
