//! The presentation step: a future that submits "present this image of
//! this swapchain" at the end of the queue, after the work it wraps.

use vstd::prelude::*;

use crate::engine::{Engine, RecS};
use crate::future::{AccessCheck, FlushError, GpuFuture2};
use crate::plan::{PlanS, SubmitPlan};

verus! {

/// The wait set a present submission carries, given the plan of the work it
/// follows: an upstream wait set is attached to the present itself; a
/// command submission is issued separately first and leaves nothing to
/// attach; plans with no merge rule contribute nothing (building fails).
pub open spec fn present_waits(prev_plan: PlanS) -> Seq<u64> {
    match prev_plan {
        PlanS::SemaphoresWait { waits } => waits,
        _ => Seq::empty(),
    }
}

/// The submissions `build_submission` itself performs beyond the upstream
/// ones: an upstream command submission must be issued before the present
/// can be described.
pub open spec fn interim_records(prev_plan: PlanS, queue: u64) -> Seq<RecS> {
    match prev_plan {
        PlanS::CommandSubmission { waits, signals } => seq![
            RecS { queue, plan: PlanS::CommandSubmission { waits, signals } },
        ],
        _ => Seq::empty(),
    }
}

/// Represents an image being presented after a previous event.
pub struct PresentFuture<F: GpuFuture2> {
    pub previous: F,
    pub swapchain: u64,
    pub image_index: u64,
    pub queue: u64,
    /// True once this future has submitted its present itself. A consumer
    /// that takes the plan instead submits the present as part of its own
    /// flush, before it reports anything finished.
    pub presented: bool,
    pub finished: bool,
}

/// Builds a future that presents `image_index` of `swapchain` on `queue`
/// once `future` completes. Crossing onto another queue than the upstream
/// chain's needs the upstream's permission.
pub fn then_swapchain_present<F: GpuFuture2>(
    future: F,
    queue: u64,
    swapchain: u64,
    image_index: u64,
) -> (r: PresentFuture<F>)
    requires
        future.inv(),
        future.queue_of() is None || future.queue_of() == Some(queue) || future.change_allowed(),
    ensures
        r.previous == future,
        r.swapchain == swapchain,
        r.image_index == image_index,
        r.queue == queue,
        !r.presented,
        !r.finished,
        r.inv(),
{
    PresentFuture { previous: future, swapchain, image_index, queue, presented: false, finished: false }
}

impl<F: GpuFuture2> GpuFuture2 for PresentFuture<F> {
    open spec fn device_id(&self) -> u64 {
        self.previous.device_id()
    }

    open spec fn queue_of(&self) -> Option<u64> {
        Some(self.queue)
    }

    open spec fn change_allowed(&self) -> bool {
        false
    }

    open spec fn flushed(&self) -> bool {
        self.presented
    }

    open spec fn finished(&self) -> bool {
        self.finished
    }

    open spec fn signal_ready(&self) -> bool {
        self.previous.signal_ready()
    }

    /// A present can be flushed cleanly as long as the chain under it can
    /// be built and never itself hands up a present.
    open spec fn clean(&self) -> bool {
        self.previous.clean() && self.previous.presentless()
    }

    open spec fn presentless(&self) -> bool {
        false
    }

    open spec fn pending(&self) -> Seq<RecS> {
        if self.presented {
            Seq::empty()
        } else {
            self.previous.build_pending() + interim_records(self.previous.plan_of(), self.queue)
                + seq![
                RecS {
                    queue: self.queue,
                    plan: PlanS::QueuePresent {
                        waits: present_waits(self.previous.plan_of()),
                        swapchain: self.swapchain,
                        image_index: self.image_index,
                    },
                },
            ]
        }
    }

    open spec fn build_pending(&self) -> Seq<RecS> {
        if self.presented {
            Seq::empty()
        } else {
            self.previous.build_pending() + interim_records(self.previous.plan_of(), self.queue)
        }
    }

    open spec fn plan_of(&self) -> PlanS {
        if self.presented {
            PlanS::Empty
        } else {
            PlanS::QueuePresent {
                waits: present_waits(self.previous.plan_of()),
                swapchain: self.swapchain,
                image_index: self.image_index,
            }
        }
    }

    open spec fn inv(&self) -> bool {
        &&& self.previous.inv()
        &&& (self.finished ==> self.previous.signal_ready())
        &&& (self.presented ==> self.previous.signal_ready())
    }

    open spec fn bounded(&self, sems: u64, fences: u64, queues: u64) -> bool {
        &&& self.queue < queues
        &&& self.previous.bounded(sems, fences, queues)
    }

    open spec fn buffer_access_of(
        &self,
        buffer: u64,
        range_start: u64,
        range_end: u64,
        exclusive: bool,
        queue: u64,
    ) -> AccessCheck {
        self.previous.buffer_access_of(buffer, range_start, range_end, exclusive, queue)
    }

    open spec fn image_access_of(
        &self,
        image: u64,
        range_start: u64,
        range_end: u64,
        exclusive: bool,
        layout: u32,
        queue: u64,
    ) -> AccessCheck {
        self.previous.image_access_of(image, range_start, range_end, exclusive, layout, queue)
    }

    proof fn lemma_wf(&self, sems: u64, fences: u64, queues: u64) {
        self.previous.lemma_wf(sems, fences, queues);
    }

    fn device(&self) -> (r: u64) {
        self.previous.device()
    }

    fn queue(&self) -> (r: Option<u64>) {
        Some(self.queue)
    }

    fn queue_change_allowed(&self) -> (r: bool) {
        false
    }

    fn cleanup_finished(&mut self) {
        self.previous.cleanup_finished();
    }

    fn flush(&mut self, eng: &mut Engine) -> (r: Result<(), FlushError>)
        ensures
            final(self).swapchain == old(self).swapchain,
            final(self).image_index == old(self).image_index,
            final(self).queue == old(self).queue,
    {
        if self.presented {
            return Ok(());
        }
        let ghost prior = *old(self);
        let ghost own_rec = RecS {
            queue: prior.queue,
            plan: PlanS::QueuePresent {
                waits: present_waits(prior.previous.plan_of()),
                swapchain: prior.swapchain,
                image_index: prior.image_index,
            },
        };
        let plan = match self.build_submission(eng) {
            Ok(p) => p,
            Err(e) => {
                proof {
                    let base = old(eng).logs() + prior.build_pending();
                    crate::engine::lemma_log_prefix_of_concat(base, seq![own_rec]);
                    assert(base + seq![own_rec] =~= old(eng).logs() + prior.pending());
                    crate::engine::lemma_log_prefix_trans(
                        eng.logs(),
                        base,
                        old(eng).logs() + prior.pending(),
                    );
                }
                return Err(e);
            },
        };
        let q = self.queue;
        match eng.submit(q, plan) {
            Ok(()) => {},
            Err(e) => {
                proof {
                    let base = old(eng).logs() + prior.build_pending();
                    assert(eng.logs() =~= base);
                    crate::engine::lemma_log_prefix_of_concat(eng.logs(), seq![own_rec]);
                    assert(eng.logs() + seq![own_rec] =~= old(eng).logs() + prior.pending());
                }
                // The present was not accepted; a fresh flush may retry.
                return Err(FlushError::Submission(e));
            },
        }
        self.presented = true;
        proof {
            assert(eng.logs() =~= old(eng).logs() + prior.pending());
        }
        Ok(())
    }

    /// Describes the present without submitting it: the returned plan owns
    /// the present, and the consumer that merges it becomes responsible for
    /// submitting it.
    fn build_submission(&mut self, eng: &mut Engine) -> (r: Result<SubmitPlan, FlushError>)
        ensures
            final(self).presented == old(self).presented,
            final(self).swapchain == old(self).swapchain,
            final(self).image_index == old(self).image_index,
            final(self).queue == old(self).queue,
    {
        if self.presented {
            return Ok(SubmitPlan::Empty);
        }
        let ghost prior = *old(self);
        proof {
            self.previous.lemma_wf(eng.semaphores_acquired, eng.fences_acquired, eng.queue_count);
        }
        let plan = match self.previous.build_submission(eng) {
            Ok(p) => p,
            Err(e) => {
                proof {
                    let base = old(eng).logs() + prior.previous.build_pending();
                    let interim = interim_records(prior.previous.plan_of(), prior.queue);
                    crate::engine::lemma_log_prefix_of_concat(base, interim);
                    assert(base + interim =~= old(eng).logs() + prior.build_pending());
                    crate::engine::lemma_log_prefix_trans(
                        eng.logs(),
                        base,
                        old(eng).logs() + prior.build_pending(),
                    );
                }
                return Err(e);
            },
        };
        let q = self.queue;
        match plan {
            SubmitPlan::Empty => {
                let waits: Vec<u64> = Vec::new();
                proof {
                    assert(waits@ =~= present_waits(prior.previous.plan_of()));
                }
                Ok(SubmitPlan::QueuePresent {
                    waits,
                    swapchain: self.swapchain,
                    image_index: self.image_index,
                })
            },
            SubmitPlan::SemaphoresWait { waits } => {
                Ok(SubmitPlan::QueuePresent {
                    waits,
                    swapchain: self.swapchain,
                    image_index: self.image_index,
                })
            },
            SubmitPlan::CommandSubmission { waits, signals } => {
                // The upstream work must be on the queue before the present
                // that follows it can be described.
                let sub = SubmitPlan::CommandSubmission { waits, signals };
                proof {
                    assert(seq![RecS { queue: q, plan: sub@ }] =~= interim_records(
                        prior.previous.plan_of(),
                        q,
                    ));
                }
                match eng.submit(q, sub) {
                    Ok(()) => {},
                    Err(e) => {
                        proof {
                            let base = old(eng).logs() + prior.previous.build_pending();
                            let interim = interim_records(prior.previous.plan_of(), prior.queue);
                            assert(eng.logs() =~= base);
                            crate::engine::lemma_log_prefix_of_concat(eng.logs(), interim);
                            assert(eng.logs() + interim =~= old(eng).logs()
                                + prior.build_pending());
                        }
                        return Err(FlushError::Submission(e));
                    },
                }
                let waits: Vec<u64> = Vec::new();
                proof {
                    assert(waits@ =~= present_waits(prior.previous.plan_of()));
                }
                Ok(SubmitPlan::QueuePresent {
                    waits,
                    swapchain: self.swapchain,
                    image_index: self.image_index,
                })
            },
            SubmitPlan::BindSparse => {
                // No rule layers a present onto a sparse bind.
                Err(FlushError::Unimplemented)
            },
            SubmitPlan::QueuePresent { .. } => {
                proof {
                    assert(old(eng).logs() + prior.build_pending() =~= eng.logs());
                    crate::engine::lemma_log_prefix_of_concat(eng.logs(), Seq::<RecS>::empty());
                }
                // Presenting on top of a present has no merge rule either.
                Err(FlushError::Unimplemented)
            },
        }
    }

    /// Marks this future finished and propagates retirement upstream.
    fn signal_finished(&mut self)
        ensures
            final(self).previous.finished(),
    {
        self.finished = true;
        self.previous.signal_finished();
    }

    fn check_buffer_access(
        &self,
        buffer: u64,
        range_start: u64,
        range_end: u64,
        exclusive: bool,
        queue: u64,
    ) -> (r: AccessCheck) {
        self.previous.check_buffer_access(buffer, range_start, range_end, exclusive, queue)
    }

    fn check_image_access(
        &self,
        image: u64,
        range_start: u64,
        range_end: u64,
        exclusive: bool,
        layout: u32,
        queue: u64,
    ) -> (r: AccessCheck) {
        self.previous.check_image_access(image, range_start, range_end, exclusive, layout, queue)
    }
}

} // verus!
