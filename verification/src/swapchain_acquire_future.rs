//! The leaf future for one outstanding "acquire the next presentable
//! image" operation, whose completion the device reports through a
//! semaphore and/or a fence drawn from the pool.

use vstd::prelude::*;

use crate::engine::{Engine, Fence, RecS, Semaphore};
use crate::future::{AccessCheck, AccessCheckError, FlushError, GpuFuture2};
use crate::plan::{PlanS, SubmitPlan};

verus! {

/// The layout an acquired presentable image is in when it is handed to the
/// consumer.
pub const LAYOUT_PRESENT_SRC: u32 = 0;

/// Represents one pending image acquisition.
///
/// Known limitation, inherited from the design: if this future is destroyed
/// without the image ever being presented, a later acquisition of the same
/// image index can block indefinitely. `abandon` does not attempt to fix
/// this; it only guarantees that the pool slots are safe to release.
pub struct SwapchainAcquireFuture2 {
    pub device: u64,
    pub swapchain: u64,
    /// Index of the acquired image within the swapchain.
    pub image_id: usize,
    /// Opaque identity of the acquired image, as used in access queries.
    pub image_handle: u64,
    /// Semaphore that is signaled when the acquire completes. Empty if the
    /// acquire already happened, or once the wait has been handed to its
    /// one consumer.
    pub semaphore: Option<Semaphore>,
    /// Fence that is signaled when the acquire completes. Empty if the
    /// acquire already happened.
    pub fence: Option<Fence>,
    pub finished: bool,
}

impl SwapchainAcquireFuture2 {
    /// Tear the future down without its image ever having been consumed.
    /// If the completion fence is still present this blocks on it first:
    /// releasing the pool slots while the device might still signal them
    /// would corrupt the pools. Never panics.
    pub fn abandon(self, eng: &mut Engine)
        requires
            old(eng).wf(),
            self.bounded(
                old(eng).semaphores_acquired,
                old(eng).fences_acquired,
                old(eng).queue_count,
            ),
        ensures
            final(eng).wf(),
            final(eng).device == old(eng).device,
            final(eng).queue_count == old(eng).queue_count,
            final(eng).logs() == old(eng).logs(),
            final(eng).fail_schedule@ == old(eng).fail_schedule@,
            final(eng).idle_waits@ == old(eng).idle_waits@,
            final(eng).semaphores_acquired == old(eng).semaphores_acquired,
            final(eng).fences_acquired == old(eng).fences_acquired,
            self.fence matches Some(f) ==> final(eng).fence_ready@[f.id as int],
            self.fence matches Some(f) ==> final(eng).fence_ready@ =~= old(
                eng,
            ).fence_ready@.update(f.id as int, true),
            self.fence is None ==> final(eng).fence_ready@ == old(eng).fence_ready@,
    {
        match &self.fence {
            Some(f) => {
                let r = eng.wait_fence(f, None);
                assert(r is Ok);
                proof {
                    assert(eng.fence_ready@ =~= old(eng).fence_ready@.update(f.id as int, true));
                }
            },
            None => {},
        }
    }
}

impl GpuFuture2 for SwapchainAcquireFuture2 {
    open spec fn device_id(&self) -> u64 {
        self.device
    }

    open spec fn queue_of(&self) -> Option<u64> {
        None
    }

    open spec fn change_allowed(&self) -> bool {
        true
    }

    open spec fn flushed(&self) -> bool {
        true
    }

    open spec fn finished(&self) -> bool {
        self.finished
    }

    open spec fn signal_ready(&self) -> bool {
        true
    }

    open spec fn clean(&self) -> bool {
        true
    }

    open spec fn presentless(&self) -> bool {
        true
    }

    open spec fn pending(&self) -> Seq<RecS> {
        Seq::empty()
    }

    open spec fn build_pending(&self) -> Seq<RecS> {
        Seq::empty()
    }

    open spec fn plan_of(&self) -> PlanS {
        match self.semaphore {
            Some(s) => PlanS::SemaphoresWait { waits: seq![s.id] },
            None => PlanS::Empty,
        }
    }

    open spec fn inv(&self) -> bool {
        true
    }

    open spec fn bounded(&self, sems: u64, fences: u64, queues: u64) -> bool {
        &&& (self.semaphore matches Some(s) ==> s.id < sems)
        &&& (self.fence matches Some(f) ==> f.id < fences)
    }

    open spec fn buffer_access_of(
        &self,
        buffer: u64,
        range_start: u64,
        range_end: u64,
        exclusive: bool,
        queue: u64,
    ) -> AccessCheck {
        Err(AccessCheckError::Unknown)
    }

    /// The chain answers only for the acquired image, and only in the
    /// layout it hands the image over in; the acquire semaphore already
    /// establishes the ordering, so no further requirement is reported.
    open spec fn image_access_of(
        &self,
        image: u64,
        range_start: u64,
        range_end: u64,
        exclusive: bool,
        layout: u32,
        queue: u64,
    ) -> AccessCheck {
        if image == self.image_handle && layout == LAYOUT_PRESENT_SRC {
            Ok(None)
        } else {
            Err(AccessCheckError::Unknown)
        }
    }

    proof fn lemma_wf(&self, sems: u64, fences: u64, queues: u64) {
    }

    fn device(&self) -> (r: u64) {
        self.device
    }

    fn queue(&self) -> (r: Option<u64>) {
        None
    }

    fn queue_change_allowed(&self) -> (r: bool) {
        true
    }

    fn cleanup_finished(&mut self) {
    }

    /// There is nothing to submit: the wait is consumed by whoever submits
    /// work against the acquired image.
    fn flush(&mut self, eng: &mut Engine) -> (r: Result<(), FlushError>) {
        Ok(())
    }

    /// Hands the acquire wait to its one consumer; the semaphore's wait is
    /// consumed exactly once, so the handle is given up here.
    fn build_submission(&mut self, eng: &mut Engine) -> (r: Result<SubmitPlan, FlushError>)
        ensures
            r is Ok,
            final(self).semaphore is None,
            final(self).fence == old(self).fence,
    {
        let plan = match &self.semaphore {
            Some(s) => {
                let waits = vec![s.id];
                proof {
                    assert(waits@ =~= seq![s.id]);
                }
                SubmitPlan::SemaphoresWait { waits }
            },
            None => SubmitPlan::Empty,
        };
        self.semaphore = None;
        Ok(plan)
    }

    fn signal_finished(&mut self) {
        self.finished = true;
    }

    fn check_buffer_access(
        &self,
        buffer: u64,
        range_start: u64,
        range_end: u64,
        exclusive: bool,
        queue: u64,
    ) -> (r: AccessCheck) {
        Err(AccessCheckError::Unknown)
    }

    fn check_image_access(
        &self,
        image: u64,
        range_start: u64,
        range_end: u64,
        exclusive: bool,
        layout: u32,
        queue: u64,
    ) -> (r: AccessCheck) {
        if image == self.image_handle && layout == LAYOUT_PRESENT_SRC {
            Ok(None)
        } else {
            Err(AccessCheckError::Unknown)
        }
    }
}

} // verus!
