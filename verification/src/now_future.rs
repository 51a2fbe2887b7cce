//! The leaf future that is already satisfied: no pending work, no resources
//! that must be awaited on destruction. It is the root of every chain, and
//! the value substituted for a chain whose work has fully retired.

use vstd::prelude::*;

use crate::engine::{Engine, RecS};
use crate::future::{AccessCheck, AccessCheckError, FlushError, GpuFuture2};
use crate::plan::{PlanS, SubmitPlan};

verus! {

/// Represents an already signaled future. Does not lock any resource.
pub struct NowFuture2 {
    pub device: u64,
    /// A queue to associate the chain with, so that decorators that must
    /// submit to a queue can be layered directly on top. The completed
    /// future itself never submits anything.
    pub queue: Option<u64>,
}

/// A completed future on `device`, associated with no queue.
pub fn now2(device: u64) -> (r: NowFuture2)
    ensures
        r.device == device,
        r.queue is None,
{
    NowFuture2 { device, queue: None }
}

/// A completed future on `device`, associated with `queue`, ready to be
/// wrapped by a decorator that submits there.
pub fn now_on_queue(device: u64, queue: u64) -> (r: NowFuture2)
    ensures
        r.device == device,
        r.queue == Some(queue),
{
    NowFuture2 { device, queue: Some(queue) }
}

impl GpuFuture2 for NowFuture2 {
    open spec fn device_id(&self) -> u64 {
        self.device
    }

    open spec fn queue_of(&self) -> Option<u64> {
        self.queue
    }

    open spec fn change_allowed(&self) -> bool {
        true
    }

    open spec fn flushed(&self) -> bool {
        true
    }

    open spec fn finished(&self) -> bool {
        true
    }

    open spec fn signal_ready(&self) -> bool {
        true
    }

    open spec fn clean(&self) -> bool {
        true
    }

    open spec fn presentless(&self) -> bool {
        true
    }

    open spec fn pending(&self) -> Seq<RecS> {
        Seq::empty()
    }

    open spec fn build_pending(&self) -> Seq<RecS> {
        Seq::empty()
    }

    open spec fn plan_of(&self) -> PlanS {
        PlanS::Empty
    }

    open spec fn inv(&self) -> bool {
        true
    }

    open spec fn bounded(&self, sems: u64, fences: u64, queues: u64) -> bool {
        self.queue matches Some(q) ==> q < queues
    }

    open spec fn buffer_access_of(
        &self,
        buffer: u64,
        range_start: u64,
        range_end: u64,
        exclusive: bool,
        queue: u64,
    ) -> AccessCheck {
        Err(AccessCheckError::Unknown)
    }

    open spec fn image_access_of(
        &self,
        image: u64,
        range_start: u64,
        range_end: u64,
        exclusive: bool,
        layout: u32,
        queue: u64,
    ) -> AccessCheck {
        Err(AccessCheckError::Unknown)
    }

    proof fn lemma_wf(&self, sems: u64, fences: u64, queues: u64) {
    }

    fn device(&self) -> (r: u64) {
        self.device
    }

    fn queue(&self) -> (r: Option<u64>) {
        self.queue
    }

    fn queue_change_allowed(&self) -> (r: bool) {
        true
    }

    fn cleanup_finished(&mut self) {
    }

    fn flush(&mut self, eng: &mut Engine) -> (r: Result<(), FlushError>) {
        Ok(())
    }

    fn build_submission(&mut self, eng: &mut Engine) -> (r: Result<SubmitPlan, FlushError>) {
        Ok(SubmitPlan::Empty)
    }

    fn signal_finished(&mut self) {
    }

    fn check_buffer_access(
        &self,
        buffer: u64,
        range_start: u64,
        range_end: u64,
        exclusive: bool,
        queue: u64,
    ) -> (r: AccessCheck) {
        Err(AccessCheckError::Unknown)
    }

    fn check_image_access(
        &self,
        image: u64,
        range_start: u64,
        range_end: u64,
        exclusive: bool,
        layout: u32,
        queue: u64,
    ) -> (r: AccessCheck) {
        Err(AccessCheckError::Unknown)
    }
}

} // verus!
