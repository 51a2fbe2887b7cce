//! The future protocol: composable descriptions of pending device work.
//!
//! A future answers what must be submitted (`build_submission`), performs
//! its own submission exactly once (`flush`), reports retirement
//! (`signal_finished`), and answers resource-access queries used to decide
//! whether two chains' device work conflicts.

use vstd::prelude::*;

use crate::engine::{Engine, RecS, SubmissionError};
use crate::plan::{
    lemma_merge_benign, lemma_merge_commutative, lemma_merge_not_present, lemma_mergeable_merge,
    merge_plans, merge_spec, plan_benign, plan_equiv, plan_mergeable, PlanS, SubmitPlan,
};

verus! {

/// Failure of a `flush`.
#[derive(Clone, Copy, Debug, PartialEq, Eq, Structural)]
pub enum FlushError {
    /// The submission failed before anything irreversible happened; the
    /// flush may be retried.
    Submission(SubmissionError),
    /// A submission failed after part of the work had already been handed to
    /// the queue; retrying could duplicate that work, so the chain refuses
    /// further flushes.
    NonRetryable(SubmissionError),
    /// The upstream plan was one that no merge rule covers; failing fast
    /// here keeps a submission requirement from being dropped silently.
    Unimplemented,
}

/// Failure of a resource-access query.
#[derive(Clone, Copy, Debug, PartialEq, Eq, Structural)]
pub enum AccessCheckError {
    /// The chain knows nothing about this resource.
    Unknown,
    /// The resource lies outside the partition this handle is valid for; a
    /// made-up answer here could hide a data race, so the query fails fast.
    OutsidePartition,
}

/// A stage/access pair, as a future reports it for a resource it touches.
pub type StageAccess = (u32, u32);

/// The result of a resource-access query: `Ok(None)` means ordering is
/// already implied and no further stage/access requirement is needed;
/// `Ok(Some(..))` carries the stages and access flags still to synchronize
/// against.
pub type AccessCheck = Result<Option<StageAccess>, AccessCheckError>;

/// A future representing possibly-not-yet-submitted asynchronous device
/// work, and the rules for composing it with other futures.
///
/// The abstract state of a future is given by the spec functions: whether
/// its own submission has happened (`flushed`), whether every submission in
/// its chain has been handed to a queue (`signal_ready`), whether its
/// retirement has been observed (`finished`), the submissions a first flush
/// would perform (`pending`), and the plan a consumer obtains from it
/// (`plan_of`).
pub trait GpuFuture2: Sized {
    /// The device this future belongs to.
    spec fn device_id(&self) -> u64;

    /// The queue this chain is associated with, if any. Once set it never
    /// changes for the lifetime of the future.
    spec fn queue_of(&self) -> Option<u64>;

    /// Whether a downstream consumer may move the chain to another queue.
    spec fn change_allowed(&self) -> bool;

    /// Whether this future's own submission work has been performed.
    spec fn flushed(&self) -> bool;

    /// Whether retirement of this future's work has been observed.
    spec fn finished(&self) -> bool;

    /// Whether every submission this chain describes has been handed to a
    /// queue, by this future or by the consumer that took its plan. Marking
    /// a future finished is allowed only once this holds.
    spec fn signal_ready(&self) -> bool;

    /// A flush or build of this chain succeeds whenever the engine injects
    /// no failure. Failing retryably never revokes this.
    spec fn clean(&self) -> bool;

    /// The plan this future hands its consumer is never a present, now or
    /// after any sequence of calls. Presents cannot be merged into, so
    /// combinators demand this of their inputs to stay clean.
    spec fn presentless(&self) -> bool;

    /// The submissions, in order, that `flush` performs when nothing has
    /// been submitted yet.
    spec fn pending(&self) -> Seq<RecS>;

    /// The submissions that `build_submission` performs before handing its
    /// plan to the consumer.
    spec fn build_pending(&self) -> Seq<RecS>;

    /// The plan a successful `build_submission` returns.
    spec fn plan_of(&self) -> PlanS;

    /// Internal consistency of the future.
    spec fn inv(&self) -> bool;

    /// Every pool id and queue id held by the chain was drawn from pools of
    /// at most these sizes.
    spec fn bounded(&self, sems: u64, fences: u64, queues: u64) -> bool;

    /// The answer `check_buffer_access` gives.
    spec fn buffer_access_of(
        &self,
        buffer: u64,
        range_start: u64,
        range_end: u64,
        exclusive: bool,
        queue: u64,
    ) -> AccessCheck;

    /// The answer `check_image_access` gives.
    spec fn image_access_of(
        &self,
        image: u64,
        range_start: u64,
        range_end: u64,
        exclusive: bool,
        layout: u32,
        queue: u64,
    ) -> AccessCheck;

    /// Structural facts every well-formed future obeys: a finished future
    /// was submitted first; a flushed future has nothing pending; the plan
    /// it hands out can be layered onto; its queue lies in the device's
    /// range.
    proof fn lemma_wf(&self, sems: u64, fences: u64, queues: u64)
        requires
            self.inv(),
            self.bounded(sems, fences, queues),
        ensures
            self.finished() ==> self.signal_ready(),
            self.flushed() ==> self.signal_ready(),
            self.flushed() ==> self.pending() =~= Seq::<RecS>::empty(),
            self.flushed() ==> self.build_pending() =~= Seq::<RecS>::empty(),
            plan_benign(self.plan_of()),
            self.presentless() ==> !(self.plan_of() is QueuePresent),
            self.queue_of() matches Some(q) ==> q < queues,
            forall|s2: u64, f2: u64, q2: u64|
                s2 >= sems && f2 >= fences && q2 >= queues ==> #[trigger] self.bounded(
                    s2,
                    f2,
                    q2,
                ),
    ;

    fn device(&self) -> (r: u64)
        ensures
            r == self.device_id(),
    ;

    fn queue(&self) -> (r: Option<u64>)
        ensures
            r == self.queue_of(),
    ;

    fn queue_change_allowed(&self) -> (r: bool)
        ensures
            r == self.change_allowed(),
    ;

    /// Advisory reclamation of retired upstream resources. Never required
    /// for correctness; in this model it reclaims nothing.
    fn cleanup_finished(&mut self)
        ensures
            *final(self) == *old(self),
    ;

    /// Turn the described work into queue submissions, exactly once. A
    /// repeated call performs no further submission and succeeds; a failed
    /// call reports whether a retry is safe.
    fn flush(&mut self, eng: &mut Engine) -> (r: Result<(), FlushError>)
        requires
            old(self).inv(),
            old(self).bounded(
                old(eng).semaphores_acquired,
                old(eng).fences_acquired,
                old(eng).queue_count,
            ),
            old(eng).wf(),
        ensures
            final(self).inv(),
            final(eng).wf(),
            final(self).bounded(
                old(eng).semaphores_acquired,
                old(eng).fences_acquired,
                old(eng).queue_count,
            ),
            final(self).device_id() == old(self).device_id(),
            final(self).queue_of() == old(self).queue_of(),
            final(self).change_allowed() == old(self).change_allowed(),
            final(self).finished() == old(self).finished(),
            final(self).presentless() == old(self).presentless(),
            r is Ok && old(self).clean() ==> final(self).clean(),
            r matches Err(FlushError::Submission(_)) && old(self).clean() ==> final(self).clean(),
            old(self).flushed() ==> final(self).flushed(),
            old(self).signal_ready() ==> final(self).signal_ready(),
            old(eng).same_but_submissions(final(eng)),
            old(eng).fail_schedule@.len() == 0 ==> final(eng).fail_schedule@.len() == 0,
            old(eng).logs().is_prefix_of(final(eng).logs()),
            old(self).flushed() ==> r is Ok && *final(self) == *old(self) && *final(eng) == *old(
                eng,
            ),
            r is Ok ==> final(self).flushed() && final(self).signal_ready(),
            r is Ok ==> final(eng).logs() =~= old(eng).logs() + old(self).pending(),
            r is Err ==> !final(self).flushed(),
            r is Err ==> final(eng).logs().is_prefix_of(old(eng).logs() + old(self).pending()),
            old(eng).fail_schedule@.len() == 0 && old(self).clean() ==> r is Ok,
    ;

    /// Flush, then hand the consumer the plan it must merge into its own
    /// submission. The returned plan is an owned value: the requirements in
    /// it now belong to the caller.
    fn build_submission(&mut self, eng: &mut Engine) -> (r: Result<SubmitPlan, FlushError>)
        requires
            old(self).inv(),
            old(self).bounded(
                old(eng).semaphores_acquired,
                old(eng).fences_acquired,
                old(eng).queue_count,
            ),
            old(eng).wf(),
        ensures
            final(self).inv(),
            final(eng).wf(),
            final(self).bounded(
                old(eng).semaphores_acquired,
                old(eng).fences_acquired,
                old(eng).queue_count,
            ),
            final(self).device_id() == old(self).device_id(),
            final(self).queue_of() == old(self).queue_of(),
            final(self).change_allowed() == old(self).change_allowed(),
            final(self).finished() == old(self).finished(),
            final(self).presentless() == old(self).presentless(),
            r is Ok && old(self).clean() ==> final(self).clean(),
            r matches Err(FlushError::Submission(_)) && old(self).clean() ==> final(self).clean(),
            old(self).flushed() ==> final(self).flushed(),
            old(self).signal_ready() ==> final(self).signal_ready(),
            old(eng).same_but_submissions(final(eng)),
            old(eng).fail_schedule@.len() == 0 ==> final(eng).fail_schedule@.len() == 0,
            old(eng).logs().is_prefix_of(final(eng).logs()),
            r is Ok ==> final(eng).logs() =~= old(eng).logs() + old(self).build_pending(),
            r matches Ok(p) ==> p@ == old(self).plan_of(),
            r is Ok ==> final(self).signal_ready(),
            r is Err ==> final(eng).logs().is_prefix_of(
                old(eng).logs() + old(self).build_pending(),
            ),
            old(eng).fail_schedule@.len() == 0 && old(self).clean() ==> r is Ok,
    ;

    /// Record that the device has retired this chain's work. Never called
    /// before every submission of the chain has been handed to a queue:
    /// finished implies submitted, by construction.
    fn signal_finished(&mut self)
        requires
            old(self).inv(),
            old(self).signal_ready(),
        ensures
            final(self).inv(),
            final(self).finished(),
            final(self).signal_ready(),
            final(self).device_id() == old(self).device_id(),
            final(self).queue_of() == old(self).queue_of(),
            final(self).change_allowed() == old(self).change_allowed(),
            final(self).flushed() == old(self).flushed(),
            final(self).clean() == old(self).clean(),
            final(self).presentless() == old(self).presentless(),
            final(self).pending() == old(self).pending(),
            final(self).build_pending() == old(self).build_pending(),
            final(self).plan_of() == old(self).plan_of(),
            forall|s: u64, f: u64, q: u64| #[trigger]
                old(self).bounded(s, f, q) ==> final(self).bounded(s, f, q),
    ;

    /// Does this chain touch `buffer` in `range_start .. range_end`, and if
    /// so with which stages and access flags?
    fn check_buffer_access(
        &self,
        buffer: u64,
        range_start: u64,
        range_end: u64,
        exclusive: bool,
        queue: u64,
    ) -> (r: AccessCheck)
        ensures
            r == self.buffer_access_of(buffer, range_start, range_end, exclusive, queue),
    ;

    /// The image equivalent of `check_buffer_access`, with the layout the
    /// caller expects the image to be in.
    fn check_image_access(
        &self,
        image: u64,
        range_start: u64,
        range_end: u64,
        exclusive: bool,
        layout: u32,
        queue: u64,
    ) -> (r: AccessCheck)
        ensures
            r == self.image_access_of(image, range_start, range_end, exclusive, layout, queue),
    ;
}

/// Merges two independent chains into one future that is satisfied only
/// when both are. Its submission plan is the union of both inputs' plans;
/// the union is commutative, so the order in which the chains were joined
/// never changes the end behavior. The merge rules never consult queues:
/// cross-queue ordering comes only from the semaphore waits the plans
/// carry, never from host timing, so a chain whose work is not yet fenced
/// by a semaphore should be wrapped in a signal decorator before it is
/// joined with work on another queue.
pub struct JoinFuture<A: GpuFuture2, B: GpuFuture2> {
    pub first: A,
    pub second: B,
}

/// Joins two futures into one that is satisfied only when both are.
pub fn join<A: GpuFuture2, B: GpuFuture2>(first: A, second: B) -> (r: JoinFuture<A, B>)
    requires
        first.inv(),
        second.inv(),
        first.device_id() == second.device_id(),
    ensures
        r.first == first,
        r.second == second,
        r.inv(),
{
    JoinFuture { first, second }
}

impl<A: GpuFuture2, B: GpuFuture2> GpuFuture2 for JoinFuture<A, B> {
    open spec fn device_id(&self) -> u64 {
        self.first.device_id()
    }

    open spec fn queue_of(&self) -> Option<u64> {
        if self.first.queue_of() is None {
            self.second.queue_of()
        } else if self.second.queue_of() is None {
            self.first.queue_of()
        } else if self.first.queue_of() == self.second.queue_of() {
            self.first.queue_of()
        } else {
            None
        }
    }

    open spec fn change_allowed(&self) -> bool {
        self.first.change_allowed() && self.second.change_allowed()
    }

    open spec fn flushed(&self) -> bool {
        self.first.flushed() && self.second.flushed()
    }

    open spec fn finished(&self) -> bool {
        self.first.finished() && self.second.finished()
    }

    open spec fn signal_ready(&self) -> bool {
        self.first.signal_ready() && self.second.signal_ready()
    }

    open spec fn clean(&self) -> bool {
        &&& self.first.clean()
        &&& self.second.clean()
        &&& self.first.presentless()
        &&& self.second.presentless()
    }

    open spec fn presentless(&self) -> bool {
        &&& self.first.presentless()
        &&& self.second.presentless()
    }

    open spec fn pending(&self) -> Seq<RecS> {
        self.first.pending() + self.second.pending()
    }

    open spec fn build_pending(&self) -> Seq<RecS> {
        self.first.build_pending() + self.second.build_pending()
    }

    open spec fn plan_of(&self) -> PlanS {
        match merge_spec(self.first.plan_of(), self.second.plan_of()) {
            Some(p) => p,
            None => PlanS::Empty,
        }
    }

    open spec fn inv(&self) -> bool {
        &&& self.first.inv()
        &&& self.second.inv()
        &&& self.first.device_id() == self.second.device_id()
    }

    open spec fn bounded(&self, sems: u64, fences: u64, queues: u64) -> bool {
        &&& self.first.bounded(sems, fences, queues)
        &&& self.second.bounded(sems, fences, queues)
    }

    /// Answers are combined commutatively: one side's answer stands alone,
    /// and two affirmative answers are joined by taking the union of the
    /// stage and access masks.
    open spec fn buffer_access_of(
        &self,
        buffer: u64,
        range_start: u64,
        range_end: u64,
        exclusive: bool,
        queue: u64,
    ) -> AccessCheck {
        join_access(
            self.first.buffer_access_of(buffer, range_start, range_end, exclusive, queue),
            self.second.buffer_access_of(buffer, range_start, range_end, exclusive, queue),
        )
    }

    open spec fn image_access_of(
        &self,
        image: u64,
        range_start: u64,
        range_end: u64,
        exclusive: bool,
        layout: u32,
        queue: u64,
    ) -> AccessCheck {
        join_access(
            self.first.image_access_of(image, range_start, range_end, exclusive, layout, queue),
            self.second.image_access_of(image, range_start, range_end, exclusive, layout, queue),
        )
    }

    proof fn lemma_wf(&self, sems: u64, fences: u64, queues: u64) {
        self.first.lemma_wf(sems, fences, queues);
        self.second.lemma_wf(sems, fences, queues);
        lemma_merge_benign(self.first.plan_of(), self.second.plan_of());
        if self.first.presentless() && self.second.presentless() {
            lemma_merge_not_present(self.first.plan_of(), self.second.plan_of());
        }
    }

    fn device(&self) -> (r: u64) {
        self.first.device()
    }

    fn queue(&self) -> (r: Option<u64>) {
        let q1 = self.first.queue();
        let q2 = self.second.queue();
        match (q1, q2) {
            (None, _) => q2,
            (_, None) => q1,
            (Some(x), Some(y)) => if x == y {
                Some(x)
            } else {
                None
            },
        }
    }

    fn queue_change_allowed(&self) -> (r: bool) {
        let a = self.first.queue_change_allowed();
        let b = self.second.queue_change_allowed();
        a && b
    }

    fn cleanup_finished(&mut self) {
        self.first.cleanup_finished();
        self.second.cleanup_finished();
    }

    fn flush(&mut self, eng: &mut Engine) -> (r: Result<(), FlushError>) {
        let ghost prior = *old(self);
        match self.first.flush(eng) {
            Ok(()) => {},
            Err(e) => {
                proof {
                    crate::engine::lemma_log_prefix_of_concat(
                        old(eng).logs() + prior.first.pending(),
                        prior.second.pending(),
                    );
                    assert((old(eng).logs() + prior.first.pending()) + prior.second.pending()
                        =~= old(eng).logs() + prior.pending());
                    crate::engine::lemma_log_prefix_trans(
                        eng.logs(),
                        old(eng).logs() + prior.first.pending(),
                        old(eng).logs() + prior.pending(),
                    );
                }
                return Err(e);
            },
        }
        match self.second.flush(eng) {
            Ok(()) => {},
            Err(e) => {
                proof {
                    assert((old(eng).logs() + prior.first.pending()) + prior.second.pending()
                        =~= old(eng).logs() + prior.pending());
                }
                return Err(e);
            },
        }
        proof {
            assert(eng.logs() =~= old(eng).logs() + prior.pending());
        }
        Ok(())
    }

    fn build_submission(&mut self, eng: &mut Engine) -> (r: Result<SubmitPlan, FlushError>) {
        let ghost prior = *old(self);
        let p1 = match self.first.build_submission(eng) {
            Ok(p) => p,
            Err(e) => {
                proof {
                    crate::engine::lemma_log_prefix_of_concat(
                        old(eng).logs() + prior.first.build_pending(),
                        prior.second.build_pending(),
                    );
                    assert((old(eng).logs() + prior.first.build_pending())
                        + prior.second.build_pending() =~= old(eng).logs()
                        + prior.build_pending());
                    crate::engine::lemma_log_prefix_trans(
                        eng.logs(),
                        old(eng).logs() + prior.first.build_pending(),
                        old(eng).logs() + prior.build_pending(),
                    );
                }
                return Err(e);
            },
        };
        let p2 = match self.second.build_submission(eng) {
            Ok(p) => p,
            Err(e) => {
                proof {
                    assert((old(eng).logs() + prior.first.build_pending())
                        + prior.second.build_pending() =~= old(eng).logs()
                        + prior.build_pending());
                }
                return Err(e);
            },
        };
        proof {
            if prior.clean() {
                prior.first.lemma_wf(
                    old(eng).semaphores_acquired,
                    old(eng).fences_acquired,
                    old(eng).queue_count,
                );
                prior.second.lemma_wf(
                    old(eng).semaphores_acquired,
                    old(eng).fences_acquired,
                    old(eng).queue_count,
                );
                lemma_mergeable_merge(prior.first.plan_of(), prior.second.plan_of());
            }
            assert(eng.logs() =~= old(eng).logs() + prior.build_pending());
            crate::engine::lemma_log_prefix_of_concat(eng.logs(), Seq::<RecS>::empty());
        }
        match merge_plans(p1, p2) {
            Some(p) => Ok(p),
            None => Err(FlushError::Unimplemented),
        }
    }

    fn signal_finished(&mut self) {
        self.first.signal_finished();
        self.second.signal_finished();
    }

    fn check_buffer_access(
        &self,
        buffer: u64,
        range_start: u64,
        range_end: u64,
        exclusive: bool,
        queue: u64,
    ) -> (r: AccessCheck) {
        let a = self.first.check_buffer_access(buffer, range_start, range_end, exclusive, queue);
        let b = self.second.check_buffer_access(buffer, range_start, range_end, exclusive, queue);
        join_access_exec(a, b)
    }

    fn check_image_access(
        &self,
        image: u64,
        range_start: u64,
        range_end: u64,
        exclusive: bool,
        layout: u32,
        queue: u64,
    ) -> (r: AccessCheck) {
        let a = self.first.check_image_access(
            image,
            range_start,
            range_end,
            exclusive,
            layout,
            queue,
        );
        let b = self.second.check_image_access(
            image,
            range_start,
            range_end,
            exclusive,
            layout,
            queue,
        );
        join_access_exec(a, b)
    }
}

/// How a join combines the two sides' answers to one access query. One
/// side's answer stands alone; two affirmative answers take the union of
/// the stage and access masks; an error on either side stands, the first
/// side's first.
pub open spec fn join_access(a: AccessCheck, b: AccessCheck) -> AccessCheck {
    match (a, b) {
        (Err(AccessCheckError::Unknown), other) => other,
        (other, Err(AccessCheckError::Unknown)) => other,
        (Err(e), _) => Err(e),
        (_, Err(e)) => Err(e),
        (Ok(None), other) => other,
        (other, Ok(None)) => other,
        (Ok(Some((s1, a1))), Ok(Some((s2, a2)))) => Ok(Some(((s1 | s2), (a1 | a2)))),
    }
}

/// Executable twin of `join_access`.
fn join_access_exec(a: AccessCheck, b: AccessCheck) -> (r: AccessCheck)
    ensures
        r == join_access(a, b),
{
    match (a, b) {
        (Err(AccessCheckError::Unknown), other) => other,
        (other, Err(AccessCheckError::Unknown)) => other,
        (Err(e), _) => Err(e),
        (_, Err(e)) => Err(e),
        (Ok(None), other) => other,
        (other, Ok(None)) => other,
        (Ok(Some((s1, a1))), Ok(Some((s2, a2)))) => Ok(Some(((s1 | s2), (a1 | a2)))),
    }
}

/// A join is satisfied exactly when both of its inputs are.
pub proof fn lemma_join_satisfied<A: GpuFuture2, B: GpuFuture2>(j: &JoinFuture<A, B>)
    ensures
        j.finished() == (j.first.finished() && j.second.finished()),
        j.flushed() == (j.first.flushed() && j.second.flushed()),
{
}

/// Joining is commutative: the two orders of construction are satisfied in
/// the same states, perform the same multiset of submissions when flushed,
/// and hand their consumer equivalent plans.
pub proof fn lemma_join_commutative<A: GpuFuture2, B: GpuFuture2>(a: A, b: B)
    ensures
        (JoinFuture { first: a, second: b }).finished() == (JoinFuture {
            first: b,
            second: a,
        }).finished(),
        (JoinFuture { first: a, second: b }).flushed() == (JoinFuture {
            first: b,
            second: a,
        }).flushed(),
        (JoinFuture { first: a, second: b }).pending().to_multiset() == (JoinFuture {
            first: b,
            second: a,
        }).pending().to_multiset(),
        plan_equiv(
            (JoinFuture { first: a, second: b }).plan_of(),
            (JoinFuture { first: b, second: a }).plan_of(),
        ),
{
    broadcast use vstd::seq_lib::lemma_multiset_commutative;
    broadcast use vstd::multiset::group_multiset_axioms;

    lemma_merge_commutative(a.plan_of(), b.plan_of());
    assert(a.pending().to_multiset().add(b.pending().to_multiset()) =~= b.pending().to_multiset()
        .add(a.pending().to_multiset()));
}

/// One of the two handles a fork splits a future into. Each handle is
/// valid only for access queries about its own side of the resource
/// partition: the side named by `resources` when `inside` is set, the rest
/// of the world otherwise. A query for a resource on the other side fails
/// fast rather than inventing a "no conflict" answer that could hide a
/// data race.
pub struct ForkFuture<F: GpuFuture2> {
    pub inner: std::sync::Arc<F>,
    pub resources: Vec<u64>,
    pub inside: bool,
    pub finished: bool,
}

/// Relies on alloc's `Arc::clone`: the returned handle refers to the same
/// inner value.
#[verifier::external_body]
fn share<T>(a: &std::sync::Arc<T>) -> (r: std::sync::Arc<T>)
    ensures
        *r == **a,
{
    a.clone()
}

/// Splits an already flushed future into two handles over disjoint
/// resource subsets: the first answers for the resources listed, the
/// second for everything else, so two independent consumers can each build
/// their own downstream chain without false conflicts.
///
/// The future must be flushed before it is split: the two handles share it
/// and neither can flush it afterwards, so forking an unflushed chain
/// would leave its mandatory flush unreachable.
pub fn fork<F: GpuFuture2>(future: F, resources_for_fork: Vec<u64>) -> (r: (
    ForkFuture<F>,
    ForkFuture<F>,
))
    requires
        future.inv(),
        future.flushed(),
    ensures
        *r.0.inner == future,
        *r.1.inner == future,
        r.0.resources@ == resources_for_fork@,
        r.1.resources@ == resources_for_fork@,
        r.0.inside,
        !r.1.inside,
        !r.0.finished,
        !r.1.finished,
        r.0.inv(),
        r.1.inv(),
{
    let resources_rest = resources_for_fork.clone();
    proof {
        assert(resources_rest@ =~= resources_for_fork@);
    }
    let inner = std::sync::Arc::new(future);
    let inner_rest = share(&inner);
    (
        ForkFuture { inner, resources: resources_for_fork, inside: true, finished: false },
        ForkFuture { inner: inner_rest, resources: resources_rest, inside: false, finished: false },
    )
}

impl<F: GpuFuture2> ForkFuture<F> {
    /// Whether `resource` lies in the subset this handle answers for.
    pub open spec fn in_partition(&self, resource: u64) -> bool {
        self.resources@.contains(resource) == self.inside
    }
}

/// Whether `x` occurs in `v`.
fn vec_contains(v: &Vec<u64>, x: u64) -> (r: bool)
    ensures
        r == v@.contains(x),
{
    let mut i: usize = 0;
    while i < v.len()
        invariant
            0 <= i <= v@.len(),
            forall|j: int| 0 <= j < i ==> v@[j] != x,
        decreases v@.len() - i,
    {
        if v[i] == x {
            return true;
        }
        i = i + 1;
    }
    false
}

impl<F: GpuFuture2> GpuFuture2 for ForkFuture<F> {
    open spec fn device_id(&self) -> u64 {
        (*self.inner).device_id()
    }

    open spec fn queue_of(&self) -> Option<u64> {
        (*self.inner).queue_of()
    }

    open spec fn change_allowed(&self) -> bool {
        (*self.inner).change_allowed()
    }

    open spec fn flushed(&self) -> bool {
        true
    }

    open spec fn finished(&self) -> bool {
        self.finished
    }

    open spec fn signal_ready(&self) -> bool {
        true
    }

    open spec fn clean(&self) -> bool {
        true
    }

    open spec fn presentless(&self) -> bool {
        true
    }

    open spec fn pending(&self) -> Seq<RecS> {
        Seq::empty()
    }

    open spec fn build_pending(&self) -> Seq<RecS> {
        Seq::empty()
    }

    open spec fn plan_of(&self) -> PlanS {
        PlanS::Empty
    }

    open spec fn inv(&self) -> bool {
        &&& (*self.inner).inv()
        &&& (*self.inner).flushed()
    }

    open spec fn bounded(&self, sems: u64, fences: u64, queues: u64) -> bool {
        (*self.inner).bounded(sems, fences, queues)
    }

    open spec fn buffer_access_of(
        &self,
        buffer: u64,
        range_start: u64,
        range_end: u64,
        exclusive: bool,
        queue: u64,
    ) -> AccessCheck {
        if self.in_partition(buffer) {
            (*self.inner).buffer_access_of(buffer, range_start, range_end, exclusive, queue)
        } else {
            Err(AccessCheckError::OutsidePartition)
        }
    }

    open spec fn image_access_of(
        &self,
        image: u64,
        range_start: u64,
        range_end: u64,
        exclusive: bool,
        layout: u32,
        queue: u64,
    ) -> AccessCheck {
        if self.in_partition(image) {
            (*self.inner).image_access_of(image, range_start, range_end, exclusive, layout, queue)
        } else {
            Err(AccessCheckError::OutsidePartition)
        }
    }

    proof fn lemma_wf(&self, sems: u64, fences: u64, queues: u64) {
        (*self.inner).lemma_wf(sems, fences, queues);
    }

    fn device(&self) -> (r: u64) {
        (*self.inner).device()
    }

    fn queue(&self) -> (r: Option<u64>) {
        (*self.inner).queue()
    }

    fn queue_change_allowed(&self) -> (r: bool) {
        (*self.inner).queue_change_allowed()
    }

    fn cleanup_finished(&mut self) {
    }

    /// The chain behind the handles was flushed before the fork, so there
    /// is nothing left to submit.
    fn flush(&mut self, eng: &mut Engine) -> (r: Result<(), FlushError>) {
        Ok(())
    }

    fn build_submission(&mut self, eng: &mut Engine) -> (r: Result<SubmitPlan, FlushError>) {
        Ok(SubmitPlan::Empty)
    }

    /// Marks this handle's view of the shared chain finished. The shared
    /// upstream is reported finished by the consumer that owns it.
    fn signal_finished(&mut self) {
        self.finished = true;
    }

    fn check_buffer_access(
        &self,
        buffer: u64,
        range_start: u64,
        range_end: u64,
        exclusive: bool,
        queue: u64,
    ) -> (r: AccessCheck) {
        let inside = vec_contains(&self.resources, buffer);
        if inside == self.inside {
            (*self.inner).check_buffer_access(buffer, range_start, range_end, exclusive, queue)
        } else {
            Err(AccessCheckError::OutsidePartition)
        }
    }

    fn check_image_access(
        &self,
        image: u64,
        range_start: u64,
        range_end: u64,
        exclusive: bool,
        layout: u32,
        queue: u64,
    ) -> (r: AccessCheck) {
        let inside = vec_contains(&self.resources, image);
        if inside == self.inside {
            (*self.inner).check_image_access(image, range_start, range_end, exclusive, layout, queue)
        } else {
            Err(AccessCheckError::OutsidePartition)
        }
    }
}

/// Inside its partition a fork handle answers exactly as the un-forked
/// parent would; outside it, the query fails with the access-check error.
pub proof fn lemma_fork_access_partition<F: GpuFuture2>(
    h: &ForkFuture<F>,
    resource: u64,
    range_start: u64,
    range_end: u64,
    exclusive: bool,
    layout: u32,
    queue: u64,
)
    ensures
        h.in_partition(resource) ==> h.buffer_access_of(
            resource,
            range_start,
            range_end,
            exclusive,
            queue,
        ) == (*h.inner).buffer_access_of(resource, range_start, range_end, exclusive, queue),
        h.in_partition(resource) ==> h.image_access_of(
            resource,
            range_start,
            range_end,
            exclusive,
            layout,
            queue,
        ) == (*h.inner).image_access_of(resource, range_start, range_end, exclusive, layout, queue),
        !h.in_partition(resource) ==> h.buffer_access_of(
            resource,
            range_start,
            range_end,
            exclusive,
            queue,
        ) == Err::<Option<StageAccess>, AccessCheckError>(AccessCheckError::OutsidePartition),
        !h.in_partition(resource) ==> h.image_access_of(
            resource,
            range_start,
            range_end,
            exclusive,
            layout,
            queue,
        ) == Err::<Option<StageAccess>, AccessCheckError>(AccessCheckError::OutsidePartition),
{
}

} // verus!
