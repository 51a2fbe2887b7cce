//! Submission plans: the lazily built description of what the next queue
//! submission must contain, together with the rules for merging two plans.
//!
//! A plan is an owned, move-only value: merging consumes both inputs, so a
//! synchronization primitive recorded in one plan can never be referenced
//! from two plans at once.

use vstd::prelude::*;

verus! {

/// Ghost-level description of a submission plan, used throughout the
/// contracts of this crate.
pub ghost enum PlanS {
    /// Nothing to submit.
    Empty,
    /// Wait on these binary semaphores, by pool id.
    SemaphoresWait { waits: Seq<u64> },
    /// One command submission: wait on `waits`, then signal `signals`.
    CommandSubmission { waits: Seq<u64>, signals: Seq<u64> },
    /// A sparse-binding operation. No future in this crate produces one;
    /// layering anything onto it is a hard error.
    BindSparse,
    /// Present `image_index` of `swapchain` to its surface, after waiting
    /// on `waits`.
    QueuePresent { waits: Seq<u64>, swapchain: u64, image_index: u64 },
}

/// Executable submission plan. `view` abstracts it to `PlanS`.
#[derive(Debug)]
pub enum SubmitPlan {
    Empty,
    SemaphoresWait { waits: Vec<u64> },
    CommandSubmission { waits: Vec<u64>, signals: Vec<u64> },
    BindSparse,
    QueuePresent { waits: Vec<u64>, swapchain: u64, image_index: u64 },
}

impl View for SubmitPlan {
    type V = PlanS;

    open spec fn view(&self) -> PlanS {
        match self {
            SubmitPlan::Empty => PlanS::Empty,
            SubmitPlan::SemaphoresWait { waits } => PlanS::SemaphoresWait { waits: waits@ },
            SubmitPlan::CommandSubmission { waits, signals } => PlanS::CommandSubmission {
                waits: waits@,
                signals: signals@,
            },
            SubmitPlan::BindSparse => PlanS::BindSparse,
            SubmitPlan::QueuePresent { waits, swapchain, image_index } => PlanS::QueuePresent {
                waits: waits@,
                swapchain: *swapchain,
                image_index: *image_index,
            },
        }
    }
}

/// A plan that a decorator can layer a signal onto without losing
/// information: not a sparse bind, and carrying no signal of its own yet.
pub open spec fn plan_benign(p: PlanS) -> bool {
    &&& !(p is BindSparse)
    &&& (p matches PlanS::CommandSubmission { signals, .. } ==> signals.len() == 0)
}

/// A plan that can stand on either side of a merge: every combination of
/// such plans has a merge rule.
pub open spec fn plan_mergeable(p: PlanS) -> bool {
    match p {
        PlanS::Empty => true,
        PlanS::SemaphoresWait { .. } => true,
        PlanS::CommandSubmission { .. } => true,
        PlanS::BindSparse => false,
        PlanS::QueuePresent { .. } => false,
    }
}

/// Two plans are equivalent when they are the same kind of submission and
/// impose the same wait and signal requirements, regardless of the order in
/// which those requirements were merged in.
pub open spec fn plan_equiv(a: PlanS, b: PlanS) -> bool {
    match (a, b) {
        (PlanS::Empty, PlanS::Empty) => true,
        (PlanS::SemaphoresWait { waits: w1 }, PlanS::SemaphoresWait { waits: w2 }) => w1.to_multiset()
            == w2.to_multiset(),
        (
            PlanS::CommandSubmission { waits: w1, signals: s1 },
            PlanS::CommandSubmission { waits: w2, signals: s2 },
        ) => w1.to_multiset() == w2.to_multiset() && s1.to_multiset() == s2.to_multiset(),
        (PlanS::BindSparse, PlanS::BindSparse) => true,
        (
            PlanS::QueuePresent { waits: w1, swapchain: c1, image_index: i1 },
            PlanS::QueuePresent { waits: w2, swapchain: c2, image_index: i2 },
        ) => w1.to_multiset() == w2.to_multiset() && c1 == c2 && i1 == i2,
        _ => false,
    }
}

/// The merge rules for the plans that the combinators of this crate produce.
/// `None` marks a combination that must fail fast: merging would silently
/// drop a submission requirement.
pub open spec fn merge_spec(a: PlanS, b: PlanS) -> Option<PlanS> {
    match (a, b) {
        (PlanS::Empty, _) => Some(b),
        (_, PlanS::Empty) => Some(a),
        (PlanS::SemaphoresWait { waits: w1 }, PlanS::SemaphoresWait { waits: w2 }) => Some(
            PlanS::SemaphoresWait { waits: w1 + w2 },
        ),
        (PlanS::SemaphoresWait { waits: w1 }, PlanS::CommandSubmission { waits: w2, signals }) => Some(
            PlanS::CommandSubmission { waits: w2 + w1, signals },
        ),
        (PlanS::CommandSubmission { waits: w1, signals }, PlanS::SemaphoresWait { waits: w2 }) => Some(
            PlanS::CommandSubmission { waits: w1 + w2, signals },
        ),
        (
            PlanS::CommandSubmission { waits: w1, signals: s1 },
            PlanS::CommandSubmission { waits: w2, signals: s2 },
        ) => Some(PlanS::CommandSubmission { waits: w1 + w2, signals: s1 + s2 }),
        _ => None,
    }
}

/// Merging is commutative up to plan equivalence: the union never depends on
/// which side was merged into which.
pub proof fn lemma_merge_commutative(a: PlanS, b: PlanS)
    ensures
        merge_spec(a, b) is Some <==> merge_spec(b, a) is Some,
        merge_spec(a, b) matches Some(p1) ==> merge_spec(b, a) matches Some(p2) && plan_equiv(
            p1,
            p2,
        ),
{
    broadcast use vstd::seq_lib::lemma_multiset_commutative;

    match (a, b) {
        (PlanS::SemaphoresWait { waits: w1 }, PlanS::SemaphoresWait { waits: w2 }) => {
            assert((w1 + w2).to_multiset() == (w2 + w1).to_multiset());
        },
        (
            PlanS::CommandSubmission { waits: w1, signals: s1 },
            PlanS::CommandSubmission { waits: w2, signals: s2 },
        ) => {
            assert((w1 + w2).to_multiset() == (w2 + w1).to_multiset());
            assert((s1 + s2).to_multiset() == (s2 + s1).to_multiset());
        },
        _ => {},
    }
}

/// `merge_spec` continued onto one more plan, for stating associativity.
pub open spec fn merge_onto(x: Option<PlanS>, c: PlanS) -> Option<PlanS> {
    match x {
        Some(p) => merge_spec(p, c),
        None => None,
    }
}

/// `merge_spec` with one more plan merged in front.
pub open spec fn merge_under(a: PlanS, x: Option<PlanS>) -> Option<PlanS> {
    match x {
        Some(p) => merge_spec(a, p),
        None => None,
    }
}

/// All ways of concatenating three wait or signal sets carry the same
/// multiset.
proof fn lemma_concat3_multiset(x: Seq<u64>, y: Seq<u64>, z: Seq<u64>)
    ensures
        ((x + y) + z).to_multiset() == x.to_multiset().add(y.to_multiset()).add(z.to_multiset()),
        ((x + z) + y).to_multiset() == x.to_multiset().add(y.to_multiset()).add(z.to_multiset()),
        ((y + x) + z).to_multiset() == x.to_multiset().add(y.to_multiset()).add(z.to_multiset()),
        ((y + z) + x).to_multiset() == x.to_multiset().add(y.to_multiset()).add(z.to_multiset()),
        ((z + x) + y).to_multiset() == x.to_multiset().add(y.to_multiset()).add(z.to_multiset()),
        ((z + y) + x).to_multiset() == x.to_multiset().add(y.to_multiset()).add(z.to_multiset()),
        (x + (y + z)).to_multiset() == x.to_multiset().add(y.to_multiset()).add(z.to_multiset()),
        (x + (z + y)).to_multiset() == x.to_multiset().add(y.to_multiset()).add(z.to_multiset()),
        (y + (x + z)).to_multiset() == x.to_multiset().add(y.to_multiset()).add(z.to_multiset()),
        (y + (z + x)).to_multiset() == x.to_multiset().add(y.to_multiset()).add(z.to_multiset()),
        (z + (x + y)).to_multiset() == x.to_multiset().add(y.to_multiset()).add(z.to_multiset()),
        (z + (y + x)).to_multiset() == x.to_multiset().add(y.to_multiset()).add(z.to_multiset()),
{
    broadcast use vstd::seq_lib::lemma_multiset_commutative;
    broadcast use vstd::multiset::group_multiset_axioms;

    let mx = x.to_multiset();
    let my = y.to_multiset();
    let mz = z.to_multiset();
    assert(mx.add(my) =~= my.add(mx));
    assert(mx.add(mz) =~= mz.add(mx));
    assert(my.add(mz) =~= mz.add(my));
    assert(mx.add(my).add(mz) =~= mx.add(mz).add(my));
    assert(mx.add(my).add(mz) =~= my.add(mx).add(mz));
    assert(mx.add(my).add(mz) =~= my.add(mz).add(mx));
    assert(mx.add(my).add(mz) =~= mz.add(mx).add(my));
    assert(mx.add(my).add(mz) =~= mz.add(my).add(mx));
    assert(mx.add(my).add(mz) =~= mx.add(my.add(mz)));
    assert(mx.add(my).add(mz) =~= mx.add(mz.add(my)));
    assert(mx.add(my).add(mz) =~= my.add(mx.add(mz)));
    assert(mx.add(my).add(mz) =~= my.add(mz.add(mx)));
    assert(mx.add(my).add(mz) =~= mz.add(mx.add(my)));
    assert(mx.add(my).add(mz) =~= mz.add(my.add(mx)));
}

/// Merging is associative up to plan equivalence: layering plans one onto
/// another never depends on the grouping, so join order cannot change end
/// behavior.
pub proof fn lemma_merge_associative(a: PlanS, b: PlanS, c: PlanS)
    ensures
        merge_onto(merge_spec(a, b), c) is Some <==> merge_under(a, merge_spec(b, c)) is Some,
        merge_onto(merge_spec(a, b), c) matches Some(p1) ==> merge_under(a, merge_spec(b, c))
            matches Some(p2) && plan_equiv(p1, p2),
{
    broadcast use vstd::seq_lib::lemma_multiset_commutative;
    broadcast use vstd::multiset::group_multiset_axioms;

    if plan_mergeable(a) && plan_mergeable(b) && plan_mergeable(c) {
        let wa = plan_wait_set(a);
        let wb = plan_wait_set(b);
        let wc = plan_wait_set(c);
        let sa = plan_signal_set(a);
        let sb = plan_signal_set(b);
        let sc = plan_signal_set(c);
        lemma_concat3_multiset(wa, wb, wc);
        lemma_concat3_multiset(sa, sb, sc);
    }
}

/// The waits a mergeable plan carries.
pub open spec fn plan_wait_set(p: PlanS) -> Seq<u64> {
    match p {
        PlanS::SemaphoresWait { waits } => waits,
        PlanS::CommandSubmission { waits, .. } => waits,
        _ => Seq::empty(),
    }
}

/// The signals a mergeable plan carries.
pub open spec fn plan_signal_set(p: PlanS) -> Seq<u64> {
    match p {
        PlanS::CommandSubmission { signals, .. } => signals,
        _ => Seq::empty(),
    }
}

/// Merging a benign plan into a benign plan yields a benign plan.
pub proof fn lemma_merge_benign(a: PlanS, b: PlanS)
    requires
        plan_benign(a),
        plan_benign(b),
    ensures
        merge_spec(a, b) matches Some(p) ==> plan_benign(p),
{
}

/// Merging plans that are not presents never produces a present.
pub proof fn lemma_merge_not_present(a: PlanS, b: PlanS)
    requires
        !(a is QueuePresent),
        !(b is QueuePresent),
    ensures
        merge_spec(a, b) matches Some(p) ==> !(p is QueuePresent),
{
}

/// Two mergeable plans always merge, and to a mergeable plan.
pub proof fn lemma_mergeable_merge(a: PlanS, b: PlanS)
    requires
        plan_mergeable(a),
        plan_mergeable(b),
    ensures
        merge_spec(a, b) is Some,
        plan_mergeable(merge_spec(a, b).unwrap()),
{
}

/// Executable merge of two plans, following `merge_spec` exactly. Both
/// inputs are consumed; on an undefined combination the call fails and the
/// requirements of both sides are reported lost to the caller as an error.
pub fn merge_plans(a: SubmitPlan, b: SubmitPlan) -> (r: Option<SubmitPlan>)
    ensures
        r matches Some(p) ==> merge_spec(a@, b@) == Some(p@),
        r is None <==> merge_spec(a@, b@) is None,
{
    match (a, b) {
        (SubmitPlan::Empty, other) => Some(other),
        (other, SubmitPlan::Empty) => Some(other),
        (SubmitPlan::SemaphoresWait { waits: mut w1 }, SubmitPlan::SemaphoresWait { waits: w2 }) => {
            let mut w2 = w2;
            w1.append(&mut w2);
            Some(SubmitPlan::SemaphoresWait { waits: w1 })
        },
        (
            SubmitPlan::SemaphoresWait { waits: w1 },
            SubmitPlan::CommandSubmission { waits: mut w2, signals },
        ) => {
            let mut w1 = w1;
            w2.append(&mut w1);
            Some(SubmitPlan::CommandSubmission { waits: w2, signals })
        },
        (
            SubmitPlan::CommandSubmission { waits: mut w1, signals },
            SubmitPlan::SemaphoresWait { waits: w2 },
        ) => {
            let mut w2 = w2;
            w1.append(&mut w2);
            Some(SubmitPlan::CommandSubmission { waits: w1, signals })
        },
        (
            SubmitPlan::CommandSubmission { waits: mut w1, signals: mut s1 },
            SubmitPlan::CommandSubmission { waits: w2, signals: s2 },
        ) => {
            let mut w2 = w2;
            let mut s2 = s2;
            w1.append(&mut w2);
            s1.append(&mut s2);
            Some(SubmitPlan::CommandSubmission { waits: w1, signals: s1 })
        },
        _ => None,
    }
}

} // verus!
