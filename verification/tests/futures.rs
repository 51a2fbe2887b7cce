use deferred_sync::engine::Engine;
use deferred_sync::future::{AccessCheckError, FlushError, GpuFuture2};
use deferred_sync::now_future::{now2, now_on_queue};
use deferred_sync::plan::SubmitPlan;
use deferred_sync::present::then_swapchain_present;
use deferred_sync::semaphore_signal::then_signal_semaphore;
use deferred_sync::swapchain_acquire_future::{SwapchainAcquireFuture2, LAYOUT_PRESENT_SRC};

#[test]
fn create() {
    let mut eng = Engine::new(7, 1);

    let future = now2(7);
    assert_eq!(future.device, 7);

    let fence = eng.acquire_fence(false);
    let semaphore = eng.acquire_semaphore();
    let acquired = SwapchainAcquireFuture2 {
        device: 7,
        swapchain: 1,
        image_id: 0,
        image_handle: 100,
        semaphore: Some(semaphore),
        fence: Some(fence),
        finished: false,
    };
    assert_eq!(acquired.swapchain, 1);
    acquired.abandon(&mut eng);
}

#[test]
fn flush_twice_performs_one_submission() {
    let mut eng = Engine::new(1, 1);
    let base = now_on_queue(1, 0);
    let mut fut = then_signal_semaphore(base, &mut eng);

    assert!(fut.flush(&mut eng).is_ok());
    assert_eq!(eng.submission_count(), 1);

    assert!(fut.flush(&mut eng).is_ok());
    assert_eq!(eng.submission_count(), 1);
}

#[test]
fn signal_over_completed_submits_once_with_one_signal() {
    let mut eng = Engine::new(1, 1);
    let base = now_on_queue(1, 0);
    let mut fut = then_signal_semaphore(base, &mut eng);
    let sem_id = fut.semaphore.id;

    assert!(fut.flush(&mut eng).is_ok());
    assert_eq!(eng.submission_count(), 1);
    match &eng.log[0].plan {
        SubmitPlan::CommandSubmission { waits, signals } => {
            assert_eq!(waits.len(), 0);
            assert_eq!(signals.len(), 1);
            assert_eq!(signals[0], sem_id);
        },
        _ => panic!("expected a command submission"),
    }

    assert!(fut.flush(&mut eng).is_ok());
    assert_eq!(eng.submission_count(), 1);
}

#[test]
fn finished_only_after_flush() {
    let mut eng = Engine::new(1, 1);
    let base = now_on_queue(1, 0);
    let mut fut = then_signal_semaphore(base, &mut eng);

    assert!(!fut.finished);
    assert!(fut.flush(&mut eng).is_ok());
    assert!(fut.wait_submitted);
    fut.signal_finished();
    assert!(fut.finished);
    assert!(fut.wait_submitted);
}

#[test]
fn present_failure_is_retryable() {
    let mut eng = Engine::new(1, 1);
    let base = now_on_queue(1, 0);
    let present = then_swapchain_present(base, 0, 4, 2);
    let mut fut = then_signal_semaphore(present, &mut eng);

    eng.fail_schedule = vec![true];
    match fut.flush(&mut eng) {
        Err(FlushError::Submission(_)) => {},
        other => panic!("expected a retryable submission error, got {:?}", other),
    }
    assert!(!fut.wait_submitted);
    assert_eq!(eng.submission_count(), 0);

    // A fresh attempt presents and signals.
    assert!(fut.flush(&mut eng).is_ok());
    assert_eq!(eng.submission_count(), 2);
    assert!(matches!(eng.log[0].plan, SubmitPlan::QueuePresent { .. }));
    assert!(matches!(eng.log[1].plan, SubmitPlan::CommandSubmission { .. }));
}

#[test]
fn signal_failure_after_present_is_fatal() {
    let mut eng = Engine::new(1, 1);
    let base = now_on_queue(1, 0);
    let present = then_swapchain_present(base, 0, 4, 2);
    let mut fut = then_signal_semaphore(present, &mut eng);

    eng.fail_schedule = vec![false, true];
    match fut.flush(&mut eng) {
        Err(FlushError::NonRetryable(_)) => {},
        other => panic!("expected a fatal error, got {:?}", other),
    }
    assert!(!fut.wait_submitted);
    assert_eq!(eng.submission_count(), 1);

    // The present went through once; a retry refuses to run rather than
    // submit it a second time.
    match fut.flush(&mut eng) {
        Err(FlushError::NonRetryable(_)) => {},
        other => panic!("expected the flush to stay fatal, got {:?}", other),
    }
    assert_eq!(eng.submission_count(), 1);
}

#[test]
fn abandoned_acquire_blocks_on_fence() {
    let mut eng = Engine::new(3, 1);
    let fence = eng.acquire_fence(false);
    let fence_id = fence.id;
    let semaphore = eng.acquire_semaphore();
    let acquired = SwapchainAcquireFuture2 {
        device: 3,
        swapchain: 0,
        image_id: 1,
        image_handle: 50,
        semaphore: Some(semaphore),
        fence: Some(fence),
        finished: false,
    };

    assert!(!eng.fence_ready[fence_id as usize]);
    acquired.abandon(&mut eng);
    assert!(eng.fence_ready[fence_id as usize]);
}

#[test]
fn destroying_unfinished_signal_waits_for_idle() {
    let mut eng = Engine::new(1, 2);
    let base = now_on_queue(1, 1);
    let fut = then_signal_semaphore(base, &mut eng);
    let sem_id = fut.semaphore.id;

    assert!(fut.destroy(&mut eng).is_ok());
    assert_eq!(eng.submission_count(), 1);
    assert_eq!(eng.idle_waits, vec![1u64]);

    // The pool never reissues the retired semaphore's id.
    let fresh = eng.acquire_semaphore();
    assert_ne!(fresh.id, sem_id);
}

#[test]
fn destroying_finished_signal_does_nothing_further() {
    let mut eng = Engine::new(1, 1);
    let base = now_on_queue(1, 0);
    let mut fut = then_signal_semaphore(base, &mut eng);
    assert!(fut.flush(&mut eng).is_ok());
    fut.signal_finished();

    assert!(fut.destroy(&mut eng).is_ok());
    assert_eq!(eng.submission_count(), 1);
    assert_eq!(eng.idle_waits.len(), 0);
}

fn signal_multiset(eng: &Engine) -> Vec<u64> {
    let mut ids: Vec<u64> = Vec::new();
    for rec in &eng.log {
        if let SubmitPlan::CommandSubmission { signals, .. } = &rec.plan {
            for s in signals {
                ids.push(*s);
            }
        }
    }
    ids.sort();
    ids
}

#[test]
fn join_orders_submit_the_same_set() {
    let mut eng1 = Engine::new(1, 2);
    let a = then_signal_semaphore(now_on_queue(1, 0), &mut eng1);
    let b = then_signal_semaphore(now_on_queue(1, 1), &mut eng1);
    let mut joined = deferred_sync::future::join(a, b);
    assert!(joined.flush(&mut eng1).is_ok());

    let mut eng2 = Engine::new(1, 2);
    let a2 = then_signal_semaphore(now_on_queue(1, 0), &mut eng2);
    let b2 = then_signal_semaphore(now_on_queue(1, 1), &mut eng2);
    let mut joined_rev = deferred_sync::future::join(b2, a2);
    assert!(joined_rev.flush(&mut eng2).is_ok());

    assert_eq!(eng1.submission_count(), 2);
    assert_eq!(eng2.submission_count(), 2);
    assert_eq!(signal_multiset(&eng1), signal_multiset(&eng2));
}

#[test]
fn join_finished_only_when_both_are() {
    let mut eng = Engine::new(1, 1);
    let a = then_signal_semaphore(now_on_queue(1, 0), &mut eng);
    let b = then_signal_semaphore(now_on_queue(1, 0), &mut eng);
    let mut joined = deferred_sync::future::join(a, b);

    assert!(!joined.first.finished && !joined.second.finished);
    assert!(joined.flush(&mut eng).is_ok());
    joined.signal_finished();
    assert!(joined.first.finished && joined.second.finished);
}

#[test]
fn join_of_two_presents_fails_fast() {
    let mut eng = Engine::new(1, 1);
    let p1 = then_swapchain_present(now_on_queue(1, 0), 0, 10, 0);
    let p2 = then_swapchain_present(now_on_queue(1, 0), 0, 11, 0);
    let mut joined = deferred_sync::future::join(p1, p2);
    match joined.build_submission(&mut eng) {
        Err(FlushError::Unimplemented) => {},
        other => panic!("expected the merge to be refused, got {:?}", other),
    }
}

#[test]
fn fork_answers_inside_partition_like_parent() {
    let mut eng = Engine::new(3, 1);
    let semaphore = eng.acquire_semaphore();
    let acquired = SwapchainAcquireFuture2 {
        device: 3,
        swapchain: 0,
        image_id: 0,
        image_handle: 42,
        semaphore: Some(semaphore),
        fence: None,
        finished: false,
    };
    let parent_answer = acquired.check_image_access(42, 0, 4, false, LAYOUT_PRESENT_SRC, 0);
    assert_eq!(parent_answer, Ok(None));

    let (h_in, h_out) = deferred_sync::future::fork(acquired, vec![42]);

    assert_eq!(h_in.check_image_access(42, 0, 4, false, LAYOUT_PRESENT_SRC, 0), parent_answer);
    assert_eq!(
        h_out.check_image_access(42, 0, 4, false, LAYOUT_PRESENT_SRC, 0),
        Err(AccessCheckError::OutsidePartition)
    );

    // The complement handle answers for everything else, as the parent
    // would; the first handle refuses.
    assert_eq!(
        h_out.check_image_access(9, 0, 4, false, LAYOUT_PRESENT_SRC, 0),
        Err(AccessCheckError::Unknown)
    );
    assert_eq!(
        h_in.check_image_access(9, 0, 4, false, LAYOUT_PRESENT_SRC, 0),
        Err(AccessCheckError::OutsidePartition)
    );
    assert_eq!(h_in.check_buffer_access(42, 0, 4, false, 0), Err(AccessCheckError::Unknown));
}

#[test]
fn queue_propagates_through_the_chain() {
    let mut eng = Engine::new(1, 3);
    let base = now_on_queue(1, 2);
    assert_eq!(base.queue(), Some(2));
    assert!(base.queue_change_allowed());

    let fut = then_signal_semaphore(base, &mut eng);
    assert_eq!(fut.queue(), Some(2));
    assert!(fut.queue_change_allowed());
    assert_eq!(fut.device(), 1);

    let present = then_swapchain_present(fut, 2, 0, 0);
    assert_eq!(present.queue(), Some(2));
    assert!(!present.queue_change_allowed());
}

#[test]
fn join_resolves_queues() {
    let a = now_on_queue(1, 0);
    let b = now2(1);
    let joined = deferred_sync::future::join(a, b);
    assert_eq!(joined.queue(), Some(0));

    let c = now_on_queue(1, 0);
    let d = now_on_queue(1, 1);
    let crossed = deferred_sync::future::join(c, d);
    assert_eq!(crossed.queue(), None);
}

#[test]
fn acquire_wait_is_consumed_exactly_once() {
    let mut eng = Engine::new(3, 1);
    let semaphore = eng.acquire_semaphore();
    let mut acquired = SwapchainAcquireFuture2 {
        device: 3,
        swapchain: 0,
        image_id: 0,
        image_handle: 8,
        semaphore: Some(semaphore),
        fence: None,
        finished: false,
    };

    match acquired.build_submission(&mut eng) {
        Ok(SubmitPlan::SemaphoresWait { waits }) => assert_eq!(waits, vec![0u64]),
        other => panic!("expected the acquire wait, got {:?}", other),
    }
    // The wait was handed to its one consumer; it is not handed out again.
    match acquired.build_submission(&mut eng) {
        Ok(SubmitPlan::Empty) => {},
        other => panic!("expected an empty plan, got {:?}", other),
    }
    assert_eq!(eng.submission_count(), 0);
}

#[test]
fn signal_wait_attaches_to_downstream_submission() {
    let mut eng = Engine::new(1, 1);
    let inner = then_signal_semaphore(now_on_queue(1, 0), &mut eng);
    let inner_sem = inner.semaphore.id;
    let mut outer = then_signal_semaphore(inner, &mut eng);
    let outer_sem = outer.semaphore.id;
    assert_ne!(inner_sem, outer_sem);

    assert!(outer.flush(&mut eng).is_ok());
    // The inner signal is submitted first, then a submission that waits on
    // it and signals the outer semaphore.
    assert_eq!(eng.submission_count(), 2);
    match &eng.log[1].plan {
        SubmitPlan::CommandSubmission { waits, signals } => {
            assert_eq!(waits, &vec![inner_sem]);
            assert_eq!(signals, &vec![outer_sem]);
        },
        other => panic!("expected a command submission, got {:?}", other),
    }
}

#[test]
fn signal_wait_is_handed_out_exactly_once() {
    let mut eng = Engine::new(1, 1);
    let mut fut = then_signal_semaphore(now_on_queue(1, 0), &mut eng);
    let sem_id = fut.semaphore.id;

    match fut.build_submission(&mut eng) {
        Ok(SubmitPlan::SemaphoresWait { waits }) => assert_eq!(waits, vec![sem_id]),
        other => panic!("expected the signal wait, got {:?}", other),
    }
    // The binary semaphore is consumed by exactly one wait, so a second
    // consumer gets an empty plan.
    match fut.build_submission(&mut eng) {
        Ok(SubmitPlan::Empty) => {},
        other => panic!("expected an empty plan, got {:?}", other),
    }
    assert_eq!(eng.submission_count(), 1);
}

#[test]
fn cleanup_finished_is_advisory() {
    let mut eng = Engine::new(1, 1);
    let mut fut = then_signal_semaphore(now_on_queue(1, 0), &mut eng);
    fut.cleanup_finished();
    assert!(!fut.wait_submitted);
    assert_eq!(eng.submission_count(), 0);
}

#[test]
fn timed_wait_on_unready_fence_times_out() {
    let mut eng = Engine::new(0, 1);
    let fence = eng.acquire_fence(false);
    assert_eq!(
        eng.wait_fence(&fence, Some(5)),
        Err(deferred_sync::engine::WaitError::Timeout)
    );
    eng.signal_fence(fence.id);
    assert_eq!(eng.wait_fence(&fence, Some(5)), Ok(()));
}
