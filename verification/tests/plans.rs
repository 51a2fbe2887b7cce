use deferred_sync::plan::{merge_plans, SubmitPlan};

#[test]
fn empty_merges_into_anything() {
    let merged = merge_plans(SubmitPlan::Empty, SubmitPlan::SemaphoresWait { waits: vec![3] });
    match merged {
        Some(SubmitPlan::SemaphoresWait { waits }) => assert_eq!(waits, vec![3]),
        _ => panic!("expected the wait set to survive"),
    }
}

#[test]
fn wait_sets_merge_by_union() {
    let merged = merge_plans(
        SubmitPlan::SemaphoresWait { waits: vec![1, 2] },
        SubmitPlan::SemaphoresWait { waits: vec![3] },
    );
    match merged {
        Some(SubmitPlan::SemaphoresWait { mut waits }) => {
            waits.sort();
            assert_eq!(waits, vec![1, 2, 3]);
        },
        _ => panic!("expected a merged wait set"),
    }
}

#[test]
fn wait_set_attaches_to_command_submission() {
    let merged = merge_plans(
        SubmitPlan::SemaphoresWait { waits: vec![7] },
        SubmitPlan::CommandSubmission { waits: vec![5], signals: vec![9] },
    );
    match merged {
        Some(SubmitPlan::CommandSubmission { mut waits, signals }) => {
            waits.sort();
            assert_eq!(waits, vec![5, 7]);
            assert_eq!(signals, vec![9]);
        },
        _ => panic!("expected the wait set to attach to the submission"),
    }
}

#[test]
fn command_submissions_merge_both_sides() {
    let merged = merge_plans(
        SubmitPlan::CommandSubmission { waits: vec![1], signals: vec![2] },
        SubmitPlan::CommandSubmission { waits: vec![3], signals: vec![4] },
    );
    match merged {
        Some(SubmitPlan::CommandSubmission { mut waits, mut signals }) => {
            waits.sort();
            signals.sort();
            assert_eq!(waits, vec![1, 3]);
            assert_eq!(signals, vec![2, 4]);
        },
        _ => panic!("expected both sides' requirements to survive"),
    }
}

#[test]
fn present_refuses_to_merge() {
    let merged = merge_plans(
        SubmitPlan::QueuePresent { waits: vec![], swapchain: 1, image_index: 0 },
        SubmitPlan::SemaphoresWait { waits: vec![2] },
    );
    assert!(merged.is_none());
}

#[test]
fn sparse_bind_refuses_to_merge() {
    let merged = merge_plans(SubmitPlan::BindSparse, SubmitPlan::CommandSubmission {
        waits: vec![],
        signals: vec![1],
    });
    assert!(merged.is_none());
}
