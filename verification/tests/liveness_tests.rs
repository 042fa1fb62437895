use napi_bridge::liveness::AsyncWorkSender;
use napi_bridge::liveness::ExternalOpsTracker;

#[test]
fn n_refs_then_n_unrefs_return_to_start() {
    let mut tracker = ExternalOpsTracker::new();
    for _ in 0..10 {
        tracker.ref_op();
    }
    assert_eq!(tracker.count, 10);
    for _ in 0..10 {
        tracker.unref_op();
    }
    assert_eq!(tracker.count, 0);
}

#[test]
fn any_balanced_interleaving_returns_to_start() {
    // Several interleavings of 4 refs and 4 unrefs, applied to the same
    // starting contribution: only the aggregate matters.
    let interleavings: Vec<Vec<bool>> = vec![
        vec![true, true, true, true, false, false, false, false],
        vec![true, false, true, false, true, false, true, false],
        vec![true, true, false, true, false, false, true, false],
    ];
    for ops in interleavings {
        let mut tracker = ExternalOpsTracker::new();
        tracker.ref_op(); // start from a nonzero contribution
        for op in ops {
            if op {
                tracker.ref_op();
            } else {
                tracker.unref_op();
            }
        }
        assert_eq!(tracker.count, 1);
    }
}

#[test]
fn sender_delivers_in_submission_order() {
    let mut sender = AsyncWorkSender::new();
    assert_eq!(sender.take_next(), None);
    sender.spawn(1);
    sender.spawn(2);
    assert_eq!(sender.take_next(), Some(1));
    sender.spawn(3);
    assert_eq!(sender.take_next(), Some(2));
    assert_eq!(sender.take_next(), Some(3));
    assert_eq!(sender.take_next(), None);
}
