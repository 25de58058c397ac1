use parcllabs::{AccountInfo, CreditTracker};

fn usage(used: i64, remaining: i64) -> Option<AccountInfo> {
    Some(AccountInfo {
        est_credits_used: Some(used),
        est_remaining_credits: Some(remaining),
    })
}

#[test]
fn update_credits_accumulates() {
    let mut tracker = CreditTracker::new();
    let info1 = Some(AccountInfo {
        est_credits_used: Some(10),
        est_remaining_credits: Some(990),
    });
    tracker.record(&info1);
    assert_eq!(tracker.session_credits_used(), 10);
    assert_eq!(tracker.remaining_credits(), 990);

    let info2 = Some(AccountInfo {
        est_credits_used: Some(5),
        est_remaining_credits: Some(985),
    });
    tracker.record(&info2);
    assert_eq!(tracker.session_credits_used(), 15);
    assert_eq!(tracker.remaining_credits(), 985);
}

#[test]
fn update_credits_none_is_noop() {
    let mut tracker = CreditTracker::new();
    tracker.record(&None);
    assert_eq!(tracker.session_credits_used(), 0);
    assert_eq!(tracker.remaining_credits(), 0);
}

#[test]
fn account_info_returns_session_state() {
    let mut tracker = CreditTracker::new();
    let info = Some(AccountInfo {
        est_credits_used: Some(42),
        est_remaining_credits: Some(958),
    });
    tracker.record(&info);
    let usage = tracker.snapshot();
    assert_eq!(usage.est_session_credits_used, 42);
    assert_eq!(usage.est_remaining_credits, 958);
}

#[test]
fn new_tracker_starts_at_zero() {
    let tracker = CreditTracker::new();
    let usage = tracker.snapshot();
    assert_eq!(usage.est_session_credits_used, 0);
    assert_eq!(usage.est_remaining_credits, 0);
}

#[test]
fn used_is_summed_and_remaining_is_replaced() {
    let mut tracker = CreditTracker::new();
    tracker.record(&usage(5, 995));
    tracker.record(&usage(3, 992));
    assert_eq!(tracker.session_credits_used(), 8);
    assert_eq!(tracker.remaining_credits(), 992);
}

#[test]
fn missing_account_leaves_counters_unchanged() {
    let mut tracker = CreditTracker::new();
    tracker.record(&usage(7, 93));
    let before = tracker;
    tracker.record(&None);
    assert_eq!(tracker, before);
    assert_eq!(tracker.session_credits_used(), 7);
    assert_eq!(tracker.remaining_credits(), 93);
}

#[test]
fn partial_metadata_changes_only_its_counter() {
    let mut tracker = CreditTracker::new();
    tracker.record(&usage(4, 100));
    tracker.record(&Some(AccountInfo {
        est_credits_used: Some(6),
        est_remaining_credits: None,
    }));
    assert_eq!(tracker.session_credits_used(), 10);
    assert_eq!(tracker.remaining_credits(), 100);
    tracker.record(&Some(AccountInfo {
        est_credits_used: None,
        est_remaining_credits: Some(80),
    }));
    assert_eq!(tracker.session_credits_used(), 10);
    assert_eq!(tracker.remaining_credits(), 80);
}

#[test]
fn used_credits_wrap_around() {
    let mut tracker = CreditTracker {
        session_credits_used: i64::MAX,
        remaining_credits: 0,
    };
    tracker.record(&Some(AccountInfo {
        est_credits_used: Some(1),
        est_remaining_credits: None,
    }));
    assert_eq!(tracker.session_credits_used(), i64::MIN);
    tracker.record(&Some(AccountInfo {
        est_credits_used: Some(-1),
        est_remaining_credits: None,
    }));
    assert_eq!(tracker.session_credits_used(), i64::MAX);
}

#[test]
fn sum_of_used_does_not_depend_on_order() {
    let deltas = [11i64, 2, 30, 4, 500];
    let mut forward = CreditTracker::new();
    for d in deltas.iter() {
        forward.record(&usage(*d, 0));
    }
    let mut backward = CreditTracker::new();
    for d in deltas.iter().rev() {
        backward.record(&usage(*d, 0));
    }
    assert_eq!(forward.session_credits_used(), 547);
    assert_eq!(backward.session_credits_used(), 547);
}
