use parcllabs::{
    AccountInfo, BatchMetricsResponse, CreditTracker, MetricsResponse, PaginatedResponse,
    PaginationLinks,
};

fn links(next: Option<&str>) -> PaginationLinks {
    PaginationLinks {
        first: Some("/p1".to_string()),
        next: next.map(|s| s.to_string()),
        prev: None,
        last: Some("/p2".to_string()),
    }
}

fn page(items: Vec<&'static str>, next: Option<&str>, used: Option<(i64, i64)>) -> MetricsResponse<&'static str> {
    MetricsResponse {
        parcl_id: 2900078,
        items,
        total: 3,
        limit: 2,
        offset: 0,
        links: links(next),
        account: used.map(|(u, r)| AccountInfo {
            est_credits_used: Some(u),
            est_remaining_credits: Some(r),
        }),
    }
}

#[test]
fn two_pages_are_collected_in_order() {
    let mut tracker = CreditTracker::new();
    let first = page(vec!["a", "b"], Some("/p2"), None);
    let collected = MetricsResponse::accept(None, first, &mut tracker);
    assert_eq!(collected.next_url(true), Some("/p2"));

    let mut second = page(vec!["c"], None, None);
    second.total = 99;
    second.limit = 1;
    second.offset = 2;
    second.parcl_id = 7;
    let collected = MetricsResponse::accept(Some(collected), second, &mut tracker);
    assert_eq!(collected.items, vec!["a", "b", "c"]);
    assert!(collected.links.next.is_none());
    assert_eq!(collected.next_url(true), None);
    assert_eq!(collected.total, 3);
    assert_eq!(collected.limit, 2);
    assert_eq!(collected.offset, 0);
    assert_eq!(collected.parcl_id, 2900078);
}

#[test]
fn single_page_ends_the_walk() {
    let mut tracker = CreditTracker::new();
    let only = page(vec!["a"], None, None);
    let collected = MetricsResponse::accept(None, only, &mut tracker);
    assert_eq!(collected.next_url(true), None);
    assert_eq!(collected.items, vec!["a"]);
}

#[test]
fn pages_are_not_followed_unless_asked() {
    let mut tracker = CreditTracker::new();
    let first = page(vec!["a", "b"], Some("/p2"), None);
    let collected = MetricsResponse::accept(None, first, &mut tracker);
    assert_eq!(collected.next_url(false), None);
    assert_eq!(collected.links.next, Some("/p2".to_string()));
    assert_eq!(collected.items, vec!["a", "b"]);
}

#[test]
fn links_of_the_last_page_replace_earlier_links() {
    let mut tracker = CreditTracker::new();
    let first = page(vec!["a"], Some("/p2"), None);
    let mut second = page(vec!["b"], Some("/p3"), None);
    second.links.prev = Some("/p1".to_string());
    let collected = MetricsResponse::accept(None, first, &mut tracker);
    let collected = MetricsResponse::accept(Some(collected), second, &mut tracker);
    assert_eq!(collected.next_url(true), Some("/p3"));
    assert_eq!(collected.links.prev, Some("/p1".to_string()));
}

#[test]
fn every_page_reports_its_usage() {
    let mut tracker = CreditTracker::new();
    let first = page(vec!["a", "b"], Some("/p2"), Some((5, 995)));
    let second = page(vec!["c"], None, Some((3, 992)));
    let collected = MetricsResponse::accept(None, first, &mut tracker);
    assert_eq!(tracker.session_credits_used(), 5);
    assert_eq!(tracker.remaining_credits(), 995);
    let collected = MetricsResponse::accept(Some(collected), second, &mut tracker);
    assert_eq!(tracker.session_credits_used(), 8);
    assert_eq!(tracker.remaining_credits(), 992);
    assert_eq!(
        collected.account,
        Some(AccountInfo {
            est_credits_used: Some(5),
            est_remaining_credits: Some(995),
        })
    );
}

#[test]
fn page_without_account_leaves_tracker_unchanged() {
    let mut tracker = CreditTracker::new();
    let first = page(vec!["a"], None, Some((2, 50)));
    let collected = MetricsResponse::accept(None, first, &mut tracker);
    let second = page(vec!["b"], None, None);
    let _ = MetricsResponse::accept(Some(collected), second, &mut tracker);
    assert_eq!(tracker.session_credits_used(), 2);
    assert_eq!(tracker.remaining_credits(), 50);
}

#[test]
fn batch_pages_are_collected_in_order() {
    let mut tracker = CreditTracker::new();
    let first = BatchMetricsResponse {
        items: vec![1, 2],
        total: 3,
        limit: 2,
        offset: 0,
        links: links(Some("https://api.example/p2")),
        account: Some(AccountInfo { est_credits_used: Some(2), est_remaining_credits: Some(8) }),
    };
    let second = BatchMetricsResponse {
        items: vec![3],
        total: 3,
        limit: 2,
        offset: 2,
        links: links(None),
        account: Some(AccountInfo { est_credits_used: Some(1), est_remaining_credits: Some(7) }),
    };
    let collected = BatchMetricsResponse::accept(None, first, &mut tracker);
    assert_eq!(collected.next_url(true), Some("https://api.example/p2"));
    let collected = BatchMetricsResponse::accept(Some(collected), second, &mut tracker);
    assert_eq!(collected.items, vec![1, 2, 3]);
    assert_eq!(collected.next_url(true), None);
    assert_eq!(collected.offset, 0);
    assert_eq!(tracker.session_credits_used(), 3);
    assert_eq!(tracker.remaining_credits(), 7);
}

#[test]
fn search_pages_are_collected_in_order() {
    let mut tracker = CreditTracker::new();
    let first = PaginatedResponse {
        items: vec!["x".to_string()],
        total: 2,
        limit: 1,
        offset: 0,
        links: links(Some("/p2")),
        account: None,
    };
    let second = PaginatedResponse {
        items: vec!["y".to_string()],
        total: 2,
        limit: 1,
        offset: 1,
        links: links(None),
        account: None,
    };
    let collected = PaginatedResponse::accept(None, first, &mut tracker);
    assert_eq!(collected.next_url(false), None);
    assert_eq!(collected.next_url(true), Some("/p2"));
    let collected = PaginatedResponse::accept(Some(collected), second, &mut tracker);
    assert_eq!(collected.items, vec!["x".to_string(), "y".to_string()]);
    assert_eq!(collected.total, 2);
    assert_eq!(collected.next_url(true), None);
    assert_eq!(tracker.session_credits_used(), 0);
}
