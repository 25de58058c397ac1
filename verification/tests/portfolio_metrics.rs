use parcllabs::{PortfolioMetricsParams, PortfolioSize};

#[test]
fn portfolio_params_default() {
    let params = PortfolioMetricsParams::new();
    assert!(params.limit.is_none());
    assert!(params.offset.is_none());
    assert!(params.start_date.is_none());
    assert!(params.end_date.is_none());
    assert!(params.portfolio_size.is_none());
    assert!(!params.auto_paginate);
}

#[test]
fn portfolio_params_builder() {
    let params = PortfolioMetricsParams::new()
        .limit(10)
        .offset(20)
        .start_date("2024-01-01")
        .end_date("2024-12-31")
        .portfolio_size(PortfolioSize::Portfolio10To99)
        .auto_paginate(true);

    assert_eq!(params.limit, Some(10));
    assert_eq!(params.offset, Some(20));
    assert_eq!(params.start_date, Some("2024-01-01".into()));
    assert_eq!(params.end_date, Some("2024-12-31".into()));
    assert_eq!(
        params.portfolio_size,
        Some(PortfolioSize::Portfolio10To99)
    );
    assert!(params.auto_paginate);
}

#[test]
fn portfolio_params_empty_query_string() {
    let params = PortfolioMetricsParams::new();
    assert_eq!(params.to_query_string(), "");
}

#[test]
fn portfolio_params_query_string_all_fields() {
    let params = PortfolioMetricsParams::new()
        .limit(10)
        .offset(5)
        .start_date("2024-01-01")
        .end_date("2024-12-31")
        .portfolio_size(PortfolioSize::Portfolio1000Plus);

    let qs = params.to_query_string();
    assert!(qs.starts_with('?'));
    assert!(qs.contains("limit=10"));
    assert!(qs.contains("offset=5"));
    assert!(qs.contains("start_date=2024-01-01"));
    assert!(qs.contains("end_date=2024-12-31"));
    assert!(qs.contains("portfolio_size=PORTFOLIO_1000_PLUS"));
}

#[test]
fn portfolio_params_query_string_portfolio_size_only() {
    let params =
        PortfolioMetricsParams::new().portfolio_size(PortfolioSize::Portfolio2To9);
    assert_eq!(
        params.to_query_string(),
        "?portfolio_size=PORTFOLIO_2_TO_9"
    );
}

#[test]
fn portfolio_params_auto_paginate_not_in_query() {
    let params = PortfolioMetricsParams::new()
        .limit(5)
        .auto_paginate(true);
    let qs = params.to_query_string();
    assert!(!qs.contains("auto_paginate"));
    assert!(qs.contains("limit=5"));
}

#[test]
fn portfolio_params_batch_body_minimal() {
    let params = PortfolioMetricsParams::new();
    let body = params.to_batch_body(&[100, 200]);
    let obj = body.as_object().unwrap();
    assert_eq!(obj["parcl_id"], serde_json::Value::from(vec![100, 200]));
    assert!(!obj.contains_key("limit"));
    assert!(!obj.contains_key("portfolio_size"));
}

#[test]
fn portfolio_params_batch_body_all_fields() {
    let params = PortfolioMetricsParams::new()
        .limit(10)
        .offset(5)
        .start_date("2024-01-01")
        .end_date("2024-12-31")
        .portfolio_size(PortfolioSize::Portfolio10To99);
    let body = params.to_batch_body(&[100]);
    let obj = body.as_object().unwrap();
    assert_eq!(obj["parcl_id"], serde_json::Value::from(vec![100]));
    assert_eq!(obj["limit"], 10);
    assert_eq!(obj["offset"], 5);
    assert_eq!(obj["start_date"], "2024-01-01");
    assert_eq!(obj["end_date"], "2024-12-31");
    assert_eq!(obj["portfolio_size"], "PORTFOLIO_10_TO_99");
}
