use parcllabs::{ForSaleMetricsParams, PropertyType};

#[test]
fn for_sale_params_default() {
    let params = ForSaleMetricsParams::new();
    assert!(params.limit.is_none());
    assert!(params.offset.is_none());
    assert!(params.start_date.is_none());
    assert!(params.end_date.is_none());
    assert!(params.property_type.is_none());
    assert!(!params.auto_paginate);
}

#[test]
fn for_sale_params_builder() {
    let params = ForSaleMetricsParams::new()
        .limit(10)
        .offset(20)
        .start_date("2024-01-01")
        .end_date("2024-12-31")
        .property_type(PropertyType::SingleFamily)
        .auto_paginate(true);

    assert_eq!(params.limit, Some(10));
    assert_eq!(params.offset, Some(20));
    assert_eq!(params.start_date, Some("2024-01-01".into()));
    assert_eq!(params.end_date, Some("2024-12-31".into()));
    assert_eq!(params.property_type, Some(PropertyType::SingleFamily));
    assert!(params.auto_paginate);
}

#[test]
fn for_sale_params_empty_query_string() {
    let params = ForSaleMetricsParams::new();
    assert_eq!(params.to_query_string(), "");
}

#[test]
fn for_sale_params_query_string_all_fields() {
    let params = ForSaleMetricsParams::new()
        .limit(10)
        .offset(5)
        .start_date("2024-01-01")
        .end_date("2024-12-31")
        .property_type(PropertyType::Condo);

    let qs = params.to_query_string();
    assert!(qs.starts_with('?'));
    assert!(qs.contains("limit=10"));
    assert!(qs.contains("offset=5"));
    assert!(qs.contains("start_date=2024-01-01"));
    assert!(qs.contains("end_date=2024-12-31"));
    assert!(qs.contains("property_type=CONDO"));
}

#[test]
fn for_sale_params_query_string_partial() {
    let params = ForSaleMetricsParams::new()
        .limit(25)
        .property_type(PropertyType::Townhouse);

    let qs = params.to_query_string();
    assert!(qs.starts_with('?'));
    assert!(qs.contains("limit=25"));
    assert!(qs.contains("property_type=TOWNHOUSE"));
    assert!(!qs.contains("offset"));
    assert!(!qs.contains("start_date"));
}

#[test]
fn for_sale_params_batch_body_minimal() {
    let params = ForSaleMetricsParams::new();
    let body = params.to_batch_body(&[100, 200]);
    let obj = body.as_object().unwrap();
    assert_eq!(obj["parcl_id"], serde_json::Value::from(vec![100, 200]));
    assert!(!obj.contains_key("limit"));
}

#[test]
fn for_sale_params_batch_body_all_fields() {
    let params = ForSaleMetricsParams::new()
        .limit(10)
        .offset(5)
        .start_date("2024-01-01")
        .end_date("2024-12-31")
        .property_type(PropertyType::Condo);
    let body = params.to_batch_body(&[100]);
    let obj = body.as_object().unwrap();
    assert_eq!(obj["parcl_id"], serde_json::Value::from(vec![100]));
    assert_eq!(obj["limit"], 10);
    assert_eq!(obj["offset"], 5);
    assert_eq!(obj["start_date"], "2024-01-01");
    assert_eq!(obj["end_date"], "2024-12-31");
    assert_eq!(obj["property_type"], "CONDO");
}
