use parcllabs::{EntityOwnerName, EventHistoryParams, EventType, PropertySearchParams, PropertyType};

#[test]
fn property_search_params_required_only() {
    let params = PropertySearchParams::new(5387853, PropertyType::SingleFamily);
    let qs = params.to_query_string();
    assert!(qs.starts_with('?'));
    assert!(qs.contains("parcl_id=5387853"));
    assert!(qs.contains("property_type=SINGLE_FAMILY"));
}

#[test]
fn property_search_params_with_filters() {
    let params = PropertySearchParams::new(5387853, PropertyType::Condo)
        .limit(10)
        .offset(20)
        .bedrooms_min(2)
        .bedrooms_max(4)
        .bathrooms_min(1)
        .square_footage_min(1000)
        .year_built_min(2000)
        .current_entity_owner_name(EntityOwnerName::InvitationHomes)
        .event_history_sale_flag(true)
        .current_on_market_flag(false);

    let qs = params.to_query_string();
    assert!(qs.contains("limit=10"));
    assert!(qs.contains("offset=20"));
    assert!(qs.contains("bedrooms_min=2"));
    assert!(qs.contains("bedrooms_max=4"));
    assert!(qs.contains("bathrooms_min=1"));
    assert!(qs.contains("square_footage_min=1000"));
    assert!(qs.contains("year_built_min=2000"));
    assert!(qs.contains("current_entity_owner_name=INVITATION_HOMES"));
    assert!(qs.contains("event_history_sale_flag=1"));
    assert!(qs.contains("current_on_market_flag=0"));
}

#[test]
fn property_search_params_bool_flags_as_int() {
    let params = PropertySearchParams::new(123, PropertyType::AllProperties)
        .event_history_sale_flag(true)
        .current_investor_owned_flag(false);

    let qs = params.to_query_string();
    assert!(qs.contains("event_history_sale_flag=1"));
    assert!(qs.contains("current_investor_owned_flag=0"));
}

#[test]
fn property_search_params_date_filters() {
    let params = PropertySearchParams::new(123, PropertyType::SingleFamily)
        .record_added_date_start("2024-01-01")
        .record_added_date_end("2024-12-31");

    let qs = params.to_query_string();
    assert!(qs.contains("record_added_date_start=2024-01-01"));
    assert!(qs.contains("record_added_date_end=2024-12-31"));
}

#[test]
fn event_history_params_required_only() {
    let params = EventHistoryParams::new(vec![123, 456]);
    let body = params.to_request_body();
    assert_eq!(body["parcl_property_id"], serde_json::Value::from(vec![123, 456]));
    assert!(body.get("event_type").is_none());
}

#[test]
fn event_history_params_with_filters() {
    let params = EventHistoryParams::new(vec![123])
        .event_type(EventType::Sale)
        .start_date("2024-01-01")
        .end_date("2024-12-31")
        .entity_owner_name(EntityOwnerName::Amh);

    let body = params.to_request_body();
    assert_eq!(body["parcl_property_id"], serde_json::Value::from(vec![123]));
    assert_eq!(body["event_type"], "SALE");
    assert_eq!(body["start_date"], "2024-01-01");
    assert_eq!(body["end_date"], "2024-12-31");
    assert_eq!(body["entity_owner_name"], "AMH");
}

#[test]
fn event_history_params_record_updated_dates() {
    let params = EventHistoryParams::new(vec![1])
        .record_updated_date_start("2024-06-01")
        .record_updated_date_end("2024-12-31");

    let body = params.to_request_body();
    assert_eq!(body["record_updated_date_start"], "2024-06-01");
    assert_eq!(body["record_updated_date_end"], "2024-12-31");
}
