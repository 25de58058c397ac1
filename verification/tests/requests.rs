use parcllabs::request::{build_market_url, build_resource_url};
use parcllabs::{
    EventHistoryParams, EventType, ForSaleMetricsParams, InvestorMetricsParams, MetricsParams,
    NewConstructionMetricsParams, ParclClient, PortfolioMetricsParams, PortfolioSize,
    PropertySearchParams, PropertyType, RentalMetricsParams, SearchParams,
};

fn client() -> ParclClient {
    ParclClient::with_config("key", "https://api.test")
}

#[test]
fn url_of_a_market_resource() {
    assert_eq!(
        build_market_url("https://h", "g", -12, "r", "?a=b"),
        "https://h/v1/g/-12/r?a=b"
    );
    assert_eq!(build_market_url("", "", 0, "", ""), "/v1//0/");
}

#[test]
fn url_of_a_resource() {
    assert_eq!(build_resource_url("https://h", "g", "r"), "https://h/v1/g/r");
}

#[test]
fn market_request_without_params() {
    let session = client();
    let request = session.market_metrics().housing_stock(2900078, None);
    assert_eq!(request.url, "https://api.test/v1/market_metrics/2900078/housing_stock");
    assert!(!request.auto_paginate);
}

#[test]
fn market_request_with_params() {
    let session = client();
    let params = MetricsParams::new().limit(10).property_type(PropertyType::Condo).auto_paginate(true);
    let request = session.market_metrics().all_cash(5, Some(params));
    assert_eq!(
        request.url,
        "https://api.test/v1/market_metrics/5/all_cash?limit=10&property_type=CONDO"
    );
    assert!(request.auto_paginate);
}

#[test]
fn market_metrics_resources() {
    let session = client();
    let c = session.market_metrics();
    assert_eq!(c.housing_event_counts(1, None).url, "https://api.test/v1/market_metrics/1/housing_event_counts");
    assert_eq!(c.housing_event_prices(1, None).url, "https://api.test/v1/market_metrics/1/housing_event_prices");
    assert_eq!(
        c.housing_event_property_attributes(1, None).url,
        "https://api.test/v1/market_metrics/1/housing_event_property_attributes"
    );
}

#[test]
fn for_sale_resources() {
    let session = client();
    let c = session.for_sale_metrics();
    assert_eq!(c.for_sale_inventory(1, None).url, "https://api.test/v1/for_sale_market_metrics/1/for_sale_inventory");
    assert_eq!(
        c.for_sale_inventory_price_changes(1, None).url,
        "https://api.test/v1/for_sale_market_metrics/1/for_sale_inventory_price_changes"
    );
    assert_eq!(
        c.new_listings_rolling_counts(1, Some(ForSaleMetricsParams::new().offset(3))).url,
        "https://api.test/v1/for_sale_market_metrics/1/new_listings_rolling_counts?offset=3"
    );
    assert_eq!(
        c.batch_for_sale_inventory(vec![1], None).url,
        "https://api.test/v1/for_sale_market_metrics/for_sale_inventory"
    );
    assert_eq!(
        c.batch_for_sale_inventory_price_changes(vec![1], None).url,
        "https://api.test/v1/for_sale_market_metrics/for_sale_inventory_price_changes"
    );
    assert_eq!(
        c.batch_new_listings_rolling_counts(vec![1], None).url,
        "https://api.test/v1/for_sale_market_metrics/new_listings_rolling_counts"
    );
}

#[test]
fn investor_resources() {
    let session = client();
    let c = session.investor_metrics();
    assert_eq!(c.housing_stock_ownership(1, None).url, "https://api.test/v1/investor_metrics/1/housing_stock_ownership");
    assert_eq!(c.purchase_to_sale_ratio(1, None).url, "https://api.test/v1/investor_metrics/1/purchase_to_sale_ratio");
    assert_eq!(c.housing_event_counts(1, None).url, "https://api.test/v1/investor_metrics/1/housing_event_counts");
    assert_eq!(c.housing_event_prices(1, None).url, "https://api.test/v1/investor_metrics/1/housing_event_prices");
    assert_eq!(
        c.new_listings_for_sale_rolling_counts(1, Some(InvestorMetricsParams::new().start_date("2024-01-01"))).url,
        "https://api.test/v1/investor_metrics/1/new_listings_for_sale_rolling_counts?start_date=2024-01-01"
    );
    assert_eq!(c.batch_housing_stock_ownership(vec![1], None).url, "https://api.test/v1/investor_metrics/housing_stock_ownership");
    assert_eq!(c.batch_purchase_to_sale_ratio(vec![1], None).url, "https://api.test/v1/investor_metrics/purchase_to_sale_ratio");
    assert_eq!(c.batch_housing_event_counts(vec![1], None).url, "https://api.test/v1/investor_metrics/housing_event_counts");
    assert_eq!(c.batch_housing_event_prices(vec![1], None).url, "https://api.test/v1/investor_metrics/housing_event_prices");
    assert_eq!(
        c.batch_new_listings_for_sale_rolling_counts(vec![1], None).url,
        "https://api.test/v1/investor_metrics/new_listings_for_sale_rolling_counts"
    );
}

#[test]
fn new_construction_resources() {
    let session = client();
    let c = session.new_construction_metrics();
    assert_eq!(
        c.housing_event_counts(1, Some(NewConstructionMetricsParams::new().end_date("2024-12-31"))).url,
        "https://api.test/v1/new_construction_metrics/1/housing_event_counts?end_date=2024-12-31"
    );
    assert_eq!(c.housing_event_prices(1, None).url, "https://api.test/v1/new_construction_metrics/1/housing_event_prices");
    assert_eq!(c.batch_housing_event_counts(vec![1], None).url, "https://api.test/v1/new_construction_metrics/housing_event_counts");
    assert_eq!(c.batch_housing_event_prices(vec![1], None).url, "https://api.test/v1/new_construction_metrics/housing_event_prices");
}

#[test]
fn portfolio_resources() {
    let session = client();
    let c = session.portfolio_metrics();
    assert_eq!(
        c.sf_housing_stock_ownership(1, Some(PortfolioMetricsParams::new().portfolio_size(PortfolioSize::Portfolio2To9))).url,
        "https://api.test/v1/portfolio_metrics/1/sf_housing_stock_ownership?portfolio_size=PORTFOLIO_2_TO_9"
    );
    assert_eq!(c.sf_housing_event_counts(1, None).url, "https://api.test/v1/portfolio_metrics/1/sf_housing_event_counts");
    assert_eq!(
        c.sf_new_listings_for_sale_rolling_counts(1, None).url,
        "https://api.test/v1/portfolio_metrics/1/sf_new_listings_for_sale_rolling_counts"
    );
    assert_eq!(
        c.sf_new_listings_for_rent_rolling_counts(1, None).url,
        "https://api.test/v1/portfolio_metrics/1/sf_new_listings_for_rent_rolling_counts"
    );
    assert_eq!(c.batch_sf_housing_stock_ownership(vec![1], None).url, "https://api.test/v1/portfolio_metrics/sf_housing_stock_ownership");
    assert_eq!(c.batch_sf_housing_event_counts(vec![1], None).url, "https://api.test/v1/portfolio_metrics/sf_housing_event_counts");
    assert_eq!(
        c.batch_sf_new_listings_for_sale_rolling_counts(vec![1], None).url,
        "https://api.test/v1/portfolio_metrics/sf_new_listings_for_sale_rolling_counts"
    );
    assert_eq!(
        c.batch_sf_new_listings_for_rent_rolling_counts(vec![1], None).url,
        "https://api.test/v1/portfolio_metrics/sf_new_listings_for_rent_rolling_counts"
    );
}

#[test]
fn rental_resources() {
    let session = client();
    let c = session.rental_metrics();
    assert_eq!(c.gross_yield(1, None).url, "https://api.test/v1/rental_market_metrics/1/gross_yield");
    assert_eq!(
        c.rental_units_concentration(1, Some(RentalMetricsParams::new().limit(1))).url,
        "https://api.test/v1/rental_market_metrics/1/rental_units_concentration?limit=1"
    );
    assert_eq!(
        c.new_listings_for_rent_rolling_counts(1, None).url,
        "https://api.test/v1/rental_market_metrics/1/new_listings_for_rent_rolling_counts"
    );
    assert_eq!(c.batch_gross_yield(vec![1], None).url, "https://api.test/v1/rental_market_metrics/gross_yield");
    assert_eq!(
        c.batch_rental_units_concentration(vec![1], None).url,
        "https://api.test/v1/rental_market_metrics/rental_units_concentration"
    );
    assert_eq!(
        c.batch_new_listings_for_rent_rolling_counts(vec![1], None).url,
        "https://api.test/v1/rental_market_metrics/new_listings_for_rent_rolling_counts"
    );
}

#[test]
fn price_feed_resources() {
    let session = client();
    let c = session.price_feed();
    assert_eq!(c.history(7, None).url, "https://api.test/v1/price_feed/7/history");
    assert_eq!(
        c.rental_history(7, Some(MetricsParams::new().limit(2))).url,
        "https://api.test/v1/price_feed/7/rental_price_feed?limit=2"
    );
    assert_eq!(c.batch_history(vec![7], None).url, "https://api.test/v1/price_feed/history");
    assert_eq!(c.batch_rental_history(vec![7], None).url, "https://api.test/v1/price_feed/rental_price_feed");
}

#[test]
fn batch_request_carries_ids_and_params() {
    let session = client();
    let params = MetricsParams::new()
        .limit(10)
        .offset(5)
        .start_date("2024-01-01")
        .end_date("2024-12-31")
        .property_type(PropertyType::Townhouse)
        .auto_paginate(true);
    let request = session.price_feed().batch_history(vec![100, -200], Some(params));
    assert!(request.auto_paginate);
    let obj = request.body.as_object().unwrap();
    assert_eq!(obj.len(), 6);
    assert_eq!(obj["parcl_id"], serde_json::Value::from(vec![100, -200]));
    assert_eq!(obj["limit"], 10);
    assert_eq!(obj["offset"], 5);
    assert_eq!(obj["start_date"], "2024-01-01");
    assert_eq!(obj["end_date"], "2024-12-31");
    assert_eq!(obj["property_type"], "TOWNHOUSE");
    assert_eq!(
        request.body.to_string(),
        "{\"end_date\":\"2024-12-31\",\"limit\":10,\"offset\":5,\"parcl_id\":[100,-200],\"property_type\":\"TOWNHOUSE\",\"start_date\":\"2024-01-01\"}"
    );
}

#[test]
fn batch_request_without_params() {
    let session = client();
    let request = session.rental_metrics().batch_gross_yield(vec![], None);
    assert!(!request.auto_paginate);
    assert_eq!(request.body.to_string(), "{\"parcl_id\":[]}");
}

#[test]
fn metrics_params_batch_body_all_fields() {
    let params = MetricsParams::new().limit(1).property_type(PropertyType::Other);
    let body = params.to_batch_body(&[9]);
    assert_eq!(body.to_string(), "{\"limit\":1,\"parcl_id\":[9],\"property_type\":\"OTHER\"}");
}

#[test]
fn search_request() {
    let session = client();
    let request = session.search().markets(SearchParams::new().query("Los Angeles").limit(5).auto_paginate(true));
    assert_eq!(request.url, "https://api.test/v1/search/markets?query=Los%20Angeles&limit=5");
    assert!(request.auto_paginate);
    let request = session.search().markets(SearchParams::new());
    assert_eq!(request.url, "https://api.test/v1/search/markets");
    assert!(!request.auto_paginate);
}

#[test]
fn property_requests() {
    let session = client();
    let c = session.property();
    let request = c.search(PropertySearchParams::new(5387853, PropertyType::SingleFamily).limit(2));
    assert_eq!(
        request.url,
        "https://api.test/v1/property/search?parcl_id=5387853&property_type=SINGLE_FAMILY&limit=2"
    );
    assert!(!request.auto_paginate);
    assert_eq!(c.search_by_address(), "https://api.test/v1/property/search_address");
    assert_eq!(c.search_v2(None, None), "https://api.test/v2/property_search");
    assert_eq!(c.search_v2(Some(10), None), "https://api.test/v2/property_search?limit=10");
    assert_eq!(c.search_v2(None, Some(20)), "https://api.test/v2/property_search?offset=20");
    assert_eq!(
        c.search_v2(Some(10), Some(20)),
        "https://api.test/v2/property_search?limit=10&offset=20"
    );
}

#[test]
fn event_history_request() {
    let session = client();
    let params = EventHistoryParams::new(vec![123, 456]).event_type(EventType::Rental);
    let request = session.property().event_history(params);
    assert_eq!(request.url, "https://api.test/v1/property/event_history");
    assert!(!request.auto_paginate);
    assert_eq!(
        request.body.to_string(),
        "{\"event_type\":\"RENTAL\",\"parcl_property_id\":[123,456]}"
    );
}
