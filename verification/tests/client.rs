use parcllabs::client::{AUTHORIZATION_HEADER, DEFAULT_BASE_URL, ENV_API_KEY};
use parcllabs::{AccountInfo, ParclClient, ParclError, RetryConfig};

#[test]
fn client_with_api_key() {
    let client = ParclClient::with_api_key("test-key");
    assert_eq!(client.api_key, "test-key");
    assert_eq!(client.base_url, DEFAULT_BASE_URL);
}

#[test]
fn client_with_config() {
    let client = ParclClient::with_config("my-key", "https://custom.api.com");
    assert_eq!(client.api_key, "my-key");
    assert_eq!(client.base_url, "https://custom.api.com");
}

#[test]
fn client_with_retry_config() {
    let config = RetryConfig {
        max_retries: 5,
        initial_backoff_ms: 2000,
    };
    let client = ParclClient::with_api_key("test").with_retry_config(config);
    assert_eq!(client.retry_config.max_retries, 5);
    assert_eq!(client.retry_config.initial_backoff_ms, 2000);
}

#[test]
fn client_without_key_in_environment() {
    let result = ParclClient::new(None);
    assert!(result.is_err());
    assert!(matches!(result.err().unwrap(), ParclError::MissingApiKey));
}

#[test]
fn client_with_key_from_environment() {
    let result = ParclClient::new(Some("env-test-key".to_string()));
    assert!(result.is_ok());
    let client = result.ok().unwrap();
    assert_eq!(client.api_key, "env-test-key");
    assert_eq!(client.base_url, "https://api.parcllabs.com");
    assert_eq!(client.retry_config.max_retries, 3);
    assert_eq!(client.retry_config.initial_backoff_ms, 1000);
    assert_eq!(client.session_credits_used(), 0);
    assert_eq!(client.remaining_credits(), 0);
}

#[test]
fn environment_variable_name() {
    assert_eq!(ENV_API_KEY, "PARCL_LABS_API_KEY");
    assert_eq!(DEFAULT_BASE_URL, "https://api.parcllabs.com");
}

#[test]
fn client_records_credits() {
    let mut client = ParclClient::with_api_key("test");
    client.update_credits(&Some(AccountInfo {
        est_credits_used: Some(5),
        est_remaining_credits: Some(995),
    }));
    client.update_credits(&Some(AccountInfo {
        est_credits_used: Some(3),
        est_remaining_credits: Some(992),
    }));
    client.update_credits(&None);
    assert_eq!(client.session_credits_used(), 8);
    assert_eq!(client.remaining_credits(), 992);
    let usage = client.account_info();
    assert_eq!(usage.est_session_credits_used, 8);
    assert_eq!(usage.est_remaining_credits, 992);
    assert_eq!(client.api_key, "test");
}

#[test]
fn clients_have_separate_counters() {
    let mut one = ParclClient::with_api_key("one");
    let two = ParclClient::with_api_key("two");
    one.update_credits(&Some(AccountInfo {
        est_credits_used: Some(9),
        est_remaining_credits: Some(1),
    }));
    assert_eq!(one.session_credits_used(), 9);
    assert_eq!(two.session_credits_used(), 0);
    assert_eq!(two.remaining_credits(), 0);
}

#[test]
fn client_returns_search_client() {
    let client = ParclClient::with_api_key("test");
    let _search = client.search();
}

#[test]
fn client_returns_market_metrics_client() {
    let client = ParclClient::with_api_key("test");
    let _metrics = client.market_metrics();
}

#[test]
fn client_returns_investor_metrics_client() {
    let client = ParclClient::with_api_key("test");
    let _investor = client.investor_metrics();
}

#[test]
fn client_returns_price_feed_client() {
    let client = ParclClient::with_api_key("test");
    let _feed = client.price_feed();
}

#[test]
fn client_returns_for_sale_metrics_client() {
    let client = ParclClient::with_api_key("test");
    let _for_sale = client.for_sale_metrics();
}

#[test]
fn client_returns_rental_metrics_client() {
    let client = ParclClient::with_api_key("test");
    let _rental = client.rental_metrics();
}

#[test]
fn client_returns_new_construction_metrics_client() {
    let client = ParclClient::with_api_key("test");
    let _new_construction = client.new_construction_metrics();
}

#[test]
fn client_returns_portfolio_metrics_client() {
    let client = ParclClient::with_api_key("test");
    let _portfolio = client.portfolio_metrics();
}

#[test]
fn client_returns_property_client() {
    let client = ParclClient::with_api_key("test");
    let _property = client.property();
}

#[test]
fn api_key_is_sent_as_it_is() {
    let client = ParclClient::with_api_key("secret-key");
    assert_eq!(AUTHORIZATION_HEADER, "Authorization");
    assert_eq!(client.authorization(), "secret-key");
}
