//! Price feed endpoints for Parcl exchange trading data.

use vstd::prelude::*;
use crate::client::ParclClient;
use crate::endpoints::market_metrics::MetricsParams;
use crate::request::{GetRequest, PostRequest};

verus! {

/// Client for price feed API endpoints: works out the request of each endpoint.
pub struct PriceFeedClient<'a> {
    client: &'a ParclClient,
}

impl<'a> PriceFeedClient<'a> {
    /// The session whose requests this client works out.
    pub closed spec fn session(&self) -> ParclClient {
        *self.client
    }

    /// A client for the session `client`.
    pub fn new(client: &'a ParclClient) -> (endpoints: Self)
        ensures
            endpoints.session() == *client,
    {
        PriceFeedClient { client }
    }

    /// Historical price feed data of a market.
    ///
    /// `GET /v1/price_feed/{parcl_id}/history`
    pub fn history(&self, parcl_id: i64, params: Option<MetricsParams>) -> (request: GetRequest)
        ensures
            request@ == MetricsParams::given_or_unset(params).market_request(
                self.session().base_url@,
                "price_feed"@,
                parcl_id as int,
                "history"@,
            ),
    {
        MetricsParams::given_or_new(params).get(
            self.client.base_url.as_str(),
            "price_feed",
            parcl_id,
            "history",
        )
    }

    /// Historical rental price feed data of a market.
    ///
    /// `GET /v1/price_feed/{parcl_id}/rental_price_feed`
    pub fn rental_history(&self, parcl_id: i64, params: Option<MetricsParams>) -> (request: GetRequest)
        ensures
            request@ == MetricsParams::given_or_unset(params).market_request(
                self.session().base_url@,
                "price_feed"@,
                parcl_id as int,
                "rental_price_feed"@,
            ),
    {
        MetricsParams::given_or_new(params).get(
            self.client.base_url.as_str(),
            "price_feed",
            parcl_id,
            "rental_price_feed",
        )
    }

    /// Historical price feed data of several markets.
    ///
    /// `POST /v1/price_feed/history`
    pub fn batch_history(&self, parcl_ids: Vec<i64>, params: Option<MetricsParams>) -> (request: PostRequest)
        ensures
            request@ == MetricsParams::given_or_unset(params).batch_request(
                self.session().base_url@,
                "price_feed"@,
                "history"@,
                parcl_ids@,
            ),
    {
        MetricsParams::given_or_new(params).post(
            self.client.base_url.as_str(),
            "price_feed",
            "history",
            parcl_ids.as_slice(),
        )
    }

    /// Historical rental price feed data of several markets.
    ///
    /// `POST /v1/price_feed/rental_price_feed`
    pub fn batch_rental_history(&self, parcl_ids: Vec<i64>, params: Option<MetricsParams>) -> (request: PostRequest)
        ensures
            request@ == MetricsParams::given_or_unset(params).batch_request(
                self.session().base_url@,
                "price_feed"@,
                "rental_price_feed"@,
                parcl_ids@,
            ),
    {
        MetricsParams::given_or_new(params).post(
            self.client.base_url.as_str(),
            "price_feed",
            "rental_price_feed",
            parcl_ids.as_slice(),
        )
    }
}

} // verus!
