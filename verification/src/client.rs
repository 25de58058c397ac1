//! The state of one client session: where requests go, how they are
//! retried, and what the session has used.

use vstd::prelude::*;
use vstd::string::StringExecFns;
use crate::credits::{AccountInfo, AccountUsage, CreditTracker};
use crate::endpoints::for_sale_metrics::ForSaleMetricsClient;
use crate::endpoints::investor_metrics::InvestorMetricsClient;
use crate::endpoints::market_metrics::MarketMetricsClient;
use crate::endpoints::new_construction_metrics::NewConstructionMetricsClient;
use crate::endpoints::portfolio_metrics::PortfolioMetricsClient;
use crate::endpoints::price_feed::PriceFeedClient;
use crate::endpoints::property::PropertyClient;
use crate::endpoints::rental_metrics::RentalMetricsClient;
use crate::endpoints::search::SearchClient;
use crate::error::ParclError;
use crate::retry::RetryConfig;

verus! {

/// The address of the API that a client uses unless it is given another.
pub const DEFAULT_BASE_URL: &'static str = "https://api.parcllabs.com";

/// The environment variable from which a client takes its API key.
pub const ENV_API_KEY: &'static str = "PARCL_LABS_API_KEY";

/// The request header that carries the API key.
pub const AUTHORIZATION_HEADER: &'static str = "Authorization";

/// Main client for interacting with the Parcl Labs API.
pub struct ParclClient {
    pub base_url: String,
    pub api_key: String,
    pub retry_config: RetryConfig,
    pub credits: CreditTracker,
}

impl ParclClient {
    /// A client as it is made: with the default retry policy and with
    /// counters at zero.
    pub open spec fn is_fresh(&self, api_key: Seq<char>, base_url: Seq<char>) -> bool {
        &&& self.api_key@ == api_key
        &&& self.base_url@ == base_url
        &&& self.retry_config.max_retries == 3
        &&& self.retry_config.initial_backoff_ms == 1000
        &&& self.credits.session_credits_used == 0
        &&& self.credits.remaining_credits == 0
    }

    /// Creates a new client from the value of the `PARCL_LABS_API_KEY`
    /// environment variable, as the caller has read it. Without a value no
    /// client is made.
    pub fn new(env_api_key: Option<String>) -> (result: Result<Self, ParclError>)
        ensures
            match env_api_key {
                Some(key) => result is Ok && result->Ok_0.is_fresh(key@, DEFAULT_BASE_URL@),
                None => result is Err && result->Err_0 is MissingApiKey,
            },
    {
        match env_api_key {
            Some(key) => Ok(
                ParclClient {
                    base_url: String::from_str(DEFAULT_BASE_URL),
                    api_key: key,
                    retry_config: RetryConfig::default(),
                    credits: CreditTracker::new(),
                },
            ),
            None => Err(ParclError::MissingApiKey),
        }
    }

    /// Creates a new client with an explicit API key.
    pub fn with_api_key(api_key: &str) -> (client: Self)
        ensures
            client.is_fresh(api_key@, DEFAULT_BASE_URL@),
    {
        ParclClient {
            base_url: String::from_str(DEFAULT_BASE_URL),
            api_key: String::from_str(api_key),
            retry_config: RetryConfig::default(),
            credits: CreditTracker::new(),
        }
    }

    /// Creates a new client with custom configuration.
    pub fn with_config(api_key: &str, base_url: &str) -> (client: Self)
        ensures
            client.is_fresh(api_key@, base_url@),
    {
        ParclClient {
            base_url: String::from_str(base_url),
            api_key: String::from_str(api_key),
            retry_config: RetryConfig::default(),
            credits: CreditTracker::new(),
        }
    }

    /// Sets the retry configuration for rate-limited requests.
    pub fn with_retry_config(self, config: RetryConfig) -> (client: Self)
        ensures
            client == (Self { retry_config: config, ..self }),
    {
        let mut client = self;
        client.retry_config = config;
        client
    }

    /// The value of the authorization header of every request: the API key
    /// as it is, without a scheme in front.
    pub fn authorization(&self) -> (value: &str)
        ensures
            value@ == self.api_key@,
    {
        self.api_key.as_str()
    }

    /// Updates session credit tracking from an API response's account info.
    pub fn update_credits(&mut self, account: &Option<AccountInfo>)
        ensures
            *final(self) == (Self { credits: old(self).credits.recorded(*account), ..*old(self) }),
    {
        self.credits.record(account);
    }

    /// Returns the accumulated session credit usage.
    pub fn account_info(&self) -> (usage: AccountUsage)
        ensures
            usage.est_session_credits_used == self.credits.session_credits_used,
            usage.est_remaining_credits == self.credits.remaining_credits,
    {
        self.credits.snapshot()
    }

    /// Returns total credits used in this session.
    pub fn session_credits_used(&self) -> (used: i64)
        ensures
            used == self.credits.session_credits_used,
    {
        self.credits.session_credits_used
    }

    /// Returns the last known remaining credits.
    pub fn remaining_credits(&self) -> (remaining: i64)
        ensures
            remaining == self.credits.remaining_credits,
    {
        self.credits.remaining_credits
    }

    /// Returns a client for search endpoints.
    pub fn search(&self) -> (endpoints: SearchClient<'_>)
        ensures
            endpoints.session() == *self,
    {
        SearchClient::new(self)
    }

    /// Returns a client for market metrics endpoints.
    pub fn market_metrics(&self) -> (endpoints: MarketMetricsClient<'_>)
        ensures
            endpoints.session() == *self,
    {
        MarketMetricsClient::new(self)
    }

    /// Returns a client for investor metrics endpoints.
    pub fn investor_metrics(&self) -> (endpoints: InvestorMetricsClient<'_>)
        ensures
            endpoints.session() == *self,
    {
        InvestorMetricsClient::new(self)
    }

    /// Returns a client for for-sale market metrics endpoints.
    pub fn for_sale_metrics(&self) -> (endpoints: ForSaleMetricsClient<'_>)
        ensures
            endpoints.session() == *self,
    {
        ForSaleMetricsClient::new(self)
    }

    /// Returns a client for rental market metrics endpoints.
    pub fn rental_metrics(&self) -> (endpoints: RentalMetricsClient<'_>)
        ensures
            endpoints.session() == *self,
    {
        RentalMetricsClient::new(self)
    }

    /// Returns a client for price feed endpoints.
    pub fn price_feed(&self) -> (endpoints: PriceFeedClient<'_>)
        ensures
            endpoints.session() == *self,
    {
        PriceFeedClient::new(self)
    }

    /// Returns a client for new construction metrics endpoints.
    pub fn new_construction_metrics(&self) -> (endpoints: NewConstructionMetricsClient<'_>)
        ensures
            endpoints.session() == *self,
    {
        NewConstructionMetricsClient::new(self)
    }

    /// Returns a client for portfolio metrics endpoints.
    pub fn portfolio_metrics(&self) -> (endpoints: PortfolioMetricsClient<'_>)
        ensures
            endpoints.session() == *self,
    {
        PortfolioMetricsClient::new(self)
    }

    /// Returns a client for property API endpoints.
    pub fn property(&self) -> (endpoints: PropertyClient<'_>)
        ensures
            endpoints.session() == *self,
    {
        PropertyClient::new(self)
    }
}

} // verus!
