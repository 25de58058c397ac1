//! Verified core of a client for the Parcl Labs housing-market API.
//!
//! The crate holds everything that a client decides or computes: the
//! parameters of each endpoint and their query strings and request bodies,
//! the retry policy for rate-limited requests, the walk over the pages of a
//! result, and the credit counters of a session. It sends nothing itself:
//! a caller performs the requests and waits, and hands statuses and pages
//! back.

pub mod client;
pub mod credits;
pub mod endpoints;
pub mod error;
pub mod filters;
pub mod json;
pub mod models;
pub mod pagination;
pub mod query;
pub mod request;
pub mod retry;
pub mod text;
pub mod urlencoding;

pub use client::ParclClient;
pub use credits::{AccountInfo, AccountUsage, CreditTracker};
pub use endpoints::for_sale_metrics::ForSaleMetricsParams;
pub use endpoints::investor_metrics::InvestorMetricsParams;
pub use endpoints::market_metrics::MetricsParams;
pub use endpoints::new_construction_metrics::NewConstructionMetricsParams;
pub use endpoints::portfolio_metrics::PortfolioMetricsParams;
pub use endpoints::property::{EventHistoryParams, PropertySearchParams};
pub use endpoints::rental_metrics::RentalMetricsParams;
pub use endpoints::search::SearchParams;
pub use error::ParclError;
pub use filters::{
    EntityOwnerName, EventType, LocationType, PortfolioSize, PropertyType, SortBy, SortOrder,
    USRegion,
};
pub use models::{
    AddressSearchRequest, ForSaleInventory, HousingEventCounts, HousingStock,
    InvestorHousingEventCounts, Market, NewListingsRollingCounts, OwnerFilters,
    PortfolioHousingEventCounts, PortfolioSizeBreakdown, PropertyEvent, PropertyV2Event,
    RentalNewListingsRollingCounts, RollingCounts, V2EventFilters,
};
pub use pagination::{BatchMetricsResponse, MetricsResponse, PaginatedResponse, PaginationLinks};
pub use request::{GetRequest, PostRequest};
pub use retry::{Failure, PageFetch, RetryConfig, Verdict};
