//! Request parameters, one module for each group of endpoints.

pub mod common;
pub mod for_sale_metrics;
pub mod investor_metrics;
pub mod market_metrics;
pub mod new_construction_metrics;
pub mod portfolio_metrics;
pub mod price_feed;
pub mod property;
pub mod rental_metrics;
pub mod search;
