//! Records of the API: markets, metrics rows, property events and request filters.

use vstd::prelude::*;

verus! {

/// A housing market returned from search.
#[derive(Debug, Clone)]
pub struct Market {
    /// Unique Parcl market identifier.
    pub parcl_id: i64,
    pub name: String,
    pub state_abbreviation: Option<String>,
    pub state_fips_code: Option<String>,
    pub location_type: String,
    pub total_population: Option<i64>,
    pub median_income: Option<i64>,
    /// Whether this market is tradeable on the Parcl exchange (0 or 1).
    pub parcl_exchange_market: Option<i32>,
    /// Whether this market has price feed data (0 or 1).
    pub pricefeed_market: Option<i32>,
    /// Country code (e.g. "US").
    pub country: Option<String>,
    /// Geographic identifier.
    pub geoid: Option<String>,
    /// US Census region.
    pub region: Option<String>,
    /// Whether this market is in the Case-Shiller 10-city index (0 or 1).
    pub case_shiller_10_market: Option<i32>,
    /// Whether this market is in the Case-Shiller 20-city index (0 or 1).
    pub case_shiller_20_market: Option<i32>,
}

impl Market {
    /// Returns true if this market is tradeable on the Parcl exchange.
    pub fn is_exchange_market(&self) -> (tradeable: bool)
        ensures
            tradeable == (self.parcl_exchange_market == Some(1i32)),
    {
        match self.parcl_exchange_market {
            Some(flag) => flag == 1,
            None => false,
        }
    }

    /// Returns true if this market has price feed data.
    pub fn has_price_feed(&self) -> (fed: bool)
        ensures
            fed == (self.pricefeed_market == Some(1i32)),
    {
        match self.pricefeed_market {
            Some(flag) => flag == 1,
            None => false,
        }
    }
}

/// Housing transaction and listing counts.
#[derive(Debug, Clone)]
pub struct HousingEventCounts {
    pub date: String,
    pub sales: Option<i64>,
    pub new_listings_for_sale: Option<i64>,
    pub new_rental_listings: Option<i64>,
}

/// Housing unit counts by property type.
#[derive(Debug, Clone)]
pub struct HousingStock {
    pub date: String,
    pub single_family: Option<i64>,
    pub condo: Option<i64>,
    pub townhouse: Option<i64>,
    pub other: Option<i64>,
    pub all_properties: Option<i64>,
}

/// Investor housing event counts.
#[derive(Debug, Clone)]
pub struct InvestorHousingEventCounts {
    pub date: String,
    /// Count of investor property acquisitions.
    pub acquisitions: Option<i64>,
    /// Count of investor property dispositions.
    pub dispositions: Option<i64>,
    /// Properties newly listed for sale by investors.
    pub new_listings_for_sale: Option<i64>,
    /// Properties newly listed for rent by investors.
    pub new_rental_listings: Option<i64>,
}

/// Rolling counts with multiple time windows.
#[derive(Debug, Clone)]
pub struct RollingCounts {
    /// 7-day rolling count.
    pub rolling_7_day: Option<i64>,
    /// 30-day rolling count.
    pub rolling_30_day: Option<i64>,
    /// 60-day rolling count.
    pub rolling_60_day: Option<i64>,
    /// 90-day rolling count.
    pub rolling_90_day: Option<i64>,
}

/// For-sale inventory metrics.
#[derive(Debug, Clone)]
pub struct ForSaleInventory {
    pub date: String,
    /// Total count of properties listed for sale.
    pub for_sale_inventory: Option<i64>,
}

/// Rolling counts for new for-sale listings.
#[derive(Debug, Clone)]
pub struct NewListingsRollingCounts {
    pub date: String,
    /// 7-day rolling count.
    pub rolling_7_day_count: Option<i64>,
    /// 30-day rolling count.
    pub rolling_30_day_count: Option<i64>,
    /// 60-day rolling count.
    pub rolling_60_day_count: Option<i64>,
    /// 90-day rolling count.
    pub rolling_90_day_count: Option<i64>,
}

/// Rolling counts for new rental listings.
#[derive(Debug, Clone)]
pub struct RentalNewListingsRollingCounts {
    pub date: String,
    /// 7-day rolling count.
    pub rolling_7_day_count: Option<i64>,
    /// 30-day rolling count.
    pub rolling_30_day_count: Option<i64>,
    /// 60-day rolling count.
    pub rolling_60_day_count: Option<i64>,
    /// 90-day rolling count.
    pub rolling_90_day_count: Option<i64>,
}

/// Count breakdown by portfolio size for housing stock ownership.
#[derive(Debug, Clone)]
pub struct PortfolioSizeBreakdown {
    pub portfolio_2_to_9: Option<i64>,
    pub portfolio_10_to_99: Option<i64>,
    pub portfolio_100_to_999: Option<i64>,
    pub portfolio_1000_plus: Option<i64>,
    pub all_portfolios: Option<i64>,
}

/// Portfolio holder housing event counts.
#[derive(Debug, Clone)]
pub struct PortfolioHousingEventCounts {
    pub date: String,
    pub acquisitions: Option<i64>,
    pub dispositions: Option<i64>,
    pub new_listings_for_sale: Option<i64>,
    pub new_rental_listings: Option<i64>,
    pub transfers: Option<i64>,
}

/// A single property event (sale, listing, rental).
#[derive(Debug, Clone)]
pub struct PropertyEvent {
    pub event_type: Option<String>,
    pub event_name: Option<String>,
    pub event_date: Option<String>,
    pub price: Option<i64>,
    pub entity_owner_name: Option<String>,
    pub investor_flag: Option<i32>,
    pub owner_occupied_flag: Option<i32>,
    pub new_construction_flag: Option<i32>,
    pub record_updated_date: Option<String>,
}

/// A property event from v2 search (richer than v1).
#[derive(Debug, Clone)]
pub struct PropertyV2Event {
    pub event_type: Option<String>,
    pub event_name: Option<String>,
    pub event_date: Option<String>,
    pub entity_owner_name: Option<String>,
    pub true_sale_index: Option<i32>,
    pub price: Option<i64>,
    pub transfer_index: Option<i32>,
    pub investor_flag: Option<i32>,
    pub owner_occupied_flag: Option<i32>,
    pub new_construction_flag: Option<i32>,
    pub current_owner_flag: Option<i32>,
    pub record_updated_date: Option<String>,
}

/// A single address for the address search endpoint.
#[derive(Debug, Clone)]
pub struct AddressSearchRequest {
    pub address: String,
    pub city: String,
    pub state_abbreviation: String,
    pub zip_code: String,
}

/// Event filters for v2 search request body.
#[derive(Debug, Clone)]
pub struct V2EventFilters {
    pub event_names: Option<Vec<String>>,
    pub min_event_date: Option<String>,
    pub max_event_date: Option<String>,
    pub min_event_price: Option<i64>,
    pub max_event_price: Option<i64>,
    pub include_events: Option<bool>,
    pub include_full_event_history: Option<bool>,
    pub is_new_construction: Option<bool>,
    pub min_record_updated_date: Option<String>,
    pub max_record_updated_date: Option<String>,
}

impl Default for V2EventFilters {
    fn default() -> (filters: Self)
        ensures
            filters.event_names is None,
            filters.min_event_date is None,
            filters.max_event_date is None,
            filters.min_event_price is None,
            filters.max_event_price is None,
            filters.include_events is None,
            filters.include_full_event_history is None,
            filters.is_new_construction is None,
            filters.min_record_updated_date is None,
            filters.max_record_updated_date is None,
    {
        V2EventFilters {
            event_names: None,
            min_event_date: None,
            max_event_date: None,
            min_event_price: None,
            max_event_price: None,
            include_events: None,
            include_full_event_history: None,
            is_new_construction: None,
            min_record_updated_date: None,
            max_record_updated_date: None,
        }
    }
}

/// Owner filters for v2 search request body.
#[derive(Debug, Clone)]
pub struct OwnerFilters {
    pub owner_name: Option<Vec<String>>,
    pub entity_seller_name: Option<Vec<String>>,
    pub is_current_owner: Option<bool>,
    pub is_investor_owned: Option<bool>,
    pub is_owner_occupied: Option<bool>,
}

impl Default for OwnerFilters {
    fn default() -> (filters: Self)
        ensures
            filters.owner_name is None,
            filters.entity_seller_name is None,
            filters.is_current_owner is None,
            filters.is_investor_owned is None,
            filters.is_owner_occupied is None,
    {
        OwnerFilters {
            owner_name: None,
            entity_seller_name: None,
            is_current_owner: None,
            is_investor_owned: None,
            is_owner_occupied: None,
        }
    }
}

} // verus!
