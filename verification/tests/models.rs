use parcllabs::{
    EntityOwnerName, EventType, LocationType, Market, PaginationLinks, PortfolioSize,
    PropertyType, SortBy, SortOrder, USRegion,
};

fn sample_market(exchange: Option<i32>, pricefeed: Option<i32>) -> Market {
    Market {
        parcl_id: 123,
        name: "Test Market".into(),
        state_abbreviation: Some("CA".into()),
        state_fips_code: Some("06".into()),
        location_type: "CITY".into(),
        total_population: Some(100_000),
        median_income: Some(75_000),
        parcl_exchange_market: exchange,
        pricefeed_market: pricefeed,
        country: None,
        geoid: None,
        region: None,
        case_shiller_10_market: None,
        case_shiller_20_market: None,
    }
}

#[test]
fn market_is_exchange_market() {
    assert!(sample_market(Some(1), None).is_exchange_market());
    assert!(!sample_market(Some(0), None).is_exchange_market());
    assert!(!sample_market(None, None).is_exchange_market());
}

#[test]
fn market_has_price_feed() {
    assert!(sample_market(None, Some(1)).has_price_feed());
    assert!(!sample_market(None, Some(0)).has_price_feed());
    assert!(!sample_market(None, None).has_price_feed());
}

#[test]
fn location_type_as_str() {
    assert_eq!(LocationType::County.as_str(), "COUNTY");
    assert_eq!(LocationType::City.as_str(), "CITY");
    assert_eq!(LocationType::Zip5.as_str(), "ZIP5");
    assert_eq!(LocationType::Cbsa.as_str(), "CBSA");
    assert_eq!(LocationType::All.as_str(), "ALL");
}

#[test]
fn location_type_display() {
    assert_eq!(LocationType::City.to_string(), "CITY");
    assert_eq!(LocationType::County.to_string(), "COUNTY");
}

#[test]
fn us_region_as_str() {
    assert_eq!(USRegion::Pacific.as_str(), "PACIFIC");
    assert_eq!(USRegion::Mountain.as_str(), "MOUNTAIN");
    assert_eq!(USRegion::NewEngland.as_str(), "NEW_ENGLAND");
    assert_eq!(USRegion::EastNorthCentral.as_str(), "EAST_NORTH_CENTRAL");
}

#[test]
fn sort_by_as_str() {
    assert_eq!(SortBy::TotalPopulation.as_str(), "TOTAL_POPULATION");
    assert_eq!(SortBy::MedianIncome.as_str(), "MEDIAN_INCOME");
    assert_eq!(SortBy::PricefeedMarket.as_str(), "PRICEFEED_MARKET");
}

#[test]
fn sort_order_as_str() {
    assert_eq!(SortOrder::Asc.as_str(), "ASC");
    assert_eq!(SortOrder::Desc.as_str(), "DESC");
}

#[test]
fn property_type_as_str() {
    assert_eq!(PropertyType::SingleFamily.as_str(), "SINGLE_FAMILY");
    assert_eq!(PropertyType::Condo.as_str(), "CONDO");
    assert_eq!(PropertyType::AllProperties.as_str(), "ALL_PROPERTIES");
}

#[test]
fn property_type_default() {
    assert_eq!(PropertyType::default(), PropertyType::AllProperties);
}

#[test]
fn pagination_links_default() {
    let links = PaginationLinks::default();
    assert!(links.first.is_none());
    assert!(links.next.is_none());
    assert!(links.prev.is_none());
    assert!(links.last.is_none());
}

#[test]
fn portfolio_size_as_str() {
    assert_eq!(PortfolioSize::Portfolio2To9.as_str(), "PORTFOLIO_2_TO_9");
    assert_eq!(PortfolioSize::Portfolio10To99.as_str(), "PORTFOLIO_10_TO_99");
    assert_eq!(
        PortfolioSize::Portfolio100To999.as_str(),
        "PORTFOLIO_100_TO_999"
    );
    assert_eq!(
        PortfolioSize::Portfolio1000Plus.as_str(),
        "PORTFOLIO_1000_PLUS"
    );
    assert_eq!(PortfolioSize::AllPortfolios.as_str(), "ALL_PORTFOLIOS");
}

#[test]
fn portfolio_size_default() {
    assert_eq!(PortfolioSize::default(), PortfolioSize::AllPortfolios);
}

#[test]
fn portfolio_size_display() {
    assert_eq!(
        PortfolioSize::Portfolio2To9.to_string(),
        "PORTFOLIO_2_TO_9"
    );
    assert_eq!(
        PortfolioSize::AllPortfolios.to_string(),
        "ALL_PORTFOLIOS"
    );
}

#[test]
fn event_type_as_str() {
    assert_eq!(EventType::Sale.as_str(), "SALE");
    assert_eq!(EventType::Listing.as_str(), "LISTING");
    assert_eq!(EventType::Rental.as_str(), "RENTAL");
    assert_eq!(EventType::All.as_str(), "ALL");
}

#[test]
fn event_type_display() {
    assert_eq!(EventType::Sale.to_string(), "SALE");
}

#[test]
fn entity_owner_name_as_str() {
    assert_eq!(EntityOwnerName::Amh.as_str(), "AMH");
    assert_eq!(EntityOwnerName::InvitationHomes.as_str(), "INVITATION_HOMES");
    assert_eq!(EntityOwnerName::HomePartnersOfAmerica.as_str(), "HOME_PARTNERS_OF_AMERICA");
    assert_eq!(EntityOwnerName::Offerpad.as_str(), "OFFERPAD");
}

#[test]
fn entity_owner_name_display() {
    assert_eq!(EntityOwnerName::Tricon.to_string(), "TRICON");
}
