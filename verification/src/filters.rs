//! Filter vocabularies of the API: each value has a fixed wire name.

use vstd::prelude::*;
use vstd::string::StringExecFns;

verus! {

/// Location type filter for market search.
#[derive(Debug, Clone, Copy, PartialEq, Eq, Structural)]
pub enum LocationType {
    County,
    City,
    Zip5,
    Cdp,
    Village,
    Town,
    Cbsa,
    All,
}

impl LocationType {
    /// The name of this value on the wire.
    pub open spec fn name(&self) -> Seq<char> {
        match self {
            Self::County => "COUNTY"@,
            Self::City => "CITY"@,
            Self::Zip5 => "ZIP5"@,
            Self::Cdp => "CDP"@,
            Self::Village => "VILLAGE"@,
            Self::Town => "TOWN"@,
            Self::Cbsa => "CBSA"@,
            Self::All => "ALL"@,
        }
    }

    /// The name of this value on the wire.
    pub fn as_str(&self) -> (s: &'static str)
        ensures
            s@ == self.name(),
    {
        match self {
            Self::County => "COUNTY",
            Self::City => "CITY",
            Self::Zip5 => "ZIP5",
            Self::Cdp => "CDP",
            Self::Village => "VILLAGE",
            Self::Town => "TOWN",
            Self::Cbsa => "CBSA",
            Self::All => "ALL",
        }
    }

    /// The wire name as an owned string.
    pub fn to_string(&self) -> (s: String)
        ensures
            s@ == self.name(),
    {
        String::from_str(self.as_str())
    }
}

/// US region filter for market search.
#[derive(Debug, Clone, Copy, PartialEq, Eq, Structural)]
pub enum USRegion {
    EastNorthCentral,
    EastSouthCentral,
    MiddleAtlantic,
    Mountain,
    NewEngland,
    Pacific,
    SouthAtlantic,
    WestNorthCentral,
    WestSouthCentral,
    All,
}

impl USRegion {
    /// The name of this value on the wire.
    pub open spec fn name(&self) -> Seq<char> {
        match self {
            Self::EastNorthCentral => "EAST_NORTH_CENTRAL"@,
            Self::EastSouthCentral => "EAST_SOUTH_CENTRAL"@,
            Self::MiddleAtlantic => "MIDDLE_ATLANTIC"@,
            Self::Mountain => "MOUNTAIN"@,
            Self::NewEngland => "NEW_ENGLAND"@,
            Self::Pacific => "PACIFIC"@,
            Self::SouthAtlantic => "SOUTH_ATLANTIC"@,
            Self::WestNorthCentral => "WEST_NORTH_CENTRAL"@,
            Self::WestSouthCentral => "WEST_SOUTH_CENTRAL"@,
            Self::All => "ALL"@,
        }
    }

    /// The name of this value on the wire.
    pub fn as_str(&self) -> (s: &'static str)
        ensures
            s@ == self.name(),
    {
        match self {
            Self::EastNorthCentral => "EAST_NORTH_CENTRAL",
            Self::EastSouthCentral => "EAST_SOUTH_CENTRAL",
            Self::MiddleAtlantic => "MIDDLE_ATLANTIC",
            Self::Mountain => "MOUNTAIN",
            Self::NewEngland => "NEW_ENGLAND",
            Self::Pacific => "PACIFIC",
            Self::SouthAtlantic => "SOUTH_ATLANTIC",
            Self::WestNorthCentral => "WEST_NORTH_CENTRAL",
            Self::WestSouthCentral => "WEST_SOUTH_CENTRAL",
            Self::All => "ALL",
        }
    }

    /// The wire name as an owned string.
    pub fn to_string(&self) -> (s: String)
        ensures
            s@ == self.name(),
    {
        String::from_str(self.as_str())
    }
}

/// Sort field for market search.
#[derive(Debug, Clone, Copy, PartialEq, Eq, Structural)]
pub enum SortBy {
    TotalPopulation,
    MedianIncome,
    CaseShiller20Market,
    CaseShiller10Market,
    PricefeedMarket,
    ParclExchangeMarket,
}

impl SortBy {
    /// The name of this value on the wire.
    pub open spec fn name(&self) -> Seq<char> {
        match self {
            Self::TotalPopulation => "TOTAL_POPULATION"@,
            Self::MedianIncome => "MEDIAN_INCOME"@,
            Self::CaseShiller20Market => "CASE_SHILLER_20_MARKET"@,
            Self::CaseShiller10Market => "CASE_SHILLER_10_MARKET"@,
            Self::PricefeedMarket => "PRICEFEED_MARKET"@,
            Self::ParclExchangeMarket => "PARCL_EXCHANGE_MARKET"@,
        }
    }

    /// The name of this value on the wire.
    pub fn as_str(&self) -> (s: &'static str)
        ensures
            s@ == self.name(),
    {
        match self {
            Self::TotalPopulation => "TOTAL_POPULATION",
            Self::MedianIncome => "MEDIAN_INCOME",
            Self::CaseShiller20Market => "CASE_SHILLER_20_MARKET",
            Self::CaseShiller10Market => "CASE_SHILLER_10_MARKET",
            Self::PricefeedMarket => "PRICEFEED_MARKET",
            Self::ParclExchangeMarket => "PARCL_EXCHANGE_MARKET",
        }
    }

    /// The wire name as an owned string.
    pub fn to_string(&self) -> (s: String)
        ensures
            s@ == self.name(),
    {
        String::from_str(self.as_str())
    }
}

/// Sort order for market search.
#[derive(Debug, Clone, Copy, PartialEq, Eq, Structural)]
pub enum SortOrder {
    Asc,
    Desc,
}

impl SortOrder {
    /// The name of this value on the wire.
    pub open spec fn name(&self) -> Seq<char> {
        match self {
            Self::Asc => "ASC"@,
            Self::Desc => "DESC"@,
        }
    }

    /// The name of this value on the wire.
    pub fn as_str(&self) -> (s: &'static str)
        ensures
            s@ == self.name(),
    {
        match self {
            Self::Asc => "ASC",
            Self::Desc => "DESC",
        }
    }

    /// The wire name as an owned string.
    pub fn to_string(&self) -> (s: String)
        ensures
            s@ == self.name(),
    {
        String::from_str(self.as_str())
    }
}

/// Property type filter for market metrics.
#[derive(Debug, Clone, Copy, PartialEq, Eq, Structural)]
pub enum PropertyType {
    SingleFamily,
    Condo,
    Townhouse,
    Other,
    AllProperties,
}

impl PropertyType {
    /// The name of this value on the wire.
    pub open spec fn name(&self) -> Seq<char> {
        match self {
            Self::SingleFamily => "SINGLE_FAMILY"@,
            Self::Condo => "CONDO"@,
            Self::Townhouse => "TOWNHOUSE"@,
            Self::Other => "OTHER"@,
            Self::AllProperties => "ALL_PROPERTIES"@,
        }
    }

    /// The name of this value on the wire.
    pub fn as_str(&self) -> (s: &'static str)
        ensures
            s@ == self.name(),
    {
        match self {
            Self::SingleFamily => "SINGLE_FAMILY",
            Self::Condo => "CONDO",
            Self::Townhouse => "TOWNHOUSE",
            Self::Other => "OTHER",
            Self::AllProperties => "ALL_PROPERTIES",
        }
    }

    /// The wire name as an owned string.
    pub fn to_string(&self) -> (s: String)
        ensures
            s@ == self.name(),
    {
        String::from_str(self.as_str())
    }
}

impl Default for PropertyType {
    fn default() -> (value: Self)
        ensures
            value == PropertyType::AllProperties,
    {
        PropertyType::AllProperties
    }
}

/// Portfolio size filter for portfolio metrics.
#[derive(Debug, Clone, Copy, PartialEq, Eq, Structural)]
pub enum PortfolioSize {
    Portfolio2To9,
    Portfolio10To99,
    Portfolio100To999,
    Portfolio1000Plus,
    AllPortfolios,
}

impl PortfolioSize {
    /// The name of this value on the wire.
    pub open spec fn name(&self) -> Seq<char> {
        match self {
            Self::Portfolio2To9 => "PORTFOLIO_2_TO_9"@,
            Self::Portfolio10To99 => "PORTFOLIO_10_TO_99"@,
            Self::Portfolio100To999 => "PORTFOLIO_100_TO_999"@,
            Self::Portfolio1000Plus => "PORTFOLIO_1000_PLUS"@,
            Self::AllPortfolios => "ALL_PORTFOLIOS"@,
        }
    }

    /// The name of this value on the wire.
    pub fn as_str(&self) -> (s: &'static str)
        ensures
            s@ == self.name(),
    {
        match self {
            Self::Portfolio2To9 => "PORTFOLIO_2_TO_9",
            Self::Portfolio10To99 => "PORTFOLIO_10_TO_99",
            Self::Portfolio100To999 => "PORTFOLIO_100_TO_999",
            Self::Portfolio1000Plus => "PORTFOLIO_1000_PLUS",
            Self::AllPortfolios => "ALL_PORTFOLIOS",
        }
    }

    /// The wire name as an owned string.
    pub fn to_string(&self) -> (s: String)
        ensures
            s@ == self.name(),
    {
        String::from_str(self.as_str())
    }
}

impl Default for PortfolioSize {
    fn default() -> (value: Self)
        ensures
            value == PortfolioSize::AllPortfolios,
    {
        PortfolioSize::AllPortfolios
    }
}

/// Event type filter for property event history queries.
#[derive(Debug, Clone, Copy, PartialEq, Eq, Structural)]
pub enum EventType {
    Sale,
    Listing,
    Rental,
    All,
}

impl EventType {
    /// The name of this value on the wire.
    pub open spec fn name(&self) -> Seq<char> {
        match self {
            Self::Sale => "SALE"@,
            Self::Listing => "LISTING"@,
            Self::Rental => "RENTAL"@,
            Self::All => "ALL"@,
        }
    }

    /// The name of this value on the wire.
    pub fn as_str(&self) -> (s: &'static str)
        ensures
            s@ == self.name(),
    {
        match self {
            Self::Sale => "SALE",
            Self::Listing => "LISTING",
            Self::Rental => "RENTAL",
            Self::All => "ALL",
        }
    }

    /// The wire name as an owned string.
    pub fn to_string(&self) -> (s: String)
        ensures
            s@ == self.name(),
    {
        String::from_str(self.as_str())
    }
}

/// Institutional investor / entity owner name filter.
#[derive(Debug, Clone, Copy, PartialEq, Eq, Structural)]
pub enum EntityOwnerName {
    Amh,
    Tricon,
    InvitationHomes,
    HomePartnersOfAmerica,
    ProgressResidential,
    FirstkeyHomes,
    Amherst,
    MaymontHomes,
    VinebrookHomes,
    Sfr3,
    MyCommunityHomes,
    Blackstone,
    Bx,
    Opendoor,
    Offerpad,
}

impl EntityOwnerName {
    /// The name of this value on the wire.
    pub open spec fn name(&self) -> Seq<char> {
        match self {
            Self::Amh => "AMH"@,
            Self::Tricon => "TRICON"@,
            Self::InvitationHomes => "INVITATION_HOMES"@,
            Self::HomePartnersOfAmerica => "HOME_PARTNERS_OF_AMERICA"@,
            Self::ProgressResidential => "PROGRESS_RESIDENTIAL"@,
            Self::FirstkeyHomes => "FIRSTKEY_HOMES"@,
            Self::Amherst => "AMHERST"@,
            Self::MaymontHomes => "MAYMONT_HOMES"@,
            Self::VinebrookHomes => "VINEBROOK_HOMES"@,
            Self::Sfr3 => "SFR3"@,
            Self::MyCommunityHomes => "MY_COMMUNITY_HOMES"@,
            Self::Blackstone => "BLACKSTONE"@,
            Self::Bx => "BX"@,
            Self::Opendoor => "OPENDOOR"@,
            Self::Offerpad => "OFFERPAD"@,
        }
    }

    /// The name of this value on the wire.
    pub fn as_str(&self) -> (s: &'static str)
        ensures
            s@ == self.name(),
    {
        match self {
            Self::Amh => "AMH",
            Self::Tricon => "TRICON",
            Self::InvitationHomes => "INVITATION_HOMES",
            Self::HomePartnersOfAmerica => "HOME_PARTNERS_OF_AMERICA",
            Self::ProgressResidential => "PROGRESS_RESIDENTIAL",
            Self::FirstkeyHomes => "FIRSTKEY_HOMES",
            Self::Amherst => "AMHERST",
            Self::MaymontHomes => "MAYMONT_HOMES",
            Self::VinebrookHomes => "VINEBROOK_HOMES",
            Self::Sfr3 => "SFR3",
            Self::MyCommunityHomes => "MY_COMMUNITY_HOMES",
            Self::Blackstone => "BLACKSTONE",
            Self::Bx => "BX",
            Self::Opendoor => "OPENDOOR",
            Self::Offerpad => "OFFERPAD",
        }
    }

    /// The wire name as an owned string.
    pub fn to_string(&self) -> (s: String)
        ensures
            s@ == self.name(),
    {
        String::from_str(self.as_str())
    }
}

} // verus!
