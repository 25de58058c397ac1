//! Parameters of the market search endpoint.

use vstd::prelude::*;
use vstd::string::StringExecFns;
use vstd::utf8::encode_utf8;
use crate::client::ParclClient;
use crate::filters::{LocationType, SortBy, SortOrder, USRegion};
use crate::query::{numeral_of_i64, numeral_of_u32, optional, query_string, text_of, QueryParts};
use crate::request::{build_resource_url, resource_url, GetPlan, GetRequest};
use crate::text::{to_uppercase, uppercase};
use crate::urlencoding::{encode, percent_encoded};

verus! {

/// The percent-encoded form of an optional search text.
pub open spec fn encoded_of(value: Option<String>) -> Option<Seq<char>> {
    match value {
        Some(s) => Some(percent_encoded(encode_utf8(s@))),
        None => None,
    }
}

/// The wire name of an optional location type.
pub open spec fn location_name_of(value: Option<LocationType>) -> Option<Seq<char>> {
    match value {
        Some(v) => Some(v.name()),
        None => None,
    }
}

/// The wire name of an optional region.
pub open spec fn region_name_of(value: Option<USRegion>) -> Option<Seq<char>> {
    match value {
        Some(v) => Some(v.name()),
        None => None,
    }
}

/// The wire name of an optional sort field.
pub open spec fn sort_by_name_of(value: Option<SortBy>) -> Option<Seq<char>> {
    match value {
        Some(v) => Some(v.name()),
        None => None,
    }
}

/// The wire name of an optional sort order.
pub open spec fn sort_order_name_of(value: Option<SortOrder>) -> Option<Seq<char>> {
    match value {
        Some(v) => Some(v.name()),
        None => None,
    }
}

/// Query parameters for market search.
#[derive(Debug, Clone)]
pub struct SearchParams {
    pub query: Option<String>,
    pub location_type: Option<LocationType>,
    pub region: Option<USRegion>,
    pub state_abbreviation: Option<String>,
    pub state_fips_code: Option<String>,
    pub parcl_id: Option<i64>,
    pub geoid: Option<String>,
    pub sort_by: Option<SortBy>,
    pub sort_order: Option<SortOrder>,
    pub limit: Option<u32>,
    pub auto_paginate: bool,
}

impl Default for SearchParams {
    fn default() -> (params: Self)
        ensures
            params == Self::unset(),
    {
        SearchParams {
            query: None,
            location_type: None,
            region: None,
            state_abbreviation: None,
            state_fips_code: None,
            parcl_id: None,
            geoid: None,
            sort_by: None,
            sort_order: None,
            limit: None,
            auto_paginate: false,
        }
    }
}

impl SearchParams {
    /// The parameters with no filter set and pages not followed.
    pub open spec fn unset() -> Self {
        SearchParams {
            query: None,
            location_type: None,
            region: None,
            state_abbreviation: None,
            state_fips_code: None,
            parcl_id: None,
            geoid: None,
            sort_by: None,
            sort_order: None,
            limit: None,
            auto_paginate: false,
        }
    }

    /// Parameters with no filter set.
    pub fn new() -> (params: Self)
        ensures
            params == Self::unset(),
    {
        SearchParams {
            query: None,
            location_type: None,
            region: None,
            state_abbreviation: None,
            state_fips_code: None,
            parcl_id: None,
            geoid: None,
            sort_by: None,
            sort_order: None,
            limit: None,
            auto_paginate: false,
        }
    }

    /// Search query (city name, ZIP code, etc.). Minimum 3 characters.
    pub fn query(self, query: &str) -> (params: Self)
        ensures
            text_of(params.query) == Some(query@),
            params == (Self { query: params.query, ..self }),
    {
        let mut params = self;
        params.query = Some(String::from_str(query));
        params
    }

    /// Filter by location type (City, County, Zip5, etc.)
    pub fn location_type(self, location_type: LocationType) -> (params: Self)
        ensures
            params == (Self { location_type: Some(location_type), ..self }),
    {
        let mut params = self;
        params.location_type = Some(location_type);
        params
    }

    /// Filter by US region (Pacific, Mountain, etc.)
    pub fn region(self, region: USRegion) -> (params: Self)
        ensures
            params == (Self { region: Some(region), ..self }),
    {
        let mut params = self;
        params.region = Some(region);
        params
    }

    /// Filter by state abbreviation, stored exactly as given.
    pub fn state_abbreviation(self, abbreviation: String) -> (params: Self)
        ensures
            params == (Self { state_abbreviation: Some(abbreviation), ..self }),
    {
        let mut params = self;
        params.state_abbreviation = Some(abbreviation);
        params
    }

    /// Filter by state abbreviation (e.g., "CA", "NY"); the abbreviation is
    /// stored in upper case.
    pub fn state(self, state: &str) -> (params: Self)
        ensures
            text_of(params.state_abbreviation) == Some(uppercase(state@)),
            params == (Self { state_abbreviation: params.state_abbreviation, ..self }),
    {
        self.state_abbreviation(to_uppercase(state))
    }

    /// Filter by state FIPS code (e.g., "06" for California)
    pub fn state_fips_code(self, code: &str) -> (params: Self)
        ensures
            text_of(params.state_fips_code) == Some(code@),
            params == (Self { state_fips_code: params.state_fips_code, ..self }),
    {
        let mut params = self;
        params.state_fips_code = Some(String::from_str(code));
        params
    }

    /// Filter by specific parcl_id
    pub fn parcl_id(self, parcl_id: i64) -> (params: Self)
        ensures
            params == (Self { parcl_id: Some(parcl_id), ..self }),
    {
        let mut params = self;
        params.parcl_id = Some(parcl_id);
        params
    }

    /// Filter by geographic ID
    pub fn geoid(self, geoid: &str) -> (params: Self)
        ensures
            text_of(params.geoid) == Some(geoid@),
            params == (Self { geoid: params.geoid, ..self }),
    {
        let mut params = self;
        params.geoid = Some(String::from_str(geoid));
        params
    }

    /// Sort results by field
    pub fn sort_by(self, sort_by: SortBy) -> (params: Self)
        ensures
            params == (Self { sort_by: Some(sort_by), ..self }),
    {
        let mut params = self;
        params.sort_by = Some(sort_by);
        params
    }

    /// Sort order (ascending or descending)
    pub fn sort_order(self, sort_order: SortOrder) -> (params: Self)
        ensures
            params == (Self { sort_order: Some(sort_order), ..self }),
    {
        let mut params = self;
        params.sort_order = Some(sort_order);
        params
    }

    /// Maximum number of results per page (default: API default)
    pub fn limit(self, limit: u32) -> (params: Self)
        ensures
            params == (Self { limit: Some(limit), ..self }),
    {
        let mut params = self;
        params.limit = Some(limit);
        params
    }

    /// Automatically fetch all pages of results.
    pub fn auto_paginate(self, auto_paginate: bool) -> (params: Self)
        ensures
            params == (Self { auto_paginate, ..self }),
    {
        let mut params = self;
        params.auto_paginate = auto_paginate;
        params
    }

    /// The `key=value` pairs of the query, in order, one for each filter
    /// that is set. The search text is percent-encoded; `auto_paginate` is
    /// not part of the query.
    pub open spec fn query_parts(&self) -> Seq<Seq<char>> {
        Seq::<Seq<char>>::empty() + optional("query"@, encoded_of(self.query)) + optional(
            "location_type"@,
            location_name_of(self.location_type),
        ) + optional("region"@, region_name_of(self.region)) + optional(
            "state_abbreviation"@,
            text_of(self.state_abbreviation),
        ) + optional("state_fips_code"@, text_of(self.state_fips_code)) + optional(
            "parcl_id"@,
            numeral_of_i64(self.parcl_id),
        ) + optional("geoid"@, text_of(self.geoid)) + optional(
            "sort_by"@,
            sort_by_name_of(self.sort_by),
        ) + optional("sort_order"@, sort_order_name_of(self.sort_order)) + optional(
            "limit"@,
            numeral_of_u32(self.limit),
        )
    }

    /// The query string of the search: empty when no filter is set,
    /// otherwise `?` and the pairs of [`Self::query_parts`] joined with `&`.
    pub fn to_query_string(&self) -> (query: String)
        ensures
            query@ == query_string(self.query_parts()),
    {
        let mut parts = QueryParts::new();
        match &self.query {
            Some(q) => {
                let encoded = encode(q.as_str());
                parts.push_opt_str("query", Some(encoded.as_str()));
            },
            None => {
                parts.push_opt_str("query", None);
            },
        }
        let location: Option<&str> = match self.location_type {
            Some(v) => Some(v.as_str()),
            None => None,
        };
        parts.push_opt_str("location_type", location);
        let region: Option<&str> = match self.region {
            Some(v) => Some(v.as_str()),
            None => None,
        };
        parts.push_opt_str("region", region);
        parts.push_opt_text("state_abbreviation", &self.state_abbreviation);
        parts.push_opt_text("state_fips_code", &self.state_fips_code);
        parts.push_opt_i64("parcl_id", self.parcl_id);
        parts.push_opt_text("geoid", &self.geoid);
        let sort_by: Option<&str> = match self.sort_by {
            Some(v) => Some(v.as_str()),
            None => None,
        };
        parts.push_opt_str("sort_by", sort_by);
        let sort_order: Option<&str> = match self.sort_order {
            Some(v) => Some(v.as_str()),
            None => None,
        };
        parts.push_opt_str("sort_order", sort_order);
        parts.push_opt_u32("limit", self.limit);
        parts.finish()
    }
}

/// Client for search API endpoints: works out the request of each endpoint.
pub struct SearchClient<'a> {
    client: &'a ParclClient,
}

impl<'a> SearchClient<'a> {
    /// The session whose requests this client works out.
    pub closed spec fn session(&self) -> ParclClient {
        *self.client
    }

    /// A client for the session `client`.
    pub fn new(client: &'a ParclClient) -> (endpoints: Self)
        ensures
            endpoints.session() == *client,
    {
        SearchClient { client }
    }

    /// Searches for markets using the provided parameters.
    ///
    /// `GET /v1/search/markets`
    pub fn markets(&self, params: SearchParams) -> (request: GetRequest)
        ensures
            request@ == (GetPlan {
                url: resource_url(self.session().base_url@, "search"@, "markets"@) + query_string(
                    params.query_parts(),
                ),
                auto_paginate: params.auto_paginate,
            }),
    {
        let mut url = build_resource_url(self.client.base_url.as_str(), "search", "markets");
        let query = params.to_query_string();
        url.append(query.as_str());
        GetRequest { url, auto_paginate: params.auto_paginate }
    }
}

} // verus!
