//! Market metrics: housing data of one market.

use vstd::prelude::*;
use vstd::string::StringExecFns;
use crate::client::ParclClient;
use crate::endpoints::common::{property_type_member, property_type_name_of};
use crate::filters::PropertyType;
use crate::json::{
    empty_object, integer_member, integers, object_members, put, set_integer_list,
    set_optional_str, set_optional_text, set_optional_u32, text_member, Member,
};
use crate::query::{numeral_of_u32, optional, query_string, text_of, QueryParts};
use crate::request::{
    build_market_url, build_resource_url, market_url, resource_url, GetPlan, GetRequest, PostPlan,
    PostRequest,
};

verus! {

/// Query parameters for paginated metrics requests.
#[derive(Debug, Clone)]
pub struct MetricsParams {
    pub limit: Option<u32>,
    pub offset: Option<u32>,
    pub start_date: Option<String>,
    pub end_date: Option<String>,
    pub property_type: Option<PropertyType>,
    pub auto_paginate: bool,
}

impl Default for MetricsParams {
    fn default() -> (params: Self)
        ensures
            params == Self::unset(),
    {
        MetricsParams {
            limit: None,
            offset: None,
            start_date: None,
            end_date: None,
            property_type: None,
            auto_paginate: false,
        }
    }
}

impl MetricsParams {
    /// The parameters with nothing set and pages not followed.
    pub open spec fn unset() -> Self {
        MetricsParams {
            limit: None,
            offset: None,
            start_date: None,
            end_date: None,
            property_type: None,
            auto_paginate: false,
        }
    }

    /// The parameters that a caller gave, or those with nothing set.
    pub open spec fn given_or_unset(params: Option<Self>) -> Self {
        match params {
            Some(given) => given,
            None => Self::unset(),
        }
    }

    /// The parameters that a caller gave, or those with nothing set.
    pub fn given_or_new(params: Option<Self>) -> (chosen: Self)
        ensures
            chosen == Self::given_or_unset(params),
    {
        match params {
            Some(given) => given,
            None => Self::new(),
        }
    }

    /// Parameters with nothing set.
    pub fn new() -> (params: Self)
        ensures
            params == Self::unset(),
    {
        MetricsParams {
            limit: None,
            offset: None,
            start_date: None,
            end_date: None,
            property_type: None,
            auto_paginate: false,
        }
    }

    /// Maximum number of results per page.
    pub fn limit(self, limit: u32) -> (params: Self)
        ensures
            params == (Self { limit: Some(limit), ..self }),
    {
        let mut params = self;
        params.limit = Some(limit);
        params
    }

    /// Offset for pagination.
    pub fn offset(self, offset: u32) -> (params: Self)
        ensures
            params == (Self { offset: Some(offset), ..self }),
    {
        let mut params = self;
        params.offset = Some(offset);
        params
    }

    /// Filter results starting from this date (YYYY-MM-DD).
    pub fn start_date(self, date: &str) -> (params: Self)
        ensures
            text_of(params.start_date) == Some(date@),
            params == (Self { start_date: params.start_date, ..self }),
    {
        let mut params = self;
        params.start_date = Some(String::from_str(date));
        params
    }

    /// Filter results ending at this date (YYYY-MM-DD).
    pub fn end_date(self, date: &str) -> (params: Self)
        ensures
            text_of(params.end_date) == Some(date@),
            params == (Self { end_date: params.end_date, ..self }),
    {
        let mut params = self;
        params.end_date = Some(String::from_str(date));
        params
    }

    /// Filter by property type.
    pub fn property_type(self, property_type: PropertyType) -> (params: Self)
        ensures
            params == (Self { property_type: Some(property_type), ..self }),
    {
        let mut params = self;
        params.property_type = Some(property_type);
        params
    }

    /// Automatically fetch all pages of results.
    pub fn auto_paginate(self, auto_paginate: bool) -> (params: Self)
        ensures
            params == (Self { auto_paginate, ..self }),
    {
        let mut params = self;
        params.auto_paginate = auto_paginate;
        params
    }

    /// The `key=value` pairs of the query, in order, one for each parameter
    /// that is set; `auto_paginate` is not part of the query.
    pub open spec fn query_parts(&self) -> Seq<Seq<char>> {
        Seq::<Seq<char>>::empty() + optional("limit"@, numeral_of_u32(self.limit)) + optional(
            "offset"@,
            numeral_of_u32(self.offset),
        ) + optional("start_date"@, text_of(self.start_date)) + optional(
            "end_date"@,
            text_of(self.end_date),
        ) + optional("property_type"@, property_type_name_of(self.property_type))
    }

    /// The query string: empty when nothing is set, otherwise `?` and the
    /// pairs of [`Self::query_parts`] joined with `&`.
    pub fn to_query_string(&self) -> (query: String)
        ensures
            query@ == query_string(self.query_parts()),
    {
        let mut parts = QueryParts::new();
        parts.push_opt_u32("limit", self.limit);
        parts.push_opt_u32("offset", self.offset);
        parts.push_opt_text("start_date", &self.start_date);
        parts.push_opt_text("end_date", &self.end_date);
        let filter: Option<&str> = match self.property_type {
            Some(value) => Some(value.as_str()),
            None => None,
        };
        parts.push_opt_str("property_type", filter);
        parts.finish()
    }

    /// The members of the body of a batch request for the markets
    /// `parcl_ids`: the market IDs, and one member for each parameter that
    /// is set.
    pub open spec fn batch_members(&self, parcl_ids: Seq<i64>) -> Map<Seq<char>, Member> {
        let ids = Map::<Seq<char>, Member>::empty().insert(
            "parcl_id"@,
            Member::IntegerList(integers(parcl_ids)),
        );
        let limit = put(ids, "limit"@, integer_member(self.limit));
        let offset = put(limit, "offset"@, integer_member(self.offset));
        let start = put(offset, "start_date"@, text_member(self.start_date));
        let end = put(start, "end_date"@, text_member(self.end_date));
        put(end, "property_type"@, property_type_member(self.property_type))
    }

    /// The JSON body of a batch request for the markets `parcl_ids`: an
    /// object with the members of [`Self::batch_members`].
    pub fn to_batch_body(&self, parcl_ids: &[i64]) -> (body: serde_json::Value)
        ensures
            object_members(body) == Some(self.batch_members(parcl_ids@)),
    {
        let mut body = empty_object();
        set_integer_list(&mut body, "parcl_id", parcl_ids);
        set_optional_u32(&mut body, "limit", self.limit);
        set_optional_u32(&mut body, "offset", self.offset);
        set_optional_text(&mut body, "start_date", &self.start_date);
        set_optional_text(&mut body, "end_date", &self.end_date);
        let filter: Option<&str> = match self.property_type {
            Some(value) => Some(value.as_str()),
            None => None,
        };
        set_optional_str(&mut body, "property_type", filter);
        body
    }

    /// The GET request for `resource` of the market `parcl_id` with these
    /// parameters.
    pub open spec fn market_request(
        &self,
        base: Seq<char>,
        group: Seq<char>,
        parcl_id: int,
        resource: Seq<char>,
    ) -> GetPlan {
        GetPlan {
            url: market_url(base, group, parcl_id, resource, query_string(self.query_parts())),
            auto_paginate: self.auto_paginate,
        }
    }

    /// The POST request for `resource` of the markets `parcl_ids` with
    /// these parameters.
    pub open spec fn batch_request(
        &self,
        base: Seq<char>,
        group: Seq<char>,
        resource: Seq<char>,
        parcl_ids: Seq<i64>,
    ) -> PostPlan {
        PostPlan {
            url: resource_url(base, group, resource),
            members: Some(self.batch_members(parcl_ids)),
            auto_paginate: self.auto_paginate,
        }
    }

    /// Works out the GET request for `resource` of the market `parcl_id`.
    pub fn get(&self, base: &str, group: &str, parcl_id: i64, resource: &str) -> (request: GetRequest)
        ensures
            request@ == self.market_request(base@, group@, parcl_id as int, resource@),
    {
        let query = self.to_query_string();
        GetRequest {
            url: build_market_url(base, group, parcl_id, resource, query.as_str()),
            auto_paginate: self.auto_paginate,
        }
    }

    /// Works out the POST request for `resource` of the markets `parcl_ids`.
    pub fn post(&self, base: &str, group: &str, resource: &str, parcl_ids: &[i64]) -> (request:
        PostRequest)
        ensures
            request@ == self.batch_request(base@, group@, resource@, parcl_ids@),
    {
        PostRequest {
            url: build_resource_url(base, group, resource),
            body: self.to_batch_body(parcl_ids),
            auto_paginate: self.auto_paginate,
        }
    }
}

/// Client for market metrics API endpoints: works out the request of each endpoint.
pub struct MarketMetricsClient<'a> {
    client: &'a ParclClient,
}

impl<'a> MarketMetricsClient<'a> {
    /// The session whose requests this client works out.
    pub closed spec fn session(&self) -> ParclClient {
        *self.client
    }

    /// A client for the session `client`.
    pub fn new(client: &'a ParclClient) -> (endpoints: Self)
        ensures
            endpoints.session() == *client,
    {
        MarketMetricsClient { client }
    }

    /// Housing event counts of a market.
    ///
    /// `GET /v1/market_metrics/{parcl_id}/housing_event_counts`
    pub fn housing_event_counts(&self, parcl_id: i64, params: Option<MetricsParams>) -> (request: GetRequest)
        ensures
            request@ == MetricsParams::given_or_unset(params).market_request(
                self.session().base_url@,
                "market_metrics"@,
                parcl_id as int,
                "housing_event_counts"@,
            ),
    {
        MetricsParams::given_or_new(params).get(
            self.client.base_url.as_str(),
            "market_metrics",
            parcl_id,
            "housing_event_counts",
        )
    }

    /// Housing stock of a market.
    ///
    /// `GET /v1/market_metrics/{parcl_id}/housing_stock`
    pub fn housing_stock(&self, parcl_id: i64, params: Option<MetricsParams>) -> (request: GetRequest)
        ensures
            request@ == MetricsParams::given_or_unset(params).market_request(
                self.session().base_url@,
                "market_metrics"@,
                parcl_id as int,
                "housing_stock"@,
            ),
    {
        MetricsParams::given_or_new(params).get(
            self.client.base_url.as_str(),
            "market_metrics",
            parcl_id,
            "housing_stock",
        )
    }

    /// Housing event prices of a market.
    ///
    /// `GET /v1/market_metrics/{parcl_id}/housing_event_prices`
    pub fn housing_event_prices(&self, parcl_id: i64, params: Option<MetricsParams>) -> (request: GetRequest)
        ensures
            request@ == MetricsParams::given_or_unset(params).market_request(
                self.session().base_url@,
                "market_metrics"@,
                parcl_id as int,
                "housing_event_prices"@,
            ),
    {
        MetricsParams::given_or_new(params).get(
            self.client.base_url.as_str(),
            "market_metrics",
            parcl_id,
            "housing_event_prices",
        )
    }

    /// All-cash transactions of a market.
    ///
    /// `GET /v1/market_metrics/{parcl_id}/all_cash`
    pub fn all_cash(&self, parcl_id: i64, params: Option<MetricsParams>) -> (request: GetRequest)
        ensures
            request@ == MetricsParams::given_or_unset(params).market_request(
                self.session().base_url@,
                "market_metrics"@,
                parcl_id as int,
                "all_cash"@,
            ),
    {
        MetricsParams::given_or_new(params).get(
            self.client.base_url.as_str(),
            "market_metrics",
            parcl_id,
            "all_cash",
        )
    }

    /// Attributes of the properties in the housing events of a market.
    ///
    /// `GET /v1/market_metrics/{parcl_id}/housing_event_property_attributes`
    pub fn housing_event_property_attributes(&self, parcl_id: i64, params: Option<MetricsParams>) -> (request: GetRequest)
        ensures
            request@ == MetricsParams::given_or_unset(params).market_request(
                self.session().base_url@,
                "market_metrics"@,
                parcl_id as int,
                "housing_event_property_attributes"@,
            ),
    {
        MetricsParams::given_or_new(params).get(
            self.client.base_url.as_str(),
            "market_metrics",
            parcl_id,
            "housing_event_property_attributes",
        )
    }
}

} // verus!
