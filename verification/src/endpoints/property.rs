//! Parameters of the property endpoints: search filters and event-history requests.

use vstd::prelude::*;
use vstd::string::StringExecFns;
use crate::client::ParclClient;
use crate::filters::{EntityOwnerName, EventType, PropertyType};
use crate::json::{
    empty_object, integers, object_members, put, set_integer_list, set_optional_str,
    set_optional_text, text_member, Member,
};
use crate::query::{
    flag_of, numeral_of_i32, numeral_of_i64, numeral_of_u32, optional, pair, query_string, text_of,
    QueryParts,
};
use crate::request::{build_resource_url, resource_url, GetPlan, GetRequest, PostPlan, PostRequest};
use crate::text::decimal;

verus! {

/// The wire name of an optional owner filter.
pub open spec fn owner_name_of(value: Option<EntityOwnerName>) -> Option<Seq<char>> {
    match value {
        Some(name) => Some(name.name()),
        None => None,
    }
}

/// Query parameters for the `GET /v1/property/search` endpoint.
#[derive(Debug, Clone)]
pub struct PropertySearchParams {
    pub parcl_id: i64,
    pub property_type: PropertyType,
    pub limit: Option<u32>,
    pub offset: Option<u32>,
    pub square_footage_min: Option<i64>,
    pub square_footage_max: Option<i64>,
    pub bedrooms_min: Option<i32>,
    pub bedrooms_max: Option<i32>,
    pub bathrooms_min: Option<i32>,
    pub bathrooms_max: Option<i32>,
    pub year_built_min: Option<i32>,
    pub year_built_max: Option<i32>,
    pub current_entity_owner_name: Option<EntityOwnerName>,
    pub event_history_sale_flag: Option<bool>,
    pub event_history_rental_flag: Option<bool>,
    pub event_history_listing_flag: Option<bool>,
    pub current_new_construction_flag: Option<bool>,
    pub current_owner_occupied_flag: Option<bool>,
    pub current_investor_owned_flag: Option<bool>,
    pub current_on_market_flag: Option<bool>,
    pub current_on_market_rental_flag: Option<bool>,
    pub record_added_date_start: Option<String>,
    pub record_added_date_end: Option<String>,
}

impl PropertySearchParams {
    /// Create params with required fields.
    pub fn new(parcl_id: i64, property_type: PropertyType) -> (params: Self)
        ensures
            params.parcl_id == parcl_id,
            params.property_type == property_type,
            params.limit is None,
            params.offset is None,
            params.square_footage_min is None,
            params.square_footage_max is None,
            params.bedrooms_min is None,
            params.bedrooms_max is None,
            params.bathrooms_min is None,
            params.bathrooms_max is None,
            params.year_built_min is None,
            params.year_built_max is None,
            params.current_entity_owner_name is None,
            params.event_history_sale_flag is None,
            params.event_history_rental_flag is None,
            params.event_history_listing_flag is None,
            params.current_new_construction_flag is None,
            params.current_owner_occupied_flag is None,
            params.current_investor_owned_flag is None,
            params.current_on_market_flag is None,
            params.current_on_market_rental_flag is None,
            params.record_added_date_start is None,
            params.record_added_date_end is None,
    {
        PropertySearchParams {
            parcl_id,
            property_type,
            limit: None,
            offset: None,
            square_footage_min: None,
            square_footage_max: None,
            bedrooms_min: None,
            bedrooms_max: None,
            bathrooms_min: None,
            bathrooms_max: None,
            year_built_min: None,
            year_built_max: None,
            current_entity_owner_name: None,
            event_history_sale_flag: None,
            event_history_rental_flag: None,
            event_history_listing_flag: None,
            current_new_construction_flag: None,
            current_owner_occupied_flag: None,
            current_investor_owned_flag: None,
            current_on_market_flag: None,
            current_on_market_rental_flag: None,
            record_added_date_start: None,
            record_added_date_end: None,
        }
    }

    /// Maximum number of results per page.
    pub fn limit(self, limit: u32) -> (params: Self)
        ensures
            params == (Self { limit: Some(limit), ..self }),
    {
        let mut params = self;
        params.limit = Some(limit);
        params
    }

    /// Offset for pagination.
    pub fn offset(self, offset: u32) -> (params: Self)
        ensures
            params == (Self { offset: Some(offset), ..self }),
    {
        let mut params = self;
        params.offset = Some(offset);
        params
    }

    /// Sets the `square_footage_min` filter.
    pub fn square_footage_min(self, v: i64) -> (params: Self)
        ensures
            params == (Self { square_footage_min: Some(v), ..self }),
    {
        let mut params = self;
        params.square_footage_min = Some(v);
        params
    }

    /// Sets the `square_footage_max` filter.
    pub fn square_footage_max(self, v: i64) -> (params: Self)
        ensures
            params == (Self { square_footage_max: Some(v), ..self }),
    {
        let mut params = self;
        params.square_footage_max = Some(v);
        params
    }

    /// Sets the `bedrooms_min` filter.
    pub fn bedrooms_min(self, v: i32) -> (params: Self)
        ensures
            params == (Self { bedrooms_min: Some(v), ..self }),
    {
        let mut params = self;
        params.bedrooms_min = Some(v);
        params
    }

    /// Sets the `bedrooms_max` filter.
    pub fn bedrooms_max(self, v: i32) -> (params: Self)
        ensures
            params == (Self { bedrooms_max: Some(v), ..self }),
    {
        let mut params = self;
        params.bedrooms_max = Some(v);
        params
    }

    /// Sets the `bathrooms_min` filter.
    pub fn bathrooms_min(self, v: i32) -> (params: Self)
        ensures
            params == (Self { bathrooms_min: Some(v), ..self }),
    {
        let mut params = self;
        params.bathrooms_min = Some(v);
        params
    }

    /// Sets the `bathrooms_max` filter.
    pub fn bathrooms_max(self, v: i32) -> (params: Self)
        ensures
            params == (Self { bathrooms_max: Some(v), ..self }),
    {
        let mut params = self;
        params.bathrooms_max = Some(v);
        params
    }

    /// Sets the `year_built_min` filter.
    pub fn year_built_min(self, v: i32) -> (params: Self)
        ensures
            params == (Self { year_built_min: Some(v), ..self }),
    {
        let mut params = self;
        params.year_built_min = Some(v);
        params
    }

    /// Sets the `year_built_max` filter.
    pub fn year_built_max(self, v: i32) -> (params: Self)
        ensures
            params == (Self { year_built_max: Some(v), ..self }),
    {
        let mut params = self;
        params.year_built_max = Some(v);
        params
    }

    /// Sets the `current_entity_owner_name` filter.
    pub fn current_entity_owner_name(self, name: EntityOwnerName) -> (params: Self)
        ensures
            params == (Self { current_entity_owner_name: Some(name), ..self }),
    {
        let mut params = self;
        params.current_entity_owner_name = Some(name);
        params
    }

    /// Sets the `event_history_sale_flag` filter.
    pub fn event_history_sale_flag(self, v: bool) -> (params: Self)
        ensures
            params == (Self { event_history_sale_flag: Some(v), ..self }),
    {
        let mut params = self;
        params.event_history_sale_flag = Some(v);
        params
    }

    /// Sets the `event_history_rental_flag` filter.
    pub fn event_history_rental_flag(self, v: bool) -> (params: Self)
        ensures
            params == (Self { event_history_rental_flag: Some(v), ..self }),
    {
        let mut params = self;
        params.event_history_rental_flag = Some(v);
        params
    }

    /// Sets the `event_history_listing_flag` filter.
    pub fn event_history_listing_flag(self, v: bool) -> (params: Self)
        ensures
            params == (Self { event_history_listing_flag: Some(v), ..self }),
    {
        let mut params = self;
        params.event_history_listing_flag = Some(v);
        params
    }

    /// Sets the `current_new_construction_flag` filter.
    pub fn current_new_construction_flag(self, v: bool) -> (params: Self)
        ensures
            params == (Self { current_new_construction_flag: Some(v), ..self }),
    {
        let mut params = self;
        params.current_new_construction_flag = Some(v);
        params
    }

    /// Sets the `current_owner_occupied_flag` filter.
    pub fn current_owner_occupied_flag(self, v: bool) -> (params: Self)
        ensures
            params == (Self { current_owner_occupied_flag: Some(v), ..self }),
    {
        let mut params = self;
        params.current_owner_occupied_flag = Some(v);
        params
    }

    /// Sets the `current_investor_owned_flag` filter.
    pub fn current_investor_owned_flag(self, v: bool) -> (params: Self)
        ensures
            params == (Self { current_investor_owned_flag: Some(v), ..self }),
    {
        let mut params = self;
        params.current_investor_owned_flag = Some(v);
        params
    }

    /// Sets the `current_on_market_flag` filter.
    pub fn current_on_market_flag(self, v: bool) -> (params: Self)
        ensures
            params == (Self { current_on_market_flag: Some(v), ..self }),
    {
        let mut params = self;
        params.current_on_market_flag = Some(v);
        params
    }

    /// Sets the `current_on_market_rental_flag` filter.
    pub fn current_on_market_rental_flag(self, v: bool) -> (params: Self)
        ensures
            params == (Self { current_on_market_rental_flag: Some(v), ..self }),
    {
        let mut params = self;
        params.current_on_market_rental_flag = Some(v);
        params
    }

    /// Sets the `record_added_date_start` filter.
    pub fn record_added_date_start(self, date: &str) -> (params: Self)
        ensures
            text_of(params.record_added_date_start) == Some(date@),
            params == (Self { record_added_date_start: params.record_added_date_start, ..self }),
    {
        let mut params = self;
        params.record_added_date_start = Some(String::from_str(date));
        params
    }

    /// Sets the `record_added_date_end` filter.
    pub fn record_added_date_end(self, date: &str) -> (params: Self)
        ensures
            text_of(params.record_added_date_end) == Some(date@),
            params == (Self { record_added_date_end: params.record_added_date_end, ..self }),
    {
        let mut params = self;
        params.record_added_date_end = Some(String::from_str(date));
        params
    }

    /// The `key=value` pairs of the query, in order: the two required ones,
    /// then one for each filter that is set.
    pub open spec fn query_parts(&self) -> Seq<Seq<char>> {
        seq![
            pair("parcl_id"@, decimal(self.parcl_id as int)),
            pair("property_type"@, self.property_type.name()),
        ]
            + optional("limit"@, numeral_of_u32(self.limit))
            + optional("offset"@, numeral_of_u32(self.offset))
            + optional("square_footage_min"@, numeral_of_i64(self.square_footage_min))
            + optional("square_footage_max"@, numeral_of_i64(self.square_footage_max))
            + optional("bedrooms_min"@, numeral_of_i32(self.bedrooms_min))
            + optional("bedrooms_max"@, numeral_of_i32(self.bedrooms_max))
            + optional("bathrooms_min"@, numeral_of_i32(self.bathrooms_min))
            + optional("bathrooms_max"@, numeral_of_i32(self.bathrooms_max))
            + optional("year_built_min"@, numeral_of_i32(self.year_built_min))
            + optional("year_built_max"@, numeral_of_i32(self.year_built_max))
            + optional("current_entity_owner_name"@, owner_name_of(self.current_entity_owner_name))
            + optional("event_history_sale_flag"@, flag_of(self.event_history_sale_flag))
            + optional("event_history_rental_flag"@, flag_of(self.event_history_rental_flag))
            + optional("event_history_listing_flag"@, flag_of(self.event_history_listing_flag))
            + optional("current_new_construction_flag"@, flag_of(self.current_new_construction_flag))
            + optional("current_owner_occupied_flag"@, flag_of(self.current_owner_occupied_flag))
            + optional("current_investor_owned_flag"@, flag_of(self.current_investor_owned_flag))
            + optional("current_on_market_flag"@, flag_of(self.current_on_market_flag))
            + optional("current_on_market_rental_flag"@, flag_of(self.current_on_market_rental_flag))
            + optional("record_added_date_start"@, text_of(self.record_added_date_start))
            + optional("record_added_date_end"@, text_of(self.record_added_date_end))
    }

    /// The query string of the search: `?` and the pairs of
    /// [`Self::query_parts`] joined with `&`.
    pub fn to_query_string(&self) -> (query: String)
        ensures
            query@ == query_string(self.query_parts()),
    {
        let mut parts = QueryParts::new();
        parts.push_i64("parcl_id", self.parcl_id);
        parts.push_text("property_type", self.property_type.as_str());
        assert(parts@ =~= seq![
            pair("parcl_id"@, decimal(self.parcl_id as int)),
            pair("property_type"@, self.property_type.name()),
        ]);
        parts.push_opt_u32("limit", self.limit);
        parts.push_opt_u32("offset", self.offset);
        parts.push_opt_i64("square_footage_min", self.square_footage_min);
        parts.push_opt_i64("square_footage_max", self.square_footage_max);
        parts.push_opt_i32("bedrooms_min", self.bedrooms_min);
        parts.push_opt_i32("bedrooms_max", self.bedrooms_max);
        parts.push_opt_i32("bathrooms_min", self.bathrooms_min);
        parts.push_opt_i32("bathrooms_max", self.bathrooms_max);
        parts.push_opt_i32("year_built_min", self.year_built_min);
        parts.push_opt_i32("year_built_max", self.year_built_max);
        let owner: Option<&str> = match self.current_entity_owner_name {
            Some(name) => Some(name.as_str()),
            None => None,
        };
        parts.push_opt_str("current_entity_owner_name", owner);
        parts.push_opt_flag("event_history_sale_flag", self.event_history_sale_flag);
        parts.push_opt_flag("event_history_rental_flag", self.event_history_rental_flag);
        parts.push_opt_flag("event_history_listing_flag", self.event_history_listing_flag);
        parts.push_opt_flag("current_new_construction_flag", self.current_new_construction_flag);
        parts.push_opt_flag("current_owner_occupied_flag", self.current_owner_occupied_flag);
        parts.push_opt_flag("current_investor_owned_flag", self.current_investor_owned_flag);
        parts.push_opt_flag("current_on_market_flag", self.current_on_market_flag);
        parts.push_opt_flag("current_on_market_rental_flag", self.current_on_market_rental_flag);
        parts.push_opt_text("record_added_date_start", &self.record_added_date_start);
        parts.push_opt_text("record_added_date_end", &self.record_added_date_end);
        parts.finish()
    }
}

/// Builder for `POST /v1/property/event_history` request parameters.
#[derive(Debug, Clone)]
pub struct EventHistoryParams {
    pub parcl_property_ids: Vec<i64>,
    pub event_type: Option<EventType>,
    pub start_date: Option<String>,
    pub end_date: Option<String>,
    pub entity_owner_name: Option<EntityOwnerName>,
    pub record_updated_date_start: Option<String>,
    pub record_updated_date_end: Option<String>,
}

/// The wire name of an optional event-type filter, as a body member.
pub open spec fn event_member(value: Option<EventType>) -> Option<Member> {
    match value {
        Some(event) => Some(Member::Text(event.name())),
        None => None,
    }
}

/// The wire name of an optional owner filter, as a body member.
pub open spec fn owner_member(value: Option<EntityOwnerName>) -> Option<Member> {
    match value {
        Some(name) => Some(Member::Text(name.name())),
        None => None,
    }
}

impl EventHistoryParams {
    /// Create params with required property IDs (max 1000).
    pub fn new(parcl_property_ids: Vec<i64>) -> (params: Self)
        ensures
            params.parcl_property_ids == parcl_property_ids,
            params.event_type is None,
            params.start_date is None,
            params.end_date is None,
            params.entity_owner_name is None,
            params.record_updated_date_start is None,
            params.record_updated_date_end is None,
    {
        EventHistoryParams {
            parcl_property_ids,
            event_type: None,
            start_date: None,
            end_date: None,
            entity_owner_name: None,
            record_updated_date_start: None,
            record_updated_date_end: None,
        }
    }

    /// Restricts the history to one type of event.
    pub fn event_type(self, event_type: EventType) -> (params: Self)
        ensures
            params == (Self { event_type: Some(event_type), ..self }),
    {
        let mut params = self;
        params.event_type = Some(event_type);
        params
    }

    /// Filter events starting from this date (YYYY-MM-DD).
    pub fn start_date(self, date: &str) -> (params: Self)
        ensures
            text_of(params.start_date) == Some(date@),
            params == (Self { start_date: params.start_date, ..self }),
    {
        let mut params = self;
        params.start_date = Some(String::from_str(date));
        params
    }

    /// Filter events ending at this date (YYYY-MM-DD).
    pub fn end_date(self, date: &str) -> (params: Self)
        ensures
            text_of(params.end_date) == Some(date@),
            params == (Self { end_date: params.end_date, ..self }),
    {
        let mut params = self;
        params.end_date = Some(String::from_str(date));
        params
    }

    /// Restricts the history to events of one owner.
    pub fn entity_owner_name(self, name: EntityOwnerName) -> (params: Self)
        ensures
            params == (Self { entity_owner_name: Some(name), ..self }),
    {
        let mut params = self;
        params.entity_owner_name = Some(name);
        params
    }

    /// Filter records updated from this date (YYYY-MM-DD).
    pub fn record_updated_date_start(self, date: &str) -> (params: Self)
        ensures
            text_of(params.record_updated_date_start) == Some(date@),
            params == (Self { record_updated_date_start: params.record_updated_date_start, ..self }),
    {
        let mut params = self;
        params.record_updated_date_start = Some(String::from_str(date));
        params
    }

    /// Filter records updated up to this date (YYYY-MM-DD).
    pub fn record_updated_date_end(self, date: &str) -> (params: Self)
        ensures
            text_of(params.record_updated_date_end) == Some(date@),
            params == (Self { record_updated_date_end: params.record_updated_date_end, ..self }),
    {
        let mut params = self;
        params.record_updated_date_end = Some(String::from_str(date));
        params
    }

    /// The members of the request body: the property IDs, and one member for
    /// each filter that is set.
    pub open spec fn body_members(&self) -> Map<Seq<char>, Member> {
        let ids = Map::<Seq<char>, Member>::empty().insert(
            "parcl_property_id"@,
            Member::IntegerList(integers(self.parcl_property_ids@)),
        );
        let event = put(ids, "event_type"@, event_member(self.event_type));
        let start = put(event, "start_date"@, text_member(self.start_date));
        let end = put(start, "end_date"@, text_member(self.end_date));
        let owner = put(end, "entity_owner_name"@, owner_member(self.entity_owner_name));
        let updated_from = put(
            owner,
            "record_updated_date_start"@,
            text_member(self.record_updated_date_start),
        );
        put(updated_from, "record_updated_date_end"@, text_member(self.record_updated_date_end))
    }

    /// The JSON body of the request: an object with the members of
    /// [`Self::body_members`].
    pub fn to_request_body(&self) -> (body: serde_json::Value)
        ensures
            object_members(body) == Some(self.body_members()),
    {
        let mut body = empty_object();
        set_integer_list(&mut body, "parcl_property_id", self.parcl_property_ids.as_slice());
        let event: Option<&str> = match self.event_type {
            Some(event) => Some(event.as_str()),
            None => None,
        };
        set_optional_str(&mut body, "event_type", event);
        set_optional_text(&mut body, "start_date", &self.start_date);
        set_optional_text(&mut body, "end_date", &self.end_date);
        let owner: Option<&str> = match self.entity_owner_name {
            Some(name) => Some(name.as_str()),
            None => None,
        };
        set_optional_str(&mut body, "entity_owner_name", owner);
        set_optional_text(&mut body, "record_updated_date_start", &self.record_updated_date_start);
        set_optional_text(&mut body, "record_updated_date_end", &self.record_updated_date_end);
        body
    }
}

/// Client for property API endpoints: works out the request of each endpoint.
pub struct PropertyClient<'a> {
    client: &'a ParclClient,
}

impl<'a> PropertyClient<'a> {
    /// The session whose requests this client works out.
    pub closed spec fn session(&self) -> ParclClient {
        *self.client
    }

    /// A client for the session `client`.
    pub fn new(client: &'a ParclClient) -> (endpoints: Self)
        ensures
            endpoints.session() == *client,
    {
        PropertyClient { client }
    }

    /// Search properties in a market by filters. The answer is a single
    /// page.
    ///
    /// `GET /v1/property/search`
    pub fn search(&self, params: PropertySearchParams) -> (request: GetRequest)
        ensures
            request@ == (GetPlan {
                url: resource_url(self.session().base_url@, "property"@, "search"@) + query_string(
                    params.query_parts(),
                ),
                auto_paginate: false,
            }),
    {
        let mut url = build_resource_url(self.client.base_url.as_str(), "property", "search");
        let query = params.to_query_string();
        url.append(query.as_str());
        GetRequest { url, auto_paginate: false }
    }

    /// The address to which a look-up of property IDs by street address
    /// is posted; the body is the list of addresses.
    ///
    /// `POST /v1/property/search_address`
    pub fn search_by_address(&self) -> (url: String)
        ensures
            url@ == resource_url(self.session().base_url@, "property"@, "search_address"@),
    {
        build_resource_url(self.client.base_url.as_str(), "property", "search_address")
    }

    /// Get event history for a list of property IDs. The answer is a
    /// single page.
    ///
    /// `POST /v1/property/event_history`
    pub fn event_history(&self, params: EventHistoryParams) -> (request: PostRequest)
        ensures
            request@ == (PostPlan {
                url: resource_url(self.session().base_url@, "property"@, "event_history"@),
                members: Some(params.body_members()),
                auto_paginate: false,
            }),
    {
        PostRequest {
            url: build_resource_url(self.client.base_url.as_str(), "property", "event_history"),
            body: params.to_request_body(),
            auto_paginate: false,
        }
    }

    /// The query of an advanced property search: the page size and the
    /// offset, where they are given.
    pub open spec fn search_v2_query(limit: Option<u32>, offset: Option<u32>) -> Seq<char> {
        query_string(
            Seq::<Seq<char>>::empty() + optional("limit"@, numeral_of_u32(limit)) + optional(
                "offset"@,
                numeral_of_u32(offset),
            ),
        )
    }

    /// The address to which an advanced property search with nested
    /// filters is posted; the body is the search request.
    ///
    /// `POST /v2/property_search`
    pub fn search_v2(&self, limit: Option<u32>, offset: Option<u32>) -> (url: String)
        ensures
            url@ == self.session().base_url@ + "/v2/property_search"@ + Self::search_v2_query(
                limit,
                offset,
            ),
    {
        let mut parts = QueryParts::new();
        parts.push_opt_u32("limit", limit);
        parts.push_opt_u32("offset", offset);
        let query = parts.finish();
        let mut url = self.client.base_url.clone();
        url.append("/v2/property_search");
        url.append(query.as_str());
        url
    }
}

} // verus!
