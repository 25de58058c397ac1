//! Requests as values: what is to be sent, worked out before anything is sent.

use vstd::prelude::*;
use vstd::string::StringExecFns;
use crate::json::{object_members, Member};
use crate::text::{decimal, push_decimal_i64};

verus! {

/// A GET request.
#[derive(Debug, Clone)]
pub struct GetRequest {
    /// The full address, query string included.
    pub url: String,
    /// Whether the pages after the first are to be fetched too.
    pub auto_paginate: bool,
}

/// A POST request with a JSON body.
#[derive(Debug)]
pub struct PostRequest {
    /// The full address.
    pub url: String,
    /// The body of the request.
    pub body: serde_json::Value,
    /// Whether the pages after the first are to be fetched too.
    pub auto_paginate: bool,
}

/// A GET request, its address as text.
pub struct GetPlan {
    pub url: Seq<char>,
    pub auto_paginate: bool,
}

/// A POST request, its address as text and its body by its members.
pub struct PostPlan {
    pub url: Seq<char>,
    pub members: Option<Map<Seq<char>, Member>>,
    pub auto_paginate: bool,
}

impl View for GetRequest {
    type V = GetPlan;

    open spec fn view(&self) -> GetPlan {
        GetPlan { url: self.url@, auto_paginate: self.auto_paginate }
    }
}

impl View for PostRequest {
    type V = PostPlan;

    open spec fn view(&self) -> PostPlan {
        PostPlan {
            url: self.url@,
            members: object_members(self.body),
            auto_paginate: self.auto_paginate,
        }
    }
}

/// The address of a resource of a group of endpoints:
/// `{base}/v1/{group}/{resource}`.
pub open spec fn resource_url(base: Seq<char>, group: Seq<char>, resource: Seq<char>) -> Seq<char> {
    base + "/v1/"@ + group + "/"@ + resource
}

/// The address of a resource of one market, with a query string:
/// `{base}/v1/{group}/{parcl_id}/{resource}{query}`.
pub open spec fn market_url(
    base: Seq<char>,
    group: Seq<char>,
    parcl_id: int,
    resource: Seq<char>,
    query: Seq<char>,
) -> Seq<char> {
    base + "/v1/"@ + group + "/"@ + decimal(parcl_id) + "/"@ + resource + query
}

/// Builds [`resource_url`].
pub fn build_resource_url(base: &str, group: &str, resource: &str) -> (url: String)
    ensures
        url@ == resource_url(base@, group@, resource@),
{
    let mut url = String::from_str(base);
    url.append("/v1/");
    url.append(group);
    url.append("/");
    url.append(resource);
    url
}

/// Builds [`market_url`].
pub fn build_market_url(base: &str, group: &str, parcl_id: i64, resource: &str, query: &str) -> (url:
    String)
    ensures
        url@ == market_url(base@, group@, parcl_id as int, resource@, query@),
{
    let mut url = String::from_str(base);
    url.append("/v1/");
    url.append(group);
    url.append("/");
    push_decimal_i64(&mut url, parcl_id);
    url.append("/");
    url.append(resource);
    url.append(query);
    url
}

} // verus!
