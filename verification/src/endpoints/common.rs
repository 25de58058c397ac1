//! Pieces shared by the parameter types of the metrics endpoints.

use vstd::prelude::*;
use crate::filters::{PortfolioSize, PropertyType};
use crate::json::Member;

verus! {

/// The wire name of an optional property type.
pub open spec fn property_type_name_of(value: Option<PropertyType>) -> Option<Seq<char>> {
    match value {
        Some(v) => Some(v.name()),
        None => None,
    }
}

/// The wire name of an optional portfolio size.
pub open spec fn portfolio_size_name_of(value: Option<PortfolioSize>) -> Option<Seq<char>> {
    match value {
        Some(v) => Some(v.name()),
        None => None,
    }
}

/// The wire name of an optional property type, as a body member.
pub open spec fn property_type_member(value: Option<PropertyType>) -> Option<Member> {
    match value {
        Some(v) => Some(Member::Text(v.name())),
        None => None,
    }
}

/// The wire name of an optional portfolio size, as a body member.
pub open spec fn portfolio_size_member(value: Option<PortfolioSize>) -> Option<Member> {
    match value {
        Some(v) => Some(Member::Text(v.name())),
        None => None,
    }
}

} // verus!
