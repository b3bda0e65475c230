//! What each inference provider can execute directly.

use vstd::prelude::*;

use crate::text::{has_prefix, starts_with};

verus! {

/// Models served by the span-query REST API.
pub open spec fn spec_supports_spans(model: Seq<char>) -> bool {
    has_prefix(model, "spnl/"@)
}

/// Models whose provider accepts a generation count `n`.
pub open spec fn spec_supports_bulk_repeat(model: Seq<char>) -> bool {
    has_prefix(model, "openai/"@)
}

/// Models whose provider accepts a list of prompts in one request.
pub open spec fn spec_supports_bulk_map(model: Seq<char>) -> bool {
    !has_prefix(model, "disable_bulk_map/"@)
}

/// Does the given provider support the spnl REST API?
pub fn supports_spans(provider_slash_model: &str) -> (r: bool)
    ensures
        r == spec_supports_spans(provider_slash_model@),
{
    starts_with(provider_slash_model, "spnl/")
}

/// Does the given provider support the bulk-repeat API (generate with `n`)?
pub fn supports_bulk_repeat(provider_slash_model: &str) -> (r: bool)
    ensures
        r == spec_supports_bulk_repeat(provider_slash_model@),
{
    starts_with(provider_slash_model, "openai/")
}

/// Does the given provider support the bulk-map API (one request, many prompts)?
/// Every provider does, except the test provider `disable_bulk_map/`.
pub fn supports_bulk_map(provider_slash_model: &str) -> (r: bool)
    ensures
        r == spec_supports_bulk_map(provider_slash_model@),
{
    !starts_with(provider_slash_model, "disable_bulk_map/")
}

} // verus!
