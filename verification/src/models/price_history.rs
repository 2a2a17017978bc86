//! Price records of nodes at cloud providers, as far as their bookkeeping rules
//! read them, and the rules of a new price record.
use vstd::prelude::*;
use crate::validation::{
    add_violation, check_length, no_params, finish, length_ok, unless, violation_with, FieldViolation,
    ValidationErrors, ViolationView,
};

verus! {

/// When and where a price was recorded: the node, the provider, and the time
/// of the fetch in whole seconds since the Unix epoch.
#[derive(Clone, Debug)]
pub struct PriceStamp {
    pub node_id: i64,
    pub provider: String,
    pub fetched_at: i64,
}

/// A price stamp as a mathematical value.
pub struct PriceStampView {
    pub node_id: i64,
    pub provider: Seq<char>,
    pub fetched_at: i64,
}

impl View for PriceStamp {
    type V = PriceStampView;

    open spec fn view(&self) -> PriceStampView {
        PriceStampView { node_id: self.node_id, provider: self.provider@, fetched_at: self.fetched_at }
    }
}

/// A list of price stamps as mathematical values.
pub open spec fn stamps_view(rows: Seq<PriceStamp>) -> Seq<PriceStampView> {
    rows.map_values(|p: PriceStamp| p@)
}

/// The rule violations of a new price record: the provider must not be empty,
/// the hourly price must not be negative (`price_is_non_negative` says whether
/// it is), and the currency must have exactly three characters.
pub open spec fn price_request_violations(
    provider: Seq<char>,
    price_is_non_negative: bool,
    currency: Seq<char>,
) -> Seq<ViolationView> {
    unless(
        length_ok(provider.len() as int, Some(1), None, None),
        violation_with("provider"@, "length"@, "provider cannot be empty"@),
    ) + unless(
        price_is_non_negative,
        violation_with("price_per_hour"@, "range"@, "price must be non-negative"@),
    ) + unless(
        length_ok(currency.len() as int, None, None, Some(3)),
        violation_with("currency"@, "length"@, "currency must be 3 characters"@),
    )
}

/// Checks the fields of a new price record.
pub fn validate_price_request(provider: &str, price_is_non_negative: bool, currency: &str) -> (r:
    Result<(), ValidationErrors>)
    ensures
        r is Ok <==> price_request_violations(provider@, price_is_non_negative, currency@).len()
            == 0,
        r matches Err(e) ==> e@ == price_request_violations(
            provider@,
            price_is_non_negative,
            currency@,
        ),
{
    let mut list: Vec<FieldViolation> = Vec::new();
    if !check_length(provider, Some(1), None, None) {
        add_violation(&mut list, "provider", "length", Some("provider cannot be empty"), no_params());
    }
    if !price_is_non_negative {
        add_violation(&mut list, "price_per_hour", "range", Some("price must be non-negative"), no_params());
    }
    if !check_length(currency, None, None, Some(3)) {
        add_violation(&mut list, "currency", "length", Some("currency must be 3 characters"), no_params());
    }
    assert(list@.map_values(|v: FieldViolation| v@) =~= price_request_violations(
        provider@,
        price_is_non_negative,
        currency@,
    ));
    finish(list)
}

/// A new price record is valid exactly when its provider is not empty, its
/// price is not negative and its currency has three characters.
pub proof fn law_price_body_rules(provider: Seq<char>, price_is_non_negative: bool, currency: Seq<char>)
    ensures
        price_request_violations(provider, price_is_non_negative, currency).len() == 0 <==> (
        provider.len() >= 1 && price_is_non_negative && currency.len() == 3),
{
}

} // verus!
