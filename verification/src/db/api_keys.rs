//! Rules of the API-key table: which stored keys may be used, how a use is
//! rate limited, and what revoking a key reports.
use vstd::prelude::*;
use crate::error::AppError;
use crate::models::api_key::ApiKey;
use crate::rate_limit::{record_request, spec_admits, spec_after, RateWindow};

verus! {

/// Some stored key with this text may be used.
pub open spec fn any_usable(rows: Seq<ApiKey>) -> bool {
    exists|i: int| 0 <= i < rows.len() && #[trigger] rows[i].usable()
}

/// The first usable key among the rows stored under one key text.
pub fn first_usable(rows: &Vec<ApiKey>) -> (r: Option<usize>)
    ensures
        r is None <==> !any_usable(rows@),
        r matches Some(i) ==> i < rows@.len() && rows@[i as int].usable() && forall|j: int|
            0 <= j < i ==> !(#[trigger] rows@[j]).usable(),
{
    let mut i: usize = 0;
    while i < rows.len()
        invariant
            i <= rows@.len(),
            forall|j: int| 0 <= j < i ==> !(#[trigger] rows@[j]).usable(),
        decreases rows@.len() - i,
    {
        if rows[i].is_usable() {
            return Some(i);
        }
        i = i + 1;
    }
    None
}

/// Whether a key text is valid: some key stored under it is active and not
/// deleted.
pub fn key_is_valid(rows: &Vec<ApiKey>) -> (r: bool)
    ensures
        r == any_usable(rows@),
{
    first_usable(rows).is_some()
}

/// What the rate limiter makes of one use of a key text.
#[derive(Clone, Copy, Debug)]
pub enum RateLimitOutcome {
    /// No usable key is stored under the text.
    UnknownKey,
    /// The key's budget for the current minute is spent; nothing changes.
    Refused,
    /// The use is admitted; the key's counters become the given ones.
    Admitted(RateWindow),
}

/// Rate limits one use, at time `now`, of the key stored under a text: the
/// first usable key decides, by the rules of the rate limiter.
pub fn rate_limit_outcome(rows: &Vec<ApiKey>, now: i64) -> (r: RateLimitOutcome)
    ensures
        !any_usable(rows@) ==> r is UnknownKey,
        any_usable(rows@) ==> exists|i: int|
            0 <= i < rows@.len() && (#[trigger] rows@[i]).usable() && (forall|j: int|
                0 <= j < i ==> !(#[trigger] rows@[j]).usable()) && if spec_admits(
                rows@[i].spec_window(),
                now as int,
            ) {
                r == RateLimitOutcome::Admitted(spec_after(rows@[i].spec_window(), now))
            } else {
                r is Refused
            },
{
    match first_usable(rows) {
        None => RateLimitOutcome::UnknownKey,
        Some(i) => {
            let (admitted, after) = record_request(&rows[i].window(), now);
            if admitted {
                RateLimitOutcome::Admitted(after)
            } else {
                RateLimitOutcome::Refused
            }
        },
    }
}

/// The message of a missing API key.
pub open spec fn api_key_not_found_message() -> Seq<char> {
    "API key not found"@
}

/// The outcome of revoking a key, from the number of rows the store marked
/// as revoked.
pub fn revocation_outcome(rows_affected: u64) -> (r: Result<(), AppError>)
    ensures
        r is Ok <==> rows_affected != 0,
        r matches Err(e) ==> (e matches AppError::NotFound(m) && m@ == api_key_not_found_message()),
{
    if rows_affected == 0 {
        Err(AppError::NotFound(String::from_str("API key not found")))
    } else {
        Ok(())
    }
}

/// A revoked (deleted) or deactivated key is never admitted: when no key
/// stored under the text is usable, the limiter reports the key as unknown.
pub proof fn law_revoked_keys_are_never_admitted(rows: Seq<ApiKey>)
    requires
        forall|i: int| 0 <= i < rows.len() ==> (#[trigger] rows[i]).deleted_at is Some
            || !rows[i].is_active,
    ensures
        !any_usable(rows),
{
}

/// A key text is valid as soon as one key stored under it is active and not
/// deleted, whatever that key's other fields.
pub proof fn law_active_keys_are_valid(rows: Seq<ApiKey>, i: int)
    requires
        0 <= i < rows.len(),
        rows[i].is_active,
        rows[i].deleted_at is None,
    ensures
        any_usable(rows),
{
    assert(rows[i].usable());
}

} // verus!
