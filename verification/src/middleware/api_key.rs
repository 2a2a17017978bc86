//! Admission of requests by API key.
//!
//! Every request must carry a valid key in the `X-API-Key` header, except the
//! requests that manage keys (under `/api-keys`). A missing or invalid key is
//! answered with 401, a spent budget with 429; otherwise the key's counters
//! are updated and the request goes on.
use vstd::prelude::*;
use crate::db::api_keys::{any_usable, rate_limit_outcome, RateLimitOutcome};
use crate::models::api_key::ApiKey;
use crate::rate_limit::{spec_admits, spec_after, RateWindow};
use crate::text::{spec_starts_with, starts_with_text, str_eq};

verus! {

/// The header that carries the API key.
pub fn api_key_header() -> (h: &'static str)
    ensures
        h@ == "X-API-Key"@,
{
    "X-API-Key"
}

/// A refusal: the HTTP status and the message of the response.
#[derive(Clone, Copy, Debug)]
pub struct Rejection {
    pub status: u16,
    pub message: &'static str,
}

/// What to do with a request before its key has been looked up.
#[derive(Clone, Debug)]
pub enum Gate {
    /// The request needs no key.
    Pass,
    /// The request is refused.
    Reject(Rejection),
    /// Look up the stored keys with this text.
    Lookup(String),
}

/// What to do with a request once its key has been looked up.
#[derive(Clone, Copy, Debug)]
pub enum Admission {
    Reject(Rejection),
    /// Store the key's new counters, then serve the request.
    Admit(RateWindow),
}

/// Requests under `/api-keys` manage keys and need none.
pub open spec fn needs_key(path: Seq<char>) -> bool {
    !(path == "/api-keys"@ || spec_starts_with(path, "/api-keys/"@))
}

/// A refusal with the given status and message.
pub open spec fn is_rejection(r: Rejection, status: u16, message: Seq<char>) -> bool {
    r.status == status && r.message@ == message
}

/// The first decision on a request: the path, and the text of the key header
/// when the request has one that is readable text.
pub fn gate_request(path: &str, api_key: Option<String>) -> (g: Gate)
    ensures
        !needs_key(path@) ==> g is Pass,
        needs_key(path@) && api_key is None ==> (g matches Gate::Reject(r) && is_rejection(
            r,
            401,
            "Missing API key"@,
        )),
        needs_key(path@) && api_key is Some ==> (g matches Gate::Lookup(k) && k@
            == api_key->0@),
{
    if str_eq(path, "/api-keys") || starts_with_text(path, "/api-keys/") {
        return Gate::Pass;
    }
    match api_key {
        None => Gate::Reject(Rejection { status: 401, message: "Missing API key" }),
        Some(k) => Gate::Lookup(k),
    }
}

/// The decision on a request once the keys stored under its key text are
/// known, at time `now`: unknown or revoked keys are refused with 401, a spent
/// budget with 429, and otherwise the request is admitted with the key's new
/// counters.
pub fn admit_request(rows: &Vec<ApiKey>, now: i64) -> (a: Admission)
    ensures
        !any_usable(rows@) ==> (a matches Admission::Reject(r) && is_rejection(
            r,
            401,
            "Invalid API key"@,
        )),
        any_usable(rows@) ==> exists|i: int|
            0 <= i < rows@.len() && (#[trigger] rows@[i]).usable() && (forall|j: int|
                0 <= j < i ==> !(#[trigger] rows@[j]).usable()) && if spec_admits(
                rows@[i].spec_window(),
                now as int,
            ) {
                a == Admission::Admit(spec_after(rows@[i].spec_window(), now))
            } else {
                a matches Admission::Reject(r) && is_rejection(r, 429, "Rate limit exceeded"@)
            },
{
    match rate_limit_outcome(rows, now) {
        RateLimitOutcome::UnknownKey => Admission::Reject(
            Rejection { status: 401, message: "Invalid API key" },
        ),
        RateLimitOutcome::Refused => Admission::Reject(
            Rejection { status: 429, message: "Rate limit exceeded" },
        ),
        RateLimitOutcome::Admitted(w) => Admission::Admit(w),
    }
}

/// Every path outside the key-management paths needs a key: a path needs none
/// exactly when it is `/api-keys` or lies under `/api-keys/`; in particular
/// a path that does not begin with `/api-keys` always needs one.
pub proof fn law_only_key_management_needs_no_key(path: Seq<char>)
    ensures
        !needs_key(path) <==> (path == "/api-keys"@ || (path.len() >= 10 && path.subrange(0, 10)
            == "/api-keys/"@)),
        !(path.len() >= 9 && path.subrange(0, 9) == "/api-keys"@) ==> needs_key(path),
{
    reveal_strlit("/api-keys");
    reveal_strlit("/api-keys/");
    if !(path.len() >= 9 && path.subrange(0, 9) == "/api-keys"@) {
        if path.len() >= 10 && path.subrange(0, 10) == "/api-keys/"@ {
            assert(path.subrange(0, 9) =~= path.subrange(0, 10).subrange(0, 9));
            assert("/api-keys/"@.subrange(0, 9) =~= "/api-keys"@);
        }
        if path == "/api-keys"@ {
            assert(path.subrange(0, 9) =~= path);
        }
    }
}

} // verus!
