//! API keys: stored records, creation requests and responses.
use vstd::prelude::*;
use crate::rate_limit::RateWindow;
use crate::validation::{
    add_violation, check_length, check_range, finish, length_ok, length_params, length_rule_params,
    range_ok, range_params, range_rule_params, unless, violation, FieldViolation, ValidationErrors,
    ViolationView,
};

verus! {

/// Requests per minute granted to a key whose creation request names no budget.
pub const DEFAULT_REQUESTS_PER_MINUTE: i32 = 60;

/// A stored API key. Times are whole seconds since the Unix epoch.
#[derive(Clone, Debug)]
pub struct ApiKey {
    pub id: i64,
    pub key: String,
    pub name: String,
    pub created_at: i64,
    pub last_used_at: Option<i64>,
    pub is_active: bool,
    pub deleted_at: Option<i64>,
    pub requests_per_minute: i32,
    pub requests_this_minute: i32,
    pub last_request_time: Option<i64>,
}

impl ApiKey {
    /// A key may be used: it is active and has not been deleted.
    pub open spec fn usable(&self) -> bool {
        self.is_active && self.deleted_at is None
    }

    /// The rate-limit counters of the key.
    pub open spec fn spec_window(&self) -> RateWindow {
        RateWindow {
            requests_per_minute: self.requests_per_minute,
            requests_this_minute: self.requests_this_minute,
            last_request_time: self.last_request_time,
        }
    }

    /// Whether the key may be used.
    pub fn is_usable(&self) -> (r: bool)
        ensures
            r == self.usable(),
    {
        self.is_active && self.deleted_at.is_none()
    }

    /// The rate-limit counters of the key.
    pub fn window(&self) -> (w: RateWindow)
        ensures
            w == self.spec_window(),
    {
        RateWindow {
            requests_per_minute: self.requests_per_minute,
            requests_this_minute: self.requests_this_minute,
            last_request_time: self.last_request_time,
        }
    }
}

/// The body of a request that creates an API key.
#[derive(Clone, Debug)]
pub struct CreateApiKeyRequest {
    pub name: String,
    pub requests_per_minute: Option<i32>,
}

impl CreateApiKeyRequest {
    /// The rule violations of the body: the name must have 1 to 100
    /// characters, and a budget, when given, must lie in 1..=1000.
    pub open spec fn violations(&self) -> Seq<ViolationView> {
        unless(
            length_ok(self.name@.len() as int, Some(1), Some(100), None),
            violation("name"@, "length"@, length_params(Some(1), Some(100), self.name@)),
        ) + unless(
            range_ok(self.requests_per_minute, Some(1), Some(1000)),
            violation(
                "requests_per_minute"@,
                "range"@,
                range_params(Some(1), Some(1000), self.requests_per_minute->0 as int),
            ),
        )
    }

    /// The budget the key will get: the one requested, or the default.
    pub open spec fn granted_budget(&self) -> i32 {
        match self.requests_per_minute {
            Some(n) => n,
            None => DEFAULT_REQUESTS_PER_MINUTE,
        }
    }

    /// Checks the body against its field rules.
    pub fn validate(&self) -> (r: Result<(), ValidationErrors>)
        ensures
            r is Ok <==> self.violations().len() == 0,
            r matches Err(e) ==> e@ == self.violations(),
    {
        let mut list: Vec<FieldViolation> = Vec::new();
        if !check_length(self.name.as_str(), Some(1), Some(100), None) {
            add_violation(
                &mut list,
                "name",
                "length",
                None,
                length_rule_params(Some(1), Some(100), self.name.as_str()),
            );
        }
        if !check_range(self.requests_per_minute, Some(1), Some(1000)) {
            if let Some(v) = self.requests_per_minute {
                add_violation(
                    &mut list,
                    "requests_per_minute",
                    "range",
                    None,
                    range_rule_params(Some(1), Some(1000), v),
                );
            }
        }
        assert(list@.map_values(|v: FieldViolation| v@) =~= self.violations());
        finish(list)
    }
}

/// What the service answers when it has created a key.
#[derive(Clone, Debug)]
pub struct CreateApiKeyResponse {
    pub id: i64,
    pub key: String,
    pub name: String,
    pub requests_per_minute: i32,
}

impl CreateApiKeyResponse {
    /// The response for a stored key.
    pub fn from_api_key(k: &ApiKey) -> (r: CreateApiKeyResponse)
        ensures
            r.id == k.id,
            r.key@ == k.key@,
            r.name@ == k.name@,
            r.requests_per_minute == k.requests_per_minute,
    {
        CreateApiKeyResponse {
            id: k.id,
            key: k.key.clone(),
            name: k.name.clone(),
            requests_per_minute: k.requests_per_minute,
        }
    }
}

/// The values of a key about to be stored.
#[derive(Clone, Debug)]
pub struct NewApiKey {
    pub key: String,
    pub name: String,
    pub requests_per_minute: i32,
}

/// A lower-case hexadecimal digit.
pub open spec fn is_lower_hex(c: char) -> bool {
    ('0' <= c && c <= '9') || ('a' <= c && c <= 'f')
}

/// The text of a random (version 4) UUID in hyphenated lower-case form, such
/// as `67e55044-10b1-426f-9247-bb680e5fe0c8`.
pub open spec fn is_key_text(s: Seq<char>) -> bool {
    &&& s.len() == 36
    &&& forall|i: int|
        0 <= i < 36 ==> if i == 8 || i == 13 || i == 18 || i == 23 {
            #[trigger] s[i] == '-'
        } else {
            is_lower_hex(s[i])
        }
    &&& s[14] == '4'
    &&& (s[19] == '8' || s[19] == '9' || s[19] == 'a' || s[19] == 'b')
}

/// A fresh key: the text of `uuid::Uuid::new_v4()`. The crate draws 128
/// random bits, sets the version nibble to 4 and the variant bits to `10`, and
/// displays the value hyphenated in lower case. Which value comes out is left
/// to chance; only its form is stated.
#[verifier::external_body]
fn random_key_text() -> (k: String)
    ensures
        is_key_text(k@),
{
    uuid::Uuid::new_v4().to_string()
}

/// Prepares a key for storage: a fresh random key text, the requested name,
/// and the requested budget or the default one.
pub fn prepare_api_key(request: &CreateApiKeyRequest) -> (n: NewApiKey)
    ensures
        is_key_text(n.key@),
        n.name@ == request.name@,
        n.requests_per_minute == request.granted_budget(),
{
    let requests_per_minute = match request.requests_per_minute {
        Some(r) => r,
        None => DEFAULT_REQUESTS_PER_MINUTE,
    };
    NewApiKey { key: random_key_text(), name: request.name.clone(), requests_per_minute }
}

/// A generated key is never empty.
pub proof fn law_generated_keys_are_not_empty(s: Seq<char>)
    requires
        is_key_text(s),
    ensures
        s.len() > 0,
{
}

/// A key is usable exactly when it is active and has not been deleted,
/// whatever its other fields (its uses, counters or times).
pub proof fn law_active_undeleted_keys_are_usable(k: ApiKey)
    ensures
        k.usable() <==> (k.is_active && k.deleted_at is None),
{
}

/// A key creation body is valid exactly when its name has 1 to 100
/// characters and its budget, when given, lies between 1 and 1000.
pub proof fn law_key_body_rules(request: CreateApiKeyRequest)
    ensures
        request.violations().len() == 0 <==> (1 <= request.name@.len() <= 100 && (
        request.requests_per_minute matches Some(n) ==> 1 <= n <= 1000)),
{
}

} // verus!
