//! Where a provider's keys are found, and how long they are kept.

use crate::error::{AppError, ErrorValue};
use crate::json;
use crate::json::{Json, JsonValue};
use crate::text::{join2, starts_with};
use vstd::hash_map::StringHashMap;
use vstd::prelude::*;
use vstd::string::*;

verus! {

/// How long a fetched key set is used: five minutes, in nanoseconds.
pub const JWKS_CACHE_TTL_NANOS: u128 = 300_000_000_000;

/// How long to wait for a provider's answer before the request counts as failed, in
/// seconds.
pub const OIDC_HTTP_TIMEOUT_SECS: u64 = 10;

/// Why a document could not be fetched, with the text of the reason.
#[derive(Debug, PartialEq, Eq)]
pub enum FetchFailure {
    /// No answer came.
    Send(String),
    /// The answer was no JSON text.
    Parse(String),
}

/// A text without the slashes that it ends in.
pub open spec fn without_trailing_slashes(text: Seq<char>) -> Seq<char>
    decreases text.len(),
{
    if text.len() > 0 && text.last() == '/' {
        without_trailing_slashes(text.drop_last())
    } else {
        text
    }
}

/// Where the discovery document of an issuer is found.
pub open spec fn discovery_location(issuer_url: Seq<char>) -> Seq<char> {
    without_trailing_slashes(issuer_url) + "/.well-known/openid-configuration"@
}

/// Whether an address is reached over HTTPS.
pub open spec fn uses_https(url: Seq<char>) -> bool {
    "https://"@.is_prefix_of(url)
}

/// How an issuer is refused that is not reached over HTTPS.
pub open spec fn https_required() -> ErrorValue {
    ErrorValue::Validation("CI OIDC issuer URL must use HTTPS"@)
}

/// Lets issuers pass that are reached over HTTPS.
pub fn require_https(issuer_url: &str) -> (passed: Result<(), AppError>)
    ensures
        passed is Ok <==> uses_https(issuer_url@),
        passed matches Err(error) ==> error@ == https_required(),
{
    if starts_with(issuer_url, "https://") {
        Ok(())
    } else {
        Err(AppError::Validation("CI OIDC issuer URL must use HTTPS".to_owned()))
    }
}

/// Where the discovery document of an issuer is found.
fn discovery_url(issuer_url: &str) -> (url: String)
    ensures
        url@ == discovery_location(issuer_url@),
{
    let mut end: usize = issuer_url.unicode_len();
    assert(issuer_url@.take(end as int) =~= issuer_url@);
    while end > 0 && issuer_url.get_char(end - 1) == '/'
        invariant
            end <= issuer_url@.len(),
            without_trailing_slashes(issuer_url@.take(end as int)) == without_trailing_slashes(
                issuer_url@,
            ),
        decreases end,
    {
        assert(issuer_url@.take(end as int).drop_last() =~= issuer_url@.take(end - 1));
        end = end - 1;
    }
    let trimmed = issuer_url.substring_char(0, end);
    assert(trimmed@ =~= issuer_url@.take(end as int));
    join2(trimmed, "/.well-known/openid-configuration")
}

/// The request for the discovery document of an issuer: where it goes, provided that the
/// issuer is reached over HTTPS and that `outbound`, the check of its address, let it pass.
pub fn discovery_request(issuer_url: &str, outbound: Result<(), AppError>) -> (url: Result<
    String,
    AppError,
>)
    ensures
        if uses_https(issuer_url@) {
            match outbound {
                Ok(()) => url matches Ok(url) && url@ == discovery_location(issuer_url@),
                Err(refusal) => url == Err::<String, AppError>(refusal),
            }
        } else {
            url matches Err(error) && error@ == https_required()
        },
{
    match require_https(issuer_url) {
        Ok(()) => match outbound {
            Ok(()) => Ok(discovery_url(issuer_url)),
            Err(refusal) => Err(refusal),
        },
        Err(error) => Err(error),
    }
}

/// How a provider is refused whose discovery document could not be fetched.
pub open spec fn discovery_failed(failure: FetchFailure) -> ErrorValue {
    match failure {
        FetchFailure::Send(reason) => ErrorValue::Internal(
            "CI OIDC discovery fetch failed: "@ + reason@,
        ),
        FetchFailure::Parse(reason) => ErrorValue::Internal(
            "CI OIDC discovery parse failed: "@ + reason@,
        ),
    }
}

/// How a provider is refused whose key set could not be fetched.
pub open spec fn jwks_failed(failure: FetchFailure) -> ErrorValue {
    match failure {
        FetchFailure::Send(reason) => ErrorValue::Internal("CI JWKS fetch failed: "@ + reason@),
        FetchFailure::Parse(reason) => ErrorValue::Internal("CI JWKS parse failed: "@ + reason@),
    }
}

/// The discovery document, from the provider's answer.
pub fn fetch_discovery(reply: Result<Json, FetchFailure>) -> (document: Result<Json, AppError>)
    ensures
        match reply {
            Ok(json) => document == Ok::<Json, AppError>(json),
            Err(failure) => document matches Err(error) && error@ == discovery_failed(failure),
        },
{
    match reply {
        Ok(json) => Ok(json),
        Err(FetchFailure::Send(reason)) => Err(
            AppError::Internal(join2("CI OIDC discovery fetch failed: ", reason.as_str())),
        ),
        Err(FetchFailure::Parse(reason)) => Err(
            AppError::Internal(join2("CI OIDC discovery parse failed: ", reason.as_str())),
        ),
    }
}

/// How a provider is refused whose discovery document does not say where its keys are.
pub open spec fn jwks_uri_missing() -> ErrorValue {
    ErrorValue::Internal("OIDC discovery missing jwks_uri"@)
}

/// Where a provider's keys are found, according to its discovery document.
pub fn jwks_uri(discovery: &Json) -> (uri: Result<String, AppError>)
    ensures
        match json::member_text(discovery.value(), "jwks_uri"@) {
            Some(text) => uri matches Ok(uri) && uri@ == text,
            None => uri matches Err(error) && error@ == jwks_uri_missing(),
        },
{
    match discovery.get_str("jwks_uri") {
        Some(uri) => Ok(uri.to_owned()),
        None => Err(AppError::Internal("OIDC discovery missing jwks_uri".to_owned())),
    }
}

/// A key set, and when it was fetched.
pub struct JwksCacheEntry {
    keys: Json,
    fetched_at: u128,
}

/// A kept key set: what it holds, and when it was fetched.
pub struct KeptKeys {
    pub keys: JsonValue,
    pub fetched_at: int,
}

impl JwksCacheEntry {
    /// What is kept.
    pub closed spec fn kept(self) -> KeptKeys {
        KeptKeys { keys: self.keys.value(), fetched_at: self.fetched_at as int }
    }
}

/// How much time lies between two readings of a clock; none where the second is earlier.
pub open spec fn elapsed(since: int, now: int) -> int {
    if now > since {
        now - since
    } else {
        0
    }
}

/// The keys that are still good at a time for an address.
pub open spec fn fresh_keys(
    kept: Map<Seq<char>, KeptKeys>,
    uri: Seq<char>,
    now: int,
) -> Option<JsonValue> {
    if kept.contains_key(uri) && elapsed(kept[uri].fetched_at, now) < JWKS_CACHE_TTL_NANOS {
        Some(kept[uri].keys)
    } else {
        None
    }
}

/// Where the keys of an address come from.
#[derive(Debug)]
pub enum KeySource {
    /// The keys are kept and still good.
    Kept(Json),
    /// The keys are to be fetched from this address.
    Fetch(String),
}

/// The key sets that were fetched, by the address that they came from.
///
/// Times are readings of one clock, in nanoseconds.
pub struct JwksCache {
    entries: StringHashMap<JwksCacheEntry>,
}

impl View for JwksCache {
    type V = Map<Seq<char>, KeptKeys>;

    closed spec fn view(&self) -> Map<Seq<char>, KeptKeys> {
        self.entries@.map_values(|entry: JwksCacheEntry| entry.kept())
    }
}

impl JwksCache {
    /// A cache that holds nothing.
    pub fn new() -> (cache: JwksCache)
        ensures
            cache@ == Map::<Seq<char>, KeptKeys>::empty(),
    {
        let cache = JwksCache { entries: StringHashMap::new() };
        assert(cache@ =~= Map::<Seq<char>, KeptKeys>::empty());
        cache
    }

    /// The keys of an address, where they were fetched less than five minutes ago.
    pub fn lookup(&self, jwks_uri: &str, now: u128) -> (keys: Option<Json>)
        ensures
            match keys {
                Some(keys) => fresh_keys(self@, jwks_uri@, now as int) == Some(keys.value()),
                None => fresh_keys(self@, jwks_uri@, now as int) is None,
            },
    {
        match self.entries.get(jwks_uri) {
            Some(entry) => {
                let age: u128 = if now > entry.fetched_at {
                    now - entry.fetched_at
                } else {
                    0
                };
                if age < JWKS_CACHE_TTL_NANOS {
                    Some(entry.keys.clone())
                } else {
                    None
                }
            },
            None => None,
        }
    }

    /// The keys of an address, where they are kept and still good; else the address that is
    /// to be asked for them.
    pub fn key_source(&self, jwks_uri: &str, now: u128) -> (source: KeySource)
        ensures
            match source {
                KeySource::Kept(keys) => fresh_keys(self@, jwks_uri@, now as int) == Some(
                    keys.value(),
                ),
                KeySource::Fetch(uri) => fresh_keys(self@, jwks_uri@, now as int) is None && uri@
                    == jwks_uri@,
            },
    {
        match self.lookup(jwks_uri, now) {
            Some(keys) => KeySource::Kept(keys),
            None => KeySource::Fetch(jwks_uri.to_owned()),
        }
    }

    /// The keys of an address from the provider's answer, which are then kept in place of
    /// those that were kept before.  A failed answer leaves everything as it was.
    pub fn fetch_jwks(
        &mut self,
        jwks_uri: &str,
        reply: Result<Json, FetchFailure>,
        now: u128,
    ) -> (keys: Result<Json, AppError>)
        ensures
            match reply {
                Ok(json) => {
                    &&& keys == Ok::<Json, AppError>(json)
                    &&& final(self)@ == old(self)@.insert(
                        jwks_uri@,
                        KeptKeys { keys: json.value(), fetched_at: now as int },
                    )
                },
                Err(failure) => {
                    &&& final(self)@ == old(self)@
                    &&& keys matches Err(error) && error@ == jwks_failed(failure)
                },
            },
    {
        match reply {
            Ok(json) => {
                let entry = JwksCacheEntry { keys: json.clone(), fetched_at: now };
                self.entries.insert(jwks_uri.to_owned(), entry);
                assert(self@ =~= old(self)@.insert(
                    jwks_uri@,
                    KeptKeys { keys: json.value(), fetched_at: now as int },
                ));
                Ok(json)
            },
            Err(FetchFailure::Send(reason)) => Err(
                AppError::Internal(join2("CI JWKS fetch failed: ", reason.as_str())),
            ),
            Err(FetchFailure::Parse(reason)) => Err(
                AppError::Internal(join2("CI JWKS parse failed: ", reason.as_str())),
            ),
        }
    }
}

} // verus!
