//! What the functions give, spelled out in terms of what goes in.
//!
//! Every law here speaks of a call: where a function is called with certain arguments and
//! gives a certain result, that result is what the law says.

use crate::bearer;
use crate::bearer::{bearer_of, extract_bearer_jwt};
use crate::discovery;
use crate::discovery::{
    discovery_request, fetch_discovery, jwks_uri, require_https, FetchFailure, JwksCache,
    KeySource,
};
use crate::error::{AppError, ErrorValue};
use crate::exchange;
use crate::exchange::{
    exchange_ci_token, AccessTokens, AssigningRole, CheckingIssuer, CiTokenRequest,
    CiTokenResponse, Discovering, FetchingKeys, LoadingProvider, ProvisionedUser, Provisioning,
    ResolvingMapping,
};
use crate::identity;
use crate::json;
use crate::json::{Json, JsonNumber, JsonObject, JsonValue};
use crate::laws;
use crate::mapping;
use crate::model::{
    AuthProvider, CiOidcIdentityMapping, CiOidcProvider, FederatedCredentials,
};
use crate::service::CiOidcService;
use crate::token;
use crate::token::{Algorithm, JwkMaterial, TokenHeader};
use crate::uuid;
use crate::uuid::Uuid;
use axum::http::{HeaderMap, HeaderValue};
use vstd::prelude::*;

verus! {

/// Whether claims hold a text under a name.
pub open spec fn says(claims: JsonValue, name: Seq<char>, text: Seq<char>) -> bool {
    claims matches JsonValue::Members(held) && held.contains_key(name) && held[name]
        == JsonValue::Text(text)
}

/// Whether claims hold no text under a name.
pub open spec fn silent(claims: JsonValue, name: Seq<char>) -> bool {
    !(claims matches JsonValue::Members(held) && held.contains_key(name) && held[name] is Text)
}

/// Whether a value is one of a list.
pub open spec fn listed(items: Seq<JsonValue>, value: JsonValue) -> bool {
    exists|i: int| 0 <= i < items.len() && items[i] == value
}

/// Whether claims hold, under a name, the very value of a filter, or one of the values that
/// the filter lists.
pub open spec fn holds(claims: JsonValue, name: Seq<char>, filter: JsonValue) -> bool {
    claims matches JsonValue::Members(held) && held.contains_key(name) && (match filter {
        JsonValue::List(allowed) => listed(allowed, held[name]),
        value => held[name] == value,
    })
}

/// Whether claims hold everything that an object of filters asks for.
pub open spec fn satisfies(claims: JsonValue, filters: Map<Seq<char>, JsonValue>) -> bool {
    forall|name: Seq<char>| #[trigger]
        filters.contains_key(name) ==> holds(claims, name, filters[name])
}

/// Whether a mapping's filters are an object that the claims satisfy.
pub open spec fn falls_under(claims: JsonValue, mapping: CiOidcIdentityMapping) -> bool {
    mapping.claim_filters.value() matches JsonValue::Members(filters) && satisfies(claims, filters)
}

/// Whether a claim is a party's name, or a list that holds the name somewhere.
pub open spec fn is_for(claims: JsonValue, name: Seq<char>, party: Seq<char>) -> bool {
    claims matches JsonValue::Members(held) && held.contains_key(name) && match held[name] {
        JsonValue::Text(text) => text == party,
        JsonValue::List(items) => listed(items, JsonValue::Text(party)),
        _ => false,
    }
}

/// A JSON value means what it is built from.
pub proof fn law_json_values(
    flag: bool,
    number: JsonNumber,
    text: String,
    items: Vec<Json>,
    object: JsonObject,
)
    ensures
        Json::Null.value() == JsonValue::Null,
        Json::Bool(flag).value() == JsonValue::Bool(flag),
        Json::Number(number).value() == JsonValue::Number(number.value()),
        Json::String(text).value() == JsonValue::Text(text@),
        Json::Object(object).value() == JsonValue::Members(object.members()),
        Json::Array(items).value() matches JsonValue::List(values) && values.len() == items@.len()
            && forall|i: int|
            0 <= i < items@.len() ==> #[trigger] values[i] == items@[i].value(),
{
}

/// Numbers of one form are equal exactly when they are the same number; the two zeros among
/// the doubles are one.  Numbers of different forms are never equal.
pub proof fn law_numbers_compare(a: &JsonNumber, b: &JsonNumber, same: bool)
    requires
        call_ensures(JsonNumber::equals, (a, b), same),
    ensures
        same == match (*a, *b) {
            (JsonNumber::PosInt(x), JsonNumber::PosInt(y)) => x == y,
            (JsonNumber::NegInt(x), JsonNumber::NegInt(y)) => x == y,
            (JsonNumber::Float(x), JsonNumber::Float(y)) => x == y || ((x == 0 || x
                == 0x8000_0000_0000_0000) && (y == 0 || y == 0x8000_0000_0000_0000)),
            _ => false,
        },
{
}

/// Two values are equal exactly when they are of the same form and hold the same: strings the
/// same characters, arrays equal items in the same places, objects equal members under the
/// same names.
pub proof fn law_values_compare(a: &Json, b: &Json, same: bool)
    requires
        call_ensures(Json::equals, (a, b), same),
    ensures
        match (*a, *b) {
            (Json::Null, Json::Null) => same,
            (Json::Bool(x), Json::Bool(y)) => same == (x == y),
            (Json::Number(x), Json::Number(y)) => same == (x.value() == y.value()),
            (Json::String(x), Json::String(y)) => same == (x@ == y@),
            (Json::Array(x), Json::Array(y)) => same == (x@.len() == y@.len() && forall|i: int|
                0 <= i < x@.len() ==> (#[trigger] x@[i]).value() == y@[i].value()),
            (Json::Object(x), Json::Object(y)) => same == (x.members() == y.members()),
            _ => !same,
        },
{
    if let (Json::Array(x), Json::Array(y)) = (*a, *b) {
        json::lemma_array_value(x);
        json::lemma_array_value(y);
        let left = json::item_values(x@);
        let right = json::item_values(y@);
        assert(left.len() == x@.len() && right.len() == y@.len());
        if left == right {
            assert forall|i: int| 0 <= i < x@.len() implies (#[trigger] x@[i]).value()
                == y@[i].value() by {
                assert(left[i] == x@[i].value());
                assert(right[i] == y@[i].value());
            }
        } else if x@.len() == y@.len() && forall|i: int|
            0 <= i < x@.len() ==> (#[trigger] x@[i]).value() == y@[i].value() {
            assert(left =~= right);
        }
    }
}

/// A member's text is found exactly where an object holds a text under the name.
pub proof fn law_member_text_is_found(value: &Json, name: &str, text: Option<&str>)
    requires
        call_ensures(Json::get_str, (value, name), text),
    ensures
        match text {
            Some(text) => says(value.value(), name@, text@),
            None => silent(value.value(), name@),
        },
{
}

/// A copy has the value that was copied.
pub proof fn law_copy_has_the_value(value: &Json, copy: Json)
    requires
        call_ensures(Json::clone, (value,), copy),
    ensures
        copy.value() == value.value(),
{
}

/// A request carries a token exactly where its header reads `Bearer`, a space and something
/// more, and the token is all of the rest.
pub proof fn law_bearer_is_the_rest_of_the_header(
    header: Option<&str>,
    token: Result<&str, AppError>,
)
    requires
        call_ensures(bearer_of, (header,), token),
    ensures
        match (header, token) {
            (None, _) => token matches Err(AppError::Authentication(message)) && message@
                == "Missing Authorization header. Supply the CI JWT as: Authorization: Bearer <jwt>"@,
            (Some(text), Ok(token)) => token@.len() > 0 && text@ == "Bearer "@ + token@,
            (Some(text), Err(error)) => {
                &&& error matches AppError::Authentication(message) && message@
                    == "Authorization header must use the Bearer scheme: Authorization: Bearer <jwt>"@
                &&& forall|token: Seq<char>| token.len() > 0 ==> text@ != #[trigger] ("Bearer "@
                    + token)
            },
        },
{
    let scheme = "Bearer "@;
    if let Some(text) = header {
        if let Ok(token) = token {
            assert(text@ =~= scheme + token@);
        } else {
            assert forall|token: Seq<char>| token.len() > 0 implies text@ != #[trigger] (scheme
                + token) by {
                laws::law_bearer_carries_token(token);
            }
        }
    }
}

/// A request whose first `Authorization` value spells `Bearer`, a space and a token, all in
/// visible characters, carries that token.
pub proof fn law_headers_carry_the_token(
    headers: &HeaderMap<HeaderValue>,
    jwt: Seq<char>,
    token: Result<&str, AppError>,
)
    requires
        call_ensures(extract_bearer_jwt, (headers,), token),
        jwt.len() > 0,
        bearer::first_values(*headers).contains_key("authorization"@),
        ({
            let bytes = bearer::first_values(*headers)["authorization"@];
            let text = "Bearer "@ + jwt;
            &&& bytes.len() == text.len()
            &&& forall|i: int|
                0 <= i < bytes.len() ==> (32 <= #[trigger] bytes[i] <= 126 || bytes[i] == 9)
                    && bytes[i] as char == text[i]
        }),
    ensures
        token matches Ok(found) && found@ == jwt,
{
    let bytes = bearer::first_values(*headers)["authorization"@];
    let text = "Bearer "@ + jwt;
    assert forall|i: int| 0 <= i < bytes.len() implies bearer::visible(#[trigger] bytes[i]) by {
    }
    let spelled = Seq::new(bytes.len(), |i: int| bytes[i] as char);
    assert(spelled =~= text) by {
        assert forall|i: int| 0 <= i < spelled.len() implies spelled[i] == text[i] by {
            assert(bytes[i] as char == text[i]);
        }
    }
    laws::law_bearer_carries_token(jwt);
}

/// An issuer passes exactly where its address begins with `https://`.
pub proof fn law_https_is_required(url: &str, passed: Result<(), AppError>)
    requires
        call_ensures(require_https, (url,), passed),
    ensures
        passed is Ok <==> url@.len() >= 8 && url@.take(8) == "https://"@,
        passed matches Err(error) ==> error matches AppError::Validation(message) && message@
            == "CI OIDC issuer URL must use HTTPS"@,
{
    reveal_strlit("https://");
    assert("https://"@.len() == 8);
    if url@.len() >= 8 && url@.take(8) == "https://"@ {
        assert("https://"@.is_prefix_of(url@));
    }
    if "https://"@.is_prefix_of(url@) {
        assert(url@.take(8) =~= "https://"@);
    }
}

proof fn lemma_slashes_are_dropped(address: Seq<char>, slashes: nat)
    requires
        address.len() == 0 || address.last() != '/',
    ensures
        discovery::without_trailing_slashes(address + Seq::new(slashes, |i: int| '/'))
            == address,
    decreases slashes,
{
    let text = address + Seq::new(slashes, |i: int| '/');
    if slashes == 0 {
        assert(text =~= address);
    } else {
        let shorter = address + Seq::new((slashes - 1) as nat, |i: int| '/');
        assert(text.last() == '/');
        assert(text.drop_last() =~= shorter);
        lemma_slashes_are_dropped(address, (slashes - 1) as nat);
    }
}

/// The discovery document of an HTTPS issuer that may be asked is found under its address,
/// without the slashes that the address ends in.
pub proof fn law_discovery_address(
    issuer_url: &str,
    address: Seq<char>,
    slashes: nat,
    url: Result<String, AppError>,
)
    requires
        call_ensures(discovery_request, (issuer_url, Ok(())), url),
        address.len() == 0 || address.last() != '/',
        issuer_url@ == address + Seq::new(slashes, |i: int| '/'),
        "https://"@.is_prefix_of(issuer_url@),
    ensures
        url matches Ok(url) && url@ == address + "/.well-known/openid-configuration"@,
{
    lemma_slashes_are_dropped(address, slashes);
}

/// An issuer that may not be asked is not asked, and the refusal is passed on; one without
/// HTTPS is refused first.
pub proof fn law_refused_issuer_is_not_asked(
    issuer_url: &str,
    outbound: Result<(), AppError>,
    url: Result<String, AppError>,
)
    requires
        call_ensures(discovery_request, (issuer_url, outbound), url),
        outbound is Err || !"https://"@.is_prefix_of(issuer_url@),
    ensures
        url is Err,
        "https://"@.is_prefix_of(issuer_url@) ==> url->Err_0 == outbound->Err_0,
        !"https://"@.is_prefix_of(issuer_url@) ==> (url->Err_0 matches AppError::Validation(message)
            && message@ == "CI OIDC issuer URL must use HTTPS"@),
{
}

/// A document that came is the document; a failed request is reported with its reason.
pub proof fn law_discovery_reply(
    reply: Result<Json, FetchFailure>,
    document: Result<Json, AppError>,
)
    requires
        call_ensures(fetch_discovery, (reply,), document),
    ensures
        match reply {
            Ok(json) => document == Ok::<Json, AppError>(json),
            Err(FetchFailure::Send(reason)) => document matches Err(AppError::Internal(message))
                && message@ == "CI OIDC discovery fetch failed: "@ + reason@,
            Err(FetchFailure::Parse(reason)) => document matches Err(AppError::Internal(message))
                && message@ == "CI OIDC discovery parse failed: "@ + reason@,
        },
{
}

/// The keys are where the document says under `jwks_uri`.
pub proof fn law_keys_are_where_the_document_says(document: &Json, uri: Result<String, AppError>)
    requires
        call_ensures(jwks_uri, (document,), uri),
    ensures
        match uri {
            Ok(uri) => says(document.value(), "jwks_uri"@, uri@),
            Err(error) => silent(document.value(), "jwks_uri"@) && (error matches AppError::Internal(
                message,
            ) && message@ == "OIDC discovery missing jwks_uri"@),
        },
{
}

/// Keys are used again exactly while less than three hundred seconds have passed since they
/// were fetched.
pub proof fn law_lookup_honours_the_age(
    cache: &JwksCache,
    uri: &str,
    now: u128,
    keys: Option<Json>,
)
    requires
        call_ensures(JwksCache::lookup, (cache, uri, now), keys),
    ensures
        match keys {
            Some(keys) => cache@.contains_key(uri@) && keys.value() == cache@[uri@].keys && now
                - cache@[uri@].fetched_at < 300 * 1_000_000_000,
            None => cache@.contains_key(uri@) ==> now - cache@[uri@].fetched_at >= 300
                * 1_000_000_000,
        },
{
}

/// Keys are fetched, from the address that was asked for, exactly where no good ones are kept.
pub proof fn law_keys_are_fetched_when_none_are_good(
    cache: &JwksCache,
    uri: &str,
    now: u128,
    source: KeySource,
)
    requires
        call_ensures(JwksCache::key_source, (cache, uri, now), source),
    ensures
        match source {
            KeySource::Kept(keys) => cache@.contains_key(uri@) && keys.value() == cache@[uri@].keys
                && now - cache@[uri@].fetched_at < 300 * 1_000_000_000,
            KeySource::Fetch(asked) => asked@ == uri@ && (cache@.contains_key(uri@) ==> now
                - cache@[uri@].fetched_at >= 300 * 1_000_000_000),
        },
{
}

proof fn lemma_satisfies(claims: JsonValue, filters: Map<Seq<char>, JsonValue>)
    ensures
        mapping::claims_match(JsonValue::Members(filters), claims) <==> satisfies(claims, filters),
{
    if mapping::all_filters_match(filters, claims) {
        assert forall|name: Seq<char>| #[trigger]
            filters.contains_key(name) implies holds(claims, name, filters[name]) by {
            assert(mapping::claim_matches(name, filters[name], claims));
        }
    }
    if satisfies(claims, filters) {
        assert forall|name: Seq<char>| #[trigger]
            filters.contains_key(name) implies mapping::claim_matches(
            name,
            filters[name],
            claims,
        ) by {
            assert(holds(claims, name, filters[name]));
            if let JsonValue::List(allowed) = filters[name] {
                let held = claims->Members_0;
                assert(listed(allowed, held[name]));
                assert(allowed.contains(held[name]));
            }
        }
    }
}

/// Claims pass exactly where they hold everything that the filters ask for.
pub proof fn law_policy_is_exact(
    policy: &Json,
    claims: &Json,
    verdict: Result<(), AppError>,
)
    requires
        call_ensures(CiOidcService::check_claim_policy, (policy, claims), verdict),
    ensures
        match policy.value() {
            JsonValue::Members(filters) => {
                &&& verdict is Ok <==> satisfies(claims.value(), filters)
                &&& verdict matches Err(error) ==> error matches AppError::Authentication(message)
                    && message@ == "CI JWT did not match any configured identity mapping"@
            },
            _ => verdict matches Err(AppError::Internal(message)) && message@
                == "claim_filters must be a JSON object"@,
        },
{
    if let JsonValue::Members(filters) = policy.value() {
        lemma_satisfies(claims.value(), filters);
    }
}

/// A filter that is a single value accepts a claim exactly where the claim has that value.
pub proof fn law_single_value_is_matched_exactly(
    policy: &Json,
    claims: &Json,
    name: Seq<char>,
    value: JsonValue,
    verdict: Result<(), AppError>,
)
    requires
        call_ensures(CiOidcService::check_claim_policy, (policy, claims), verdict),
        policy.value() == JsonValue::Members(map![name => value]),
        !(value is List),
    ensures
        verdict is Ok <==> (claims.value() matches JsonValue::Members(held) && held.contains_key(
            name,
        ) && held[name] == value),
{
    let filters = map![name => value];
    lemma_satisfies(claims.value(), filters);
    assert(filters.contains_key(name));
}

/// A filter that lists values accepts a claim exactly where the claim has one of them.
pub proof fn law_listed_values_are_matched_exactly(
    policy: &Json,
    claims: &Json,
    name: Seq<char>,
    allowed: Seq<JsonValue>,
    verdict: Result<(), AppError>,
)
    requires
        call_ensures(CiOidcService::check_claim_policy, (policy, claims), verdict),
        policy.value() == JsonValue::Members(map![name => JsonValue::List(allowed)]),
    ensures
        verdict is Ok <==> (claims.value() matches JsonValue::Members(held) && held.contains_key(
            name,
        ) && exists|i: int| 0 <= i < allowed.len() && allowed[i] == held[name]),
{
    let filters = map![name => JsonValue::List(allowed)];
    lemma_satisfies(claims.value(), filters);
    assert(filters.contains_key(name));
}

/// Two different texts never match: a filter on one refuses a claim with the other.
pub proof fn law_different_texts_never_match(
    policy: &Json,
    claims: &Json,
    name: Seq<char>,
    asked: Seq<char>,
    held: Map<Seq<char>, JsonValue>,
    told: Seq<char>,
    verdict: Result<(), AppError>,
)
    requires
        call_ensures(CiOidcService::check_claim_policy, (policy, claims), verdict),
        policy.value() == JsonValue::Members(map![name => JsonValue::Text(asked)]),
        claims.value() == JsonValue::Members(held.insert(name, JsonValue::Text(told))),
        asked != told,
    ensures
        verdict is Err,
{
    law_single_value_is_matched_exactly(policy, claims, name, JsonValue::Text(asked), verdict);
}

/// A token falls under the first of the mappings whose filters its claims satisfy, and is
/// refused exactly where there is none.
pub proof fn law_first_satisfied_mapping_is_found(
    rows: Vec<CiOidcIdentityMapping>,
    claims: &Json,
    answer: Result<CiOidcIdentityMapping, AppError>,
)
    requires
        call_ensures(CiOidcService::resolve_mapping, (Ok(rows), claims), answer),
    ensures
        match answer {
            Ok(found) => exists|at: int|
                0 <= at < rows@.len() && found == rows@[at] && falls_under(
                    claims.value(),
                    #[trigger] rows@[at],
                ) && forall|i: int| 0 <= i < at ==> !falls_under(claims.value(), #[trigger] rows@[i]),
            Err(error) => {
                &&& forall|i: int|
                    0 <= i < rows@.len() ==> !falls_under(claims.value(), #[trigger] rows@[i])
                &&& error matches AppError::Authentication(message) && message@ == if rows@.len()
                    == 0 {
                    "No CI OIDC identity mappings configured for this provider"@
                } else {
                    "CI JWT did not match any identity mapping"@
                }
            },
        },
{
    assert forall|i: int| 0 <= i < rows@.len() implies falls_under(
        claims.value(),
        #[trigger] rows@[i],
    ) == mapping::mapping_accepts(rows@[i], claims.value()) by {
        lemma_falls_under(claims.value(), rows@[i]);
    }
    if let Ok(found) = answer {
        let at = choose|at: int| #[trigger]
            mapping::first_match(rows@, claims.value(), at) && found == rows@[at];
        assert(falls_under(claims.value(), rows@[at]));
        assert forall|i: int| 0 <= i < at implies !falls_under(
            claims.value(),
            #[trigger] rows@[i],
        ) by {
            assert(!mapping::mapping_accepts(rows@[i], claims.value()));
        }
    }
}

proof fn lemma_falls_under(claims: JsonValue, row: CiOidcIdentityMapping)
    ensures
        falls_under(claims, row) == mapping::mapping_accepts(row, claims),
{
    if let JsonValue::Members(filters) = row.claim_filters.value() {
        lemma_satisfies(claims, filters);
    }
}

/// A failed read of the mappings is reported as the database's failure.
pub proof fn law_unread_mappings_are_reported(
    text: String,
    claims: &Json,
    answer: Result<CiOidcIdentityMapping, AppError>,
)
    requires
        call_ensures(CiOidcService::resolve_mapping, (Err(text), claims), answer),
    ensures
        answer matches Err(AppError::Database(message)) && message@ == text@,
{
}

/// The claim that operators see is the first, in the order of the filters, that the claims
/// fail; none is named exactly where they fail none.
pub proof fn law_first_failing_filter_is_named(
    policy: &Json,
    object: JsonObject,
    claims: &Json,
    failed: Option<&String>,
)
    requires
        call_ensures(CiOidcService::failed_claim, (policy, claims), failed),
        *policy == Json::Object(object),
    ensures
        match failed {
            Some(name) => exists|at: int|
                0 <= at < object.names().len() && #[trigger] object.names()[at] == name@
                    && !satisfies(
                    claims.value(),
                    map![name@ => object.members()[name@]],
                ) && forall|i: int|
                    0 <= i < at ==> satisfies(
                        claims.value(),
                        map![#[trigger] object.names()[i] => object.members()[object.names()[i]]],
                    ),
            None => satisfies(claims.value(), object.members()),
        },
{
    lemma_satisfies(claims.value(), object.members());
    match failed {
        Some(name) => {
            lemma_first_failing(object.names(), object.members(), claims.value(), name@);
        },
        None => {},
    }
}

proof fn lemma_one_filter(claims: JsonValue, name: Seq<char>, value: JsonValue)
    ensures
        satisfies(claims, map![name => value]) == mapping::claim_matches(name, value, claims),
{
    let filters = map![name => value];
    lemma_satisfies(claims, filters);
    assert(filters.contains_key(name) && filters[name] == value);
    if mapping::claim_matches(name, value, claims) {
        assert(mapping::all_filters_match(filters, claims));
    }
}

proof fn lemma_first_failing(
    names: Seq<Seq<char>>,
    filters: Map<Seq<char>, JsonValue>,
    claims: JsonValue,
    name: Seq<char>,
)
    requires
        mapping::first_failing(names, filters, claims) == Some(name),
    ensures
        exists|at: int|
            0 <= at < names.len() && #[trigger] names[at] == name && !satisfies(
                claims,
                map![name => filters[name]],
            ) && forall|i: int|
                0 <= i < at ==> satisfies(claims, map![#[trigger] names[i] => filters[names[i]]]),
    decreases names.len(),
{
    lemma_one_filter(claims, names[0], filters[names[0]]);
    if !mapping::claim_matches(names[0], filters[names[0]], claims) {
        assert(names[0] == name);
    } else {
        let rest = names.skip(1);
        lemma_first_failing(rest, filters, claims, name);
        let at = choose|at: int|
            0 <= at < rest.len() && #[trigger] rest[at] == name && !satisfies(
                claims,
                map![name => filters[name]],
            ) && forall|i: int|
                0 <= i < at ==> satisfies(claims, map![#[trigger] rest[i] => filters[rest[i]]]);
        assert(names[at + 1] == name);
        assert forall|i: int| 0 <= i < at + 1 implies satisfies(
            claims,
            map![#[trigger] names[i] => filters[names[i]]],
        ) by {
            if i > 0 {
                assert(rest[i - 1] == names[i]);
            }
        }
    }
}

/// The mapping's account carries the name `ci-` and the first eight hexadecimal digits of the
/// mapping's identifier, in lower case.
pub proof fn law_account_is_named_after_the_mapping(
    provider: &CiOidcProvider,
    row: &CiOidcIdentityMapping,
    claims: &Json,
    account: FederatedCredentials,
)
    requires
        call_ensures(
            CiOidcService::extract_identity_from_mapping,
            (provider, row, claims),
            account,
        ),
    ensures
        account.username@.len() == 11,
        account.username@.take(3) == "ci-"@,
        forall|place: int|
            0 <= place < 8 ==> #[trigger] account.username@[3 + place] == "0123456789abcdef"@[(
            row.id.0 as int / vstd::arithmetic::power::pow(16, (31 - place) as nat)) % 16],
        account.email@ == account.username@ + "@ci.artifact-keeper.internal"@,
        account.groups@.len() == 1,
        account.groups@[0]@ == "ci"@,
        account.required_admin_group is None,
{
    reveal_strlit("ci-");
    let name = identity::username(row.id);
    let short = uuid::short_id(row.id);
    assert("ci-"@.len() == 3);
    assert(name.take(3) =~= "ci-"@);
    assert forall|place: int| 0 <= place < 8 implies #[trigger] name[3 + place]
        == "0123456789abcdef"@[(row.id.0 as int / vstd::arithmetic::power::pow(
        16,
        (31 - place) as nat,
    )) % 16] by {
        assert(name[3 + place] == short[place]);
        lemma_hex_character(uuid::hex_digit(row.id, place));
    }
}

proof fn lemma_hex_character(digit: int)
    requires
        0 <= digit < 16,
    ensures
        uuid::hex_char(digit) == "0123456789abcdef"@[digit],
{
    reveal_strlit("0123456789abcdef");
    if digit < 8 {
        assert(digit == 0 || digit == 1 || digit == 2 || digit == 3 || digit == 4 || digit == 5
            || digit == 6 || digit == 7);
    } else {
        assert(digit == 8 || digit == 9 || digit == 10 || digit == 11 || digit == 12 || digit == 13
            || digit == 14 || digit == 15);
    }
}

/// Whatever the provider is, an account's external identifier is the text of the token's `sub`
/// claim, and its username where the token has no such text.
pub proof fn law_external_id_is_the_subject(
    provider: &CiOidcProvider,
    row: &CiOidcIdentityMapping,
    claims: &Json,
    account: FederatedCredentials,
)
    requires
        call_ensures(
            CiOidcService::extract_identity_from_mapping,
            (provider, row, claims),
            account,
        ),
    ensures
        forall|subject: Seq<char>| #[trigger]
            says(claims.value(), "sub"@, subject) ==> account.external_id@ == subject,
        silent(claims.value(), "sub"@) ==> account.external_id@ == account.username@,
{
}

/// Two tokens with the same `sub` under mappings with the same identifier stand for accounts
/// with the same external identifier, name and address, whatever else they claim and whatever
/// their providers are.
pub proof fn law_account_depends_on_mapping_and_subject(
    provider_a: &CiOidcProvider,
    provider_b: &CiOidcProvider,
    row_a: &CiOidcIdentityMapping,
    row_b: &CiOidcIdentityMapping,
    claims_a: &Json,
    claims_b: &Json,
    a: FederatedCredentials,
    b: FederatedCredentials,
)
    requires
        call_ensures(
            CiOidcService::extract_identity_from_mapping,
            (provider_a, row_a, claims_a),
            a,
        ),
        call_ensures(
            CiOidcService::extract_identity_from_mapping,
            (provider_b, row_b, claims_b),
            b,
        ),
        row_a.id == row_b.id,
        forall|subject: Seq<char>|
            says(claims_a.value(), "sub"@, subject) <==> says(claims_b.value(), "sub"@, subject),
    ensures
        a.external_id@ == b.external_id@,
        a.username@ == b.username@,
        a.email@ == b.email@,
{
    if let JsonValue::Members(held) = claims_a.value() {
        if held.contains_key("sub"@) && held["sub"@] is Text {
            let subject = held["sub"@]->Text_0;
            assert(says(claims_a.value(), "sub"@, subject));
            assert(says(claims_b.value(), "sub"@, subject));
        }
    }
    if let JsonValue::Members(held) = claims_b.value() {
        if held.contains_key("sub"@) && held["sub"@] is Text {
            let subject = held["sub"@]->Text_0;
            assert(says(claims_b.value(), "sub"@, subject));
            assert(says(claims_a.value(), "sub"@, subject));
        }
    }
}

/// An account is shown with its platform and its mapping, and, on the two platforms that are
/// known by name, with the project: on GitLab the project's path, else the namespace's, and on
/// GitHub the repository.
pub proof fn law_account_is_shown(
    provider: &CiOidcProvider,
    row: &CiOidcIdentityMapping,
    claims: &Json,
    account: FederatedCredentials,
)
    requires
        call_ensures(
            CiOidcService::extract_identity_from_mapping,
            (provider, row, claims),
            account,
        ),
    ensures
        account.display_name is Some,
        ({
            let shown = account.display_name->Some_0@;
            let gitlab = "CI [GitLab] "@ + row.name@ + " — "@;
            let github = "CI [GitHub] "@ + row.name@ + " — "@;
            &&& provider.provider_type@ == "gitlab"@ ==> {
                &&& forall|path: Seq<char>| #[trigger]
                    says(claims.value(), "project_path"@, path) ==> shown == gitlab + path
                &&& forall|path: Seq<char>| #[trigger]
                    says(claims.value(), "namespace_path"@, path) && silent(
                        claims.value(),
                        "project_path"@,
                    ) ==> shown == gitlab + path
                &&& silent(claims.value(), "project_path"@) && silent(
                    claims.value(),
                    "namespace_path"@,
                ) ==> shown == gitlab + "unknown"@
            }
            &&& provider.provider_type@ == "github"@ ==> {
                &&& forall|path: Seq<char>| #[trigger]
                    says(claims.value(), "repository"@, path) ==> shown == github + path
                &&& silent(claims.value(), "repository"@) ==> shown == github + "unknown"@
            }
            &&& provider.provider_type@ != "gitlab"@ && provider.provider_type@ != "github"@
                ==> shown == "CI ["@ + provider.name@ + "] "@ + row.name@
        }),
{
    reveal_strlit("gitlab");
    reveal_strlit("github");
    assert("gitlab"@[3] == 'l' && "github"@[3] == 'h');
}

/// Accounts of pipelines come from CI.
pub proof fn law_accounts_come_from_ci(
    state: &Provisioning,
    account: (AuthProvider, FederatedCredentials),
)
    requires
        call_ensures(Provisioning::account, (state,), account),
    ensures
        account.0 == AuthProvider::Ci,
        account.1.username@ == identity::username(state.mapping().id),
        forall|subject: Seq<char>| #[trigger]
            says(state.claims(), "sub"@, subject) ==> account.1.external_id@ == subject,
        silent(state.claims(), "sub"@) ==> account.1.external_id@ == account.1.username@,
{
}

/// Where the key stands that a token is checked with: the first that bears the name in the
/// token's header; the first of all where none does, or where the header has no name.
pub open spec fn chosen(keys: Seq<JsonValue>, kid: Option<Seq<char>>, at: int) -> bool {
    &&& 0 <= at < keys.len()
    &&& match kid {
        None => at == 0,
        Some(kid) => {
            ||| says(keys[at], "kid"@, kid) && forall|i: int|
                0 <= i < at ==> !says(#[trigger] keys[i], "kid"@, kid)
            ||| at == 0 && forall|i: int|
                0 <= i < keys.len() ==> !says(#[trigger] keys[i], "kid"@, kid)
        },
    }
}

/// Whether a key is of a type and names two parts.
pub open spec fn made_of(
    key: JsonValue,
    kty: Seq<char>,
    first: (Seq<char>, Seq<char>),
    second: (Seq<char>, Seq<char>),
) -> bool {
    &&& says(key, "kty"@, kty)
    &&& says(key, first.0, first.1)
    &&& says(key, second.0, second.1)
}

/// Whether a set of keys lists a key that `DecodingKey` can be made of at the place that is
/// chosen for a header.
pub open spec fn offers(
    jwks: JsonValue,
    kid: Option<Seq<char>>,
    key: jsonwebtoken::DecodingKey,
) -> bool {
    &&& jwks matches JsonValue::Members(set)
    &&& set.contains_key("keys"@)
    &&& set["keys"@] matches JsonValue::List(keys)
    &&& exists|at: int| #[trigger] chosen(keys, kid, at) && usable(keys[at], key)
}

/// Whether a key of a set is made into a `DecodingKey`.
pub open spec fn usable(jwk: JsonValue, key: jsonwebtoken::DecodingKey) -> bool {
    ||| exists|n: Seq<char>, e: Seq<char>| #[trigger]
        made_of(jwk, "RSA"@, ("n"@, n), ("e"@, e)) && token::rsa_key(n, e) == Ok::<
            jsonwebtoken::DecodingKey,
            jsonwebtoken::errors::Error,
        >(key)
    ||| exists|x: Seq<char>, y: Seq<char>| #[trigger]
        made_of(jwk, "EC"@, ("x"@, x), ("y"@, y)) && token::ec_key(x, y) == Ok::<
            jsonwebtoken::DecodingKey,
            jsonwebtoken::errors::Error,
        >(key)
}

proof fn lemma_key_types()
    ensures
        "RSA"@ != "EC"@,
        "RSA"@ != ""@,
        "EC"@ != ""@,
{
    reveal_strlit("RSA");
    reveal_strlit("EC");
    reveal_strlit("");
    assert("RSA"@.len() == 3 && "EC"@.len() == 2 && ""@.len() == 0);
}

proof fn lemma_chosen(keys: Seq<JsonValue>, kid: Option<Seq<char>>, at: int)
    requires
        chosen(keys, kid, at),
    ensures
        token::key_place(keys, kid) == at,
{
    if let Some(kid) = kid {
        if says(keys[at], "kid"@, kid) && forall|i: int|
            0 <= i < at ==> !says(#[trigger] keys[i], "kid"@, kid) {
            assert(token::key_named(keys[at], kid));
            laws::law_named_key_is_used(keys, kid, at);
            let place = token::key_place(keys, Some(kid));
            assert(token::first_named(keys, kid, place));
            if place < at {
                assert(says(keys[place], "kid"@, kid));
            }
            if at < place {
                assert(!token::key_named(keys[at], kid));
            }
        } else {
            assert forall|i: int| 0 <= i < keys.len() implies !token::key_named(
                #[trigger] keys[i],
                kid,
            ) by {
                assert(!says(keys[i], "kid"@, kid));
            }
            laws::law_first_key_stands_in(keys, kid);
        }
    }
}

/// A key is chosen by the name in the header and made of what the set says of it; a key that
/// lacks a part, or is of another type, is refused in words that say so.
pub proof fn law_chosen_key_is_read(
    keys: &Vec<Json>,
    kid: Option<&str>,
    at: int,
    material: Result<JwkMaterial, AppError>,
)
    requires
        call_ensures(CiOidcService::select_jwk, (keys, kid), material),
        keys@.len() > 0 ==> chosen(
            json::item_values(keys@),
            match kid {
                Some(kid) => Some(kid@),
                None => None,
            },
            at,
        ),
    ensures
        keys@.len() == 0 ==> (material matches Err(AppError::Internal(message)) && message@
            == "No matching JWK found"@),
        keys@.len() > 0 ==> {
            let key = keys@[at].value();
            &&& forall|n: Seq<char>, e: Seq<char>| #[trigger]
                made_of(key, "RSA"@, ("n"@, n), ("e"@, e)) ==> (material matches Ok(
                    JwkMaterial::Rsa { n: found_n, e: found_e },
                ) && found_n@ == n && found_e@ == e)
            &&& forall|x: Seq<char>, y: Seq<char>| #[trigger]
                made_of(key, "EC"@, ("x"@, x), ("y"@, y)) ==> (material matches Ok(
                    JwkMaterial::Ec { x: found_x, y: found_y },
                ) && found_x@ == x && found_y@ == y)
            &&& says(key, "kty"@, "RSA"@) && silent(key, "n"@) ==> (material matches Err(
                AppError::Internal(message),
            ) && message@ == "JWK RSA missing 'n'"@)
            &&& says(key, "kty"@, "RSA"@) && !silent(key, "n"@) && silent(key, "e"@) ==> (
            material matches Err(AppError::Internal(message)) && message@
                == "JWK RSA missing 'e'"@)
            &&& says(key, "kty"@, "EC"@) && silent(key, "x"@) ==> (material matches Err(
                AppError::Internal(message),
            ) && message@ == "JWK EC missing 'x'"@)
            &&& says(key, "kty"@, "EC"@) && !silent(key, "x"@) && silent(key, "y"@) ==> (
            material matches Err(AppError::Internal(message)) && message@ == "JWK EC missing 'y'"@)
            &&& forall|kty: Seq<char>| #[trigger]
                says(key, "kty"@, kty) && kty != "RSA"@ && kty != "EC"@ ==> (material matches Err(
                    AppError::Internal(message),
                ) && message@ == "Unsupported JWK kty: "@ + kty)
            &&& silent(key, "kty"@) ==> (material matches Err(AppError::Internal(message))
                && message@ == "Unsupported JWK kty: "@ + ""@)
        },
{
    lemma_key_types();
    if keys@.len() > 0 {
        let values = json::item_values(keys@);
        lemma_chosen(values, token::optional_text(kid), at);
        assert(values[at] == keys@[at].value());
    }
}

/// A key is made of its parts by `jsonwebtoken`, and what that refuses is reported with the
/// reason.
pub proof fn law_key_is_built(
    material: &JwkMaterial,
    key: Result<jsonwebtoken::DecodingKey, AppError>,
)
    requires
        call_ensures(CiOidcService::build_key, (material,), key),
    ensures
        match *material {
            JwkMaterial::Rsa { n, e } => match token::rsa_key(n@, e@) {
                Ok(made) => key matches Ok(key) && key == made,
                Err(reason) => key matches Err(AppError::Internal(message)) && message@
                    == "Invalid RSA JWK: "@ + token::jwt_error_text(reason),
            },
            JwkMaterial::Ec { x, y } => match token::ec_key(x@, y@) {
                Ok(made) => key matches Ok(key) && key == made,
                Err(reason) => key matches Err(AppError::Internal(message)) && message@
                    == "Invalid EC JWK: "@ + token::jwt_error_text(reason),
            },
        },
{
}

/// The eight algorithms with an RSA or elliptic-curve key pair are accepted; shared secrets and
/// Edwards curves are refused by name.
pub proof fn law_accepted_algorithms(alg: Algorithm, passed: Result<(), AppError>)
    requires
        call_ensures(CiOidcService::require_supported, (alg,), passed),
    ensures
        passed is Ok <==> (alg == Algorithm::RS256 || alg == Algorithm::RS384 || alg
            == Algorithm::RS512 || alg == Algorithm::PS256 || alg == Algorithm::PS384 || alg
            == Algorithm::PS512 || alg == Algorithm::ES256 || alg == Algorithm::ES384),
        passed matches Err(error) ==> error matches AppError::Authentication(message) && message@
            == "Unsupported CI JWT algorithm: "@ + match alg {
            Algorithm::HS256 => "HS256"@,
            Algorithm::HS384 => "HS384"@,
            Algorithm::HS512 => "HS512"@,
            _ => "EdDSA"@,
        },
{
}

proof fn lemma_offered(
    jwks: JsonValue,
    kid: Option<Seq<char>>,
    alg: Algorithm,
    key: jsonwebtoken::DecodingKey,
)
    requires
        offers(jwks, kid, key),
    ensures
        json::member_value(jwks, "keys"@) is List,
        token::selected_key(json::member_value(jwks, "keys"@)->List_0, kid) == Ok::<
            jsonwebtoken::DecodingKey,
            ErrorValue,
        >(key),
{
    lemma_key_types();
    let keys = json::member_value(jwks, "keys"@)->List_0;
    let at = choose|at: int| #[trigger] chosen(keys, kid, at) && usable(keys[at], key);
    lemma_chosen(keys, kid, at);
    if exists|n: Seq<char>, e: Seq<char>| #[trigger]
        made_of(keys[at], "RSA"@, ("n"@, n), ("e"@, e)) && token::rsa_key(n, e) == Ok::<
            jsonwebtoken::DecodingKey,
            jsonwebtoken::errors::Error,
        >(key) {
        let (n, e) = choose|n: Seq<char>, e: Seq<char>| #[trigger]
            made_of(keys[at], "RSA"@, ("n"@, n), ("e"@, e)) && token::rsa_key(n, e) == Ok::<
                jsonwebtoken::DecodingKey,
                jsonwebtoken::errors::Error,
            >(key);
        assert(token::key_material(keys[at]) == Ok::<token::MaterialValue, ErrorValue>(
            token::MaterialValue::Rsa { n, e },
        ));
    } else {
        let (x, y) = choose|x: Seq<char>, y: Seq<char>| #[trigger]
            made_of(keys[at], "EC"@, ("x"@, x), ("y"@, y)) && token::ec_key(x, y) == Ok::<
                jsonwebtoken::DecodingKey,
                jsonwebtoken::errors::Error,
            >(key);
        assert(token::key_material(keys[at]) == Ok::<token::MaterialValue, ErrorValue>(
            token::MaterialValue::Ec { x, y },
        ));
    }
}

/// Whether tokens may be signed with an algorithm.
pub open spec fn has_key_pair(alg: Algorithm) -> bool {
    alg == Algorithm::RS256 || alg == Algorithm::RS384 || alg == Algorithm::RS512 || alg
        == Algorithm::PS256 || alg == Algorithm::PS384 || alg == Algorithm::PS512 || alg
        == Algorithm::ES256 || alg == Algorithm::ES384
}

/// A token is checked with the key that the set offers for its header and with the header's
/// algorithm.
pub proof fn law_check_is_planned(
    header: &TokenHeader,
    jwks: &Json,
    key: jsonwebtoken::DecodingKey,
    plan: Result<(jsonwebtoken::DecodingKey, Algorithm), AppError>,
)
    requires
        call_ensures(CiOidcService::plan_check, (header, jwks), plan),
        offers(
            jwks.value(),
            match header.kid {
                Some(kid) => Some(kid@),
                None => None,
            },
            key,
        ),
    ensures
        has_key_pair(header.alg) ==> plan == Ok::<
            (jsonwebtoken::DecodingKey, Algorithm),
            AppError,
        >((key, header.alg)),
        !has_key_pair(header.alg) ==> plan is Err,
{
    lemma_offered(jwks.value(), header@.kid, header.alg, key);
}

/// A key set without a list of keys is refused.
pub proof fn law_key_set_must_list_keys(
    header: &TokenHeader,
    jwks: &Json,
    plan: Result<(jsonwebtoken::DecodingKey, Algorithm), AppError>,
)
    requires
        call_ensures(CiOidcService::plan_check, (header, jwks), plan),
        !(jwks.value() matches JsonValue::Members(set) && set.contains_key("keys"@) && set["keys"@]
            is List),
    ensures
        plan matches Err(AppError::Internal(message)) && message@ == "JWKS missing keys array"@,
{
}

proof fn lemma_party(claims: JsonValue, name: Seq<char>, party: Seq<char>)
    ensures
        token::claim_names(json::member_value(claims, name), party) == is_for(claims, name, party),
{
    if let JsonValue::List(items) = json::member_value(claims, name) {
        if listed(items, JsonValue::Text(party)) {
            assert(items.contains(JsonValue::Text(party)));
        }
    }
}

/// Claims pass exactly where they name the provider's issuer and its audience, by themselves or
/// anywhere in a list, and they pass unchanged.
pub proof fn law_claims_must_be_for_the_provider(
    claims: Json,
    provider: &CiOidcProvider,
    verdict: Result<Json, AppError>,
)
    requires
        call_ensures(CiOidcService::require_addressed, (claims, provider), verdict),
    ensures
        match verdict {
            Ok(passed) => passed == claims && is_for(
                claims.value(),
                "iss"@,
                provider.issuer_url@,
            ) && is_for(claims.value(), "aud"@, provider.audience@),
            Err(error) => error matches AppError::Authentication(message) && {
                ||| !is_for(claims.value(), "iss"@, provider.issuer_url@) && message@
                    == "CI JWT validation failed: "@ + "InvalidIssuer"@
                ||| is_for(claims.value(), "iss"@, provider.issuer_url@) && !is_for(
                    claims.value(),
                    "aud"@,
                    provider.audience@,
                ) && message@ == "CI JWT validation failed: "@ + "InvalidAudience"@
            },
        },
{
    lemma_party(claims.value(), "iss"@, provider.issuer_url@);
    lemma_party(claims.value(), "aud"@, provider.audience@);
}

/// A claim that lists a party at any place names it, whatever stands at the other places.
pub proof fn law_listed_party_is_named(
    held: Map<Seq<char>, JsonValue>,
    name: Seq<char>,
    items: Seq<JsonValue>,
    place: int,
    party: Seq<char>,
)
    requires
        held.contains_key(name),
        held[name] == JsonValue::List(items),
        0 <= place < items.len(),
        items[place] == JsonValue::Text(party),
    ensures
        token::claim_names(held[name], party),
        is_for(JsonValue::Members(held), name, party),
{
    assert(items.contains(JsonValue::Text(party)));
    lemma_party(JsonValue::Members(held), name, party);
}

/// A text names the party that it is, and no other.
pub proof fn law_text_names_itself(text: Seq<char>, party: Seq<char>)
    ensures
        token::claim_names(JsonValue::Text(text), party) <==> text == party,
{
}

/// An error of `jsonwebtoken` is reported, and the claims that it gives are handed on exactly
/// where they are for the provider.
pub proof fn law_verdict_follows_the_check(
    outcome: Result<serde_json::Value, jsonwebtoken::errors::Error>,
    provider: &CiOidcProvider,
    verdict: Result<Json, AppError>,
)
    requires
        call_ensures(CiOidcService::check_verdict, (outcome, provider), verdict),
    ensures
        match outcome {
            Err(reason) => verdict matches Err(AppError::Authentication(message)) && message@
                == "CI JWT validation failed: "@ + token::jwt_error_text(reason),
            Ok(value) => {
                let claims = json::parsed_value(value);
                if is_for(claims, "iss"@, provider.issuer_url@) && is_for(
                    claims,
                    "aud"@,
                    provider.audience@,
                ) {
                    verdict matches Ok(found) && found.value() == claims
                } else {
                    verdict matches Err(AppError::Authentication(_))
                }
            },
        },
{
    if let Ok(value) = outcome {
        lemma_party(json::parsed_value(value), "iss"@, provider.issuer_url@);
        lemma_party(json::parsed_value(value), "aud"@, provider.audience@);
    }
}

/// A token whose header cannot be read is refused with the reason.
pub proof fn law_unreadable_header_is_refused(
    outcome: Result<TokenHeader, jsonwebtoken::errors::Error>,
    verdict: Result<TokenHeader, AppError>,
)
    requires
        call_ensures(CiOidcService::header_verdict, (outcome,), verdict),
    ensures
        match outcome {
            Ok(header) => verdict == Ok::<TokenHeader, AppError>(header),
            Err(reason) => verdict matches Err(AppError::Authentication(message)) && message@
                == "Invalid CI JWT header: "@ + token::jwt_error_text(reason),
        },
{
}

/// A token is accepted where the key set offers a key for its header, the header's algorithm
/// has a key pair, `jsonwebtoken` accepts the token with that key whatever the time, and its
/// claims are for the provider; it is accepted with all of its claims.
pub proof fn law_right_token_is_validated(
    provider: &CiOidcProvider,
    jwt: &str,
    jwks: &Json,
    header: token::TokenHeaderValue,
    key: jsonwebtoken::DecodingKey,
    claims: JsonValue,
    verdict: Result<Json, AppError>,
)
    requires
        call_ensures(CiOidcService::validate_ci_jwt, (provider, jwt, jwks), verdict),
        token::jwt_header(jwt@) == Ok::<token::TokenHeaderValue, jsonwebtoken::errors::Error>(
            header,
        ),
        offers(jwks.value(), header.kid, key),
        has_key_pair(header.alg),
        forall|now: u64|
            (#[trigger] token::decoded_at(
                jwt@,
                key,
                header.alg,
                provider.audience@,
                provider.issuer_url@,
                now,
            )) == Ok::<JsonValue, jsonwebtoken::errors::Error>(claims),
        is_for(claims, "iss"@, provider.issuer_url@),
        is_for(claims, "aud"@, provider.audience@),
    ensures
        verdict matches Ok(found) && found.value() == claims,
{
    lemma_offered(jwks.value(), header.kid, header.alg, key);
    lemma_party(claims, "iss"@, provider.issuer_url@);
    lemma_party(claims, "aud"@, provider.audience@);
}

/// An accepted token is for the provider, names an expiry, and was accepted by `jsonwebtoken`
/// with an algorithm that has a key pair, for the provider's audience and issuer.
pub proof fn law_validated_token_is_right(
    provider: &CiOidcProvider,
    jwt: &str,
    jwks: &Json,
    verdict: Result<Json, AppError>,
)
    requires
        call_ensures(CiOidcService::validate_ci_jwt, (provider, jwt, jwks), verdict),
        verdict is Ok,
    ensures
        is_for(verdict->Ok_0.value(), "iss"@, provider.issuer_url@),
        is_for(verdict->Ok_0.value(), "aud"@, provider.audience@),
        verdict->Ok_0.value() matches JsonValue::Members(held) && held.contains_key("exp"@)
            && held["exp"@] is Number,
        exists|key: jsonwebtoken::DecodingKey, alg: Algorithm, now: u64|
            has_key_pair(alg) && #[trigger] token::decoded_at(
                jwt@,
                key,
                alg,
                provider.audience@,
                provider.issuer_url@,
                now,
            ) == Ok::<JsonValue, jsonwebtoken::errors::Error>(verdict->Ok_0.value()),
{
    let claims = verdict->Ok_0.value();
    lemma_party(claims, "iss"@, provider.issuer_url@);
    lemma_party(claims, "aud"@, provider.audience@);
    let (key, alg) = token::check_for_token(jwt@, jwks.value())->Ok_0;
    let now = choose|now: u64| #[trigger]
        token::verdict_at(jwt@, key, alg, *provider, now) == Ok::<
            JsonValue,
            ErrorValue,
        >(claims);
    assert(has_key_pair(alg));
    assert(token::decoded_at(jwt@, key, alg, provider.audience@, provider.issuer_url@, now) == Ok::<
        JsonValue,
        jsonwebtoken::errors::Error,
    >(claims));
}

/// The exchange begins with the token of the request and the provider that it names.
pub proof fn law_exchange_begins(
    headers: &HeaderMap<HeaderValue>,
    req: CiTokenRequest,
    next: Result<LoadingProvider, AppError>,
    token: Result<&str, AppError>,
)
    requires
        call_ensures(exchange_ci_token, (headers, req), next),
        call_ensures(extract_bearer_jwt, (headers,), token),
    ensures
        match token {
            Ok(jwt) => next matches Ok(state) && state.jwt() == jwt@ && state.requested()
                == req.provider_id,
            Err(refusal) => next matches Err(error) && error@ == refusal@,
        },
{
}

/// The exchange goes on exactly where the provider is stored and enabled.
pub proof fn law_provider_must_be_enabled(
    state: LoadingProvider,
    row: Result<Option<CiOidcProvider>, String>,
    next: Result<CheckingIssuer, AppError>,
)
    requires
        call_ensures(LoadingProvider::provider_loaded, (state, row), next),
    ensures
        next is Ok <==> (row matches Ok(Some(provider)) && provider.is_enabled),
        next matches Ok(checking) ==> row == Ok::<Option<CiOidcProvider>, String>(
            Some(checking.provider()),
        ) && checking.jwt() == state.jwt(),
        match row {
            Ok(Some(provider)) => !provider.is_enabled ==> (next matches Err(
                AppError::Authentication(message),
            ) && message@ == "CI OIDC provider is disabled"@),
            Ok(None) => next matches Err(AppError::NotFound(message)) && message@
                == "CI OIDC provider not found"@,
            Err(text) => next matches Err(AppError::Database(message)) && message@ == text@,
        },
{
}

/// The exchange goes on exactly where the issuer uses HTTPS and may be asked; the document is
/// then asked for under the issuer's address.
pub proof fn law_issuer_must_pass(
    state: CheckingIssuer,
    outbound: Result<(), AppError>,
    next: Result<Discovering, AppError>,
    address: Seq<char>,
    slashes: nat,
)
    requires
        call_ensures(CheckingIssuer::issuer_checked, (state, outbound), next),
        address.len() == 0 || address.last() != '/',
        state.provider().issuer_url@ == address + Seq::new(slashes, |i: int| '/'),
    ensures
        next is Ok <==> outbound is Ok && "https://"@.is_prefix_of(state.provider().issuer_url@),
        next matches Ok(discovering) ==> discovering.jwt() == state.jwt() && discovering.provider()
            == state.provider() && discovering.location() == address
            + "/.well-known/openid-configuration"@,
        next matches Err(error) ==> if "https://"@.is_prefix_of(state.provider().issuer_url@) {
            outbound matches Err(refusal) && error == refusal
        } else {
            error matches AppError::Validation(message) && message@
                == "CI OIDC issuer URL must use HTTPS"@
        },
{
    lemma_slashes_are_dropped(address, slashes);
}

/// The exchange goes on exactly where the document came and says where the keys are.
pub proof fn law_document_must_say_where_the_keys_are(
    state: Discovering,
    reply: Result<Json, FetchFailure>,
    next: Result<FetchingKeys, AppError>,
)
    requires
        call_ensures(Discovering::discovered, (state, reply), next),
    ensures
        next matches Ok(fetching) ==> (reply matches Ok(document) && says(
            document.value(),
            "jwks_uri"@,
            fetching.location(),
        )) && fetching.jwt() == state.jwt() && fetching.provider() == state.provider(),
        match reply {
            Ok(document) => silent(document.value(), "jwks_uri"@) <==> next is Err,
            Err(FetchFailure::Send(reason)) => next matches Err(AppError::Internal(message))
                && message@ == "CI OIDC discovery fetch failed: "@ + reason@,
            Err(FetchFailure::Parse(reason)) => next matches Err(AppError::Internal(message))
                && message@ == "CI OIDC discovery parse failed: "@ + reason@,
        },
{
}

/// The exchange goes on with the claims of a right token.
pub proof fn law_right_token_goes_on(
    state: FetchingKeys,
    jwks: &Json,
    header: token::TokenHeaderValue,
    key: jsonwebtoken::DecodingKey,
    claims: JsonValue,
    next: Result<ResolvingMapping, AppError>,
)
    requires
        call_ensures(FetchingKeys::keys_fetched, (state, jwks), next),
        token::jwt_header(state.jwt()) == Ok::<token::TokenHeaderValue, jsonwebtoken::errors::Error>(
            header,
        ),
        offers(jwks.value(), header.kid, key),
        has_key_pair(header.alg),
        forall|now: u64|
            (#[trigger] token::decoded_at(
                state.jwt(),
                key,
                header.alg,
                state.provider().audience@,
                state.provider().issuer_url@,
                now,
            )) == Ok::<JsonValue, jsonwebtoken::errors::Error>(claims),
        is_for(claims, "iss"@, state.provider().issuer_url@),
        is_for(claims, "aud"@, state.provider().audience@),
    ensures
        next matches Ok(resolving) && resolving.claims() == claims && resolving.provider()
            == state.provider() && resolving.jwt() == state.jwt() && resolving.keys()
            == jwks.value(),
{
    lemma_offered(jwks.value(), header.kid, header.alg, key);
    lemma_party(claims, "iss"@, state.provider().issuer_url@);
    lemma_party(claims, "aud"@, state.provider().audience@);
    let now = choose|now: u64| #[trigger]
        token::token_verdict(state.jwt(), jwks.value(), state.provider(), now)
            == exchange::found_claims(next);
    assert(token::decoded_at(
        state.jwt(),
        key,
        header.alg,
        state.provider().audience@,
        state.provider().issuer_url@,
        now,
    ) == Ok::<JsonValue, jsonwebtoken::errors::Error>(claims));
}

/// The exchange goes on only with claims that are for the provider.
pub proof fn law_only_addressed_claims_go_on(
    state: FetchingKeys,
    jwks: &Json,
    next: Result<ResolvingMapping, AppError>,
)
    requires
        call_ensures(FetchingKeys::keys_fetched, (state, jwks), next),
        next is Ok,
    ensures
        is_for(next->Ok_0.claims(), "iss"@, state.provider().issuer_url@),
        is_for(next->Ok_0.claims(), "aud"@, state.provider().audience@),
        next->Ok_0.provider() == state.provider(),
{
    lemma_party(next->Ok_0.claims(), "iss"@, state.provider().issuer_url@);
    lemma_party(next->Ok_0.claims(), "aud"@, state.provider().audience@);
}

/// The exchange goes on with the first of the mappings that the claims satisfy, and is refused
/// exactly where there is none.
pub proof fn law_exchange_finds_the_first_mapping(
    state: ResolvingMapping,
    rows: Vec<CiOidcIdentityMapping>,
    next: Result<Provisioning, AppError>,
)
    requires
        call_ensures(ResolvingMapping::mappings_loaded, (state, Ok(rows)), next),
    ensures
        match next {
            Ok(granted) => {
                &&& granted.claims() == state.claims()
                &&& granted.provider() == state.provider()
                &&& exists|at: int|
                    0 <= at < rows@.len() && granted.mapping() == rows@[at] && falls_under(
                        state.claims(),
                        #[trigger] rows@[at],
                    ) && forall|i: int|
                        0 <= i < at ==> !falls_under(state.claims(), #[trigger] rows@[i])
            },
            Err(error) => {
                &&& forall|i: int|
                    0 <= i < rows@.len() ==> !falls_under(state.claims(), #[trigger] rows@[i])
                &&& error matches AppError::Authentication(message) && message@ == if rows@.len()
                    == 0 {
                    "No CI OIDC identity mappings configured for this provider"@
                } else {
                    "CI JWT did not match any identity mapping"@
                }
            },
        },
{
    assert forall|i: int| 0 <= i < rows@.len() implies falls_under(
        state.claims(),
        #[trigger] rows@[i],
    ) == mapping::mapping_accepts(rows@[i], state.claims()) by {
        lemma_falls_under(state.claims(), rows@[i]);
    }
    if let Ok(granted) = next {
        let at = choose|at: int| #[trigger]
            mapping::first_match(rows@, state.claims(), at) && granted.mapping() == rows@[at];
        assert(falls_under(state.claims(), rows@[at]));
        assert forall|i: int| 0 <= i < at implies !falls_under(
            state.claims(),
            #[trigger] rows@[i],
        ) by {
            assert(!mapping::mapping_accepts(rows@[i], state.claims()));
        }
    }
}

/// Every provisioned account goes on to the last step with its tokens.
pub proof fn law_provisioned_account_goes_on(
    state: Provisioning,
    reply: Result<(ProvisionedUser, AccessTokens), AppError>,
    next: Result<AssigningRole, AppError>,
)
    requires
        call_ensures(Provisioning::provisioned, (state, reply), next),
    ensures
        match reply {
            Ok((user, tokens)) => next matches Ok(assigning) && assigning.grant() == state
                && assigning.user() == user && assigning.tokens() == tokens,
            Err(failure) => next matches Err(error) && error == failure,
        },
{
}

/// The role of the mapping is assigned to the account that was provisioned, and none where the
/// mapping has none.
pub proof fn law_mapping_role_is_assigned(
    state: &AssigningRole,
    assignment: Option<(Uuid, Uuid)>,
)
    requires
        call_ensures(AssigningRole::role_assignment, (state,), assignment),
    ensures
        match state.grant().mapping().role_id {
            Some(role_id) => assignment matches Some((user_id, given)) && user_id
                == state.user().id && given == role_id,
            None => assignment is None,
        },
{
}

/// Every exchange that comes to its last step is answered with the account's name and its
/// token, unless the mapping has a role that could not be assigned: then with the database's
/// failure.
pub proof fn law_last_step_is_answered(
    state: AssigningRole,
    assigned: Result<(), String>,
    answer: Result<CiTokenResponse, AppError>,
)
    requires
        call_ensures(AssigningRole::role_assigned, (state, assigned), answer),
    ensures
        state.grant().mapping().role_id is None || assigned is Ok ==> (answer matches Ok(response)
            && response.access_token == state.tokens().access_token && response.token_type@
            == "Bearer"@ && response.expires_in == state.tokens().expires_in && response.username
            == state.user().username),
        state.grant().mapping().role_id is Some && assigned is Err ==> (answer matches Err(
            AppError::Database(message),
        ) && message@ == assigned->Err_0@),
{
}

/// A registry token is handed out only where the provider is enabled and uses HTTPS, the claims
/// are for the provider, and they satisfy the mapping.
pub proof fn law_token_is_handed_out_rightly(
    state: AssigningRole,
    assigned: Result<(), String>,
    answer: Result<CiTokenResponse, AppError>,
)
    requires
        call_ensures(AssigningRole::role_assigned, (state, assigned), answer),
        answer is Ok,
    ensures
        state.grant().provider().is_enabled,
        "https://"@.is_prefix_of(state.grant().provider().issuer_url@),
        is_for(state.grant().claims(), "iss"@, state.grant().provider().issuer_url@),
        is_for(state.grant().claims(), "aud"@, state.grant().provider().audience@),
        falls_under(state.grant().claims(), state.grant().mapping()),
{
    lemma_party(state.grant().claims(), "iss"@, state.grant().provider().issuer_url@);
    lemma_party(state.grant().claims(), "aud"@, state.grant().provider().audience@);
    lemma_falls_under(state.grant().claims(), state.grant().mapping());
}

/// A right token of an enabled provider, under a mapping that its claims satisfy, is exchanged:
/// the request is answered with the token that was generated for the account that was
/// provisioned.
pub proof fn law_right_token_is_exchanged(
    headers: &HeaderMap<HeaderValue>,
    req: CiTokenRequest,
    jwt: Seq<char>,
    provider: CiOidcProvider,
    document: Json,
    jwks: &Json,
    header: token::TokenHeaderValue,
    key: jsonwebtoken::DecodingKey,
    claims: JsonValue,
    rows: Vec<CiOidcIdentityMapping>,
    at: int,
    user: ProvisionedUser,
    tokens: AccessTokens,
    assigned: Result<(), String>,
    carried: Result<&str, AppError>,
    loading: Result<LoadingProvider, AppError>,
    checking: Result<CheckingIssuer, AppError>,
    discovering: Result<Discovering, AppError>,
    fetching: Result<FetchingKeys, AppError>,
    resolving: Result<ResolvingMapping, AppError>,
    provisioning: Result<Provisioning, AppError>,
    assigning: Result<AssigningRole, AppError>,
    answer: Result<CiTokenResponse, AppError>,
)
    requires
        call_ensures(extract_bearer_jwt, (headers,), carried),
        carried matches Ok(text) && text@ == jwt,
        provider.is_enabled,
        "https://"@.is_prefix_of(provider.issuer_url@),
        !silent(document.value(), "jwks_uri"@),
        token::jwt_header(jwt) == Ok::<token::TokenHeaderValue, jsonwebtoken::errors::Error>(
            header,
        ),
        offers(jwks.value(), header.kid, key),
        has_key_pair(header.alg),
        forall|now: u64|
            (#[trigger] token::decoded_at(
                jwt,
                key,
                header.alg,
                provider.audience@,
                provider.issuer_url@,
                now,
            )) == Ok::<JsonValue, jsonwebtoken::errors::Error>(claims),
        is_for(claims, "iss"@, provider.issuer_url@),
        is_for(claims, "aud"@, provider.audience@),
        0 <= at < rows@.len(),
        falls_under(claims, rows@[at]),
        assigned is Ok || forall|i: int|
            0 <= i < rows@.len() ==> (#[trigger] rows@[i]).role_id is None,
        call_ensures(exchange_ci_token, (headers, req), loading),
        loading matches Ok(state) ==> call_ensures(
            LoadingProvider::provider_loaded,
            (state, Ok(Some(provider))),
            checking,
        ),
        checking matches Ok(state) ==> call_ensures(
            CheckingIssuer::issuer_checked,
            (state, Ok(())),
            discovering,
        ),
        discovering matches Ok(state) ==> call_ensures(
            Discovering::discovered,
            (state, Ok(document)),
            fetching,
        ),
        fetching matches Ok(state) ==> call_ensures(
            FetchingKeys::keys_fetched,
            (state, jwks),
            resolving,
        ),
        resolving matches Ok(state) ==> call_ensures(
            ResolvingMapping::mappings_loaded,
            (state, Ok(rows)),
            provisioning,
        ),
        provisioning matches Ok(state) ==> call_ensures(
            Provisioning::provisioned,
            (state, Ok((user, tokens))),
            assigning,
        ),
        assigning matches Ok(state) ==> call_ensures(
            AssigningRole::role_assigned,
            (state, assigned),
            answer,
        ),
    ensures
        answer matches Ok(response) && response.access_token == tokens.access_token
            && response.token_type@ == "Bearer"@ && response.expires_in == tokens.expires_in
            && response.username == user.username,
{
    law_exchange_begins(headers, req, loading, carried);
    law_provider_must_be_enabled(loading->Ok_0, Ok(Some(provider)), checking);
    assert(discovering is Ok && discovering->Ok_0.jwt() == jwt && discovering->Ok_0.provider()
        == provider);
    law_document_must_say_where_the_keys_are(discovering->Ok_0, Ok(document), fetching);
    law_right_token_goes_on(fetching->Ok_0, jwks, header, key, claims, resolving);
    law_exchange_finds_the_first_mapping(resolving->Ok_0, rows, provisioning);
    law_provisioned_account_goes_on(provisioning->Ok_0, Ok((user, tokens)), assigning);
    law_last_step_is_answered(assigning->Ok_0, assigned, answer);
}

/// Keys that come are handed on and kept, from that moment on, in place of those that were kept
/// for the address; a failed request is reported and changes nothing.
pub proof fn law_fetched_keys_are_kept(
    cache: &mut JwksCache,
    uri: &str,
    reply: Result<Json, FetchFailure>,
    now: u128,
    keys: Result<Json, AppError>,
)
    requires
        call_ensures(JwksCache::fetch_jwks, (cache, uri, reply, now), keys),
    ensures
        match reply {
            Ok(json) => {
                &&& keys matches Ok(given) && given == json
                &&& final(cache)@.contains_key(uri@)
                &&& final(cache)@[uri@].keys == json.value()
                &&& final(cache)@[uri@].fetched_at == now
                &&& final(cache)@.remove(uri@) == old(cache)@.remove(uri@)
            },
            Err(failure) => {
                &&& final(cache)@ == old(cache)@
                &&& keys matches Err(AppError::Internal(message)) && message@ == match failure {
                    FetchFailure::Send(reason) => "CI JWKS fetch failed: "@ + reason@,
                    FetchFailure::Parse(reason) => "CI JWKS parse failed: "@ + reason@,
                }
            },
        },
{
}

/// Whether a name is one of a mapping's filters that the claims fail.
pub open spec fn blamed(claims: JsonValue, row: CiOidcIdentityMapping, name: Seq<char>) -> bool {
    row.claim_filters.value() matches JsonValue::Members(filters) && filters.contains_key(name)
        && !holds(claims, name, filters[name])
}

proof fn lemma_reports(mappings: Seq<CiOidcIdentityMapping>, claims: JsonValue)
    requires
        forall|i: int|
            0 <= i < mappings.len() ==> (#[trigger] mappings[i]).claim_filters is Object
                && !falls_under(claims, mappings[i]) && named_by_members(mappings[i]),
    ensures
        mapping::reported_claims(mappings, claims).len() == mappings.len(),
        forall|i: int|
            0 <= i < mappings.len() ==> blamed(
                claims,
                #[trigger] mappings[i],
                mapping::reported_claims(mappings, claims)[i],
            ),
    decreases mappings.len(),
{
    if mappings.len() > 0 {
        let first = mappings[0];
        let rest = mappings.skip(1);
        assert forall|i: int| 0 <= i < rest.len() implies (#[trigger] rest[i]).claim_filters is Object
            && !falls_under(claims, rest[i]) && named_by_members(rest[i]) by {
            assert(rest[i] == mappings[i + 1]);
        }
        lemma_reports(rest, claims);
        lemma_falls_under(claims, first);
        let object = first.claim_filters->Object_0;
        let filters = object.members();
        lemma_some_filter_fails(object.names(), filters, claims);
        let reported = mapping::reported_claims(mappings, claims);
        let rest_reported = mapping::reported_claims(rest, claims);
        let name = mapping::failing_claim(first.claim_filters, claims)->Some_0;
        assert(reported == seq![name] + rest_reported);
        assert forall|i: int| 0 <= i < mappings.len() implies blamed(
            claims,
            #[trigger] mappings[i],
            reported[i],
        ) by {
            if i == 0 {
                lemma_first_failing(object.names(), filters, claims, name);
                lemma_one_filter(claims, name, filters[name]);
                let single = map![name => filters[name]];
                assert(single.contains_key(name) && single[name] == filters[name]);
                assert(object.names().contains(name));
            } else {
                assert(rest[i - 1] == mappings[i]);
                assert(reported[i] == rest_reported[i - 1]);
            }
        }
    }
}

/// Whether the members of a mapping's filters are those that are listed.
pub open spec fn named_by_members(row: CiOidcIdentityMapping) -> bool {
    row.claim_filters matches Json::Object(object) ==> forall|name: Seq<char>| #[trigger]
        object.members().contains_key(name) <==> object.names().contains(name)
}

proof fn lemma_some_filter_fails(
    names: Seq<Seq<char>>,
    filters: Map<Seq<char>, JsonValue>,
    claims: JsonValue,
)
    requires
        !satisfies(claims, filters),
        forall|name: Seq<char>| #[trigger] filters.contains_key(name) <==> names.contains(name),
    ensures
        mapping::first_failing(names, filters, claims) is Some,
{
    let bad = choose|name: Seq<char>| #[trigger]
        filters.contains_key(name) && !holds(claims, name, filters[name]);
    assert(names.contains(bad));
    let place = choose|i: int| 0 <= i < names.len() && names[i] == bad;
    lemma_one_filter(claims, bad, filters[bad]);
    let single = map![bad => filters[bad]];
    assert(single.contains_key(bad) && single[bad] == filters[bad]);
    lemma_failing_place(names, filters, claims, place);
}

proof fn lemma_failing_place(
    names: Seq<Seq<char>>,
    filters: Map<Seq<char>, JsonValue>,
    claims: JsonValue,
    place: int,
)
    requires
        0 <= place < names.len(),
        !mapping::claim_matches(names[place], filters[names[place]], claims),
    ensures
        mapping::first_failing(names, filters, claims) is Some,
    decreases names.len(),
{
    if mapping::claim_matches(names[0], filters[names[0]], claims) {
        assert(names.skip(1)[place - 1] == names[place]);
        lemma_failing_place(names.skip(1), filters, claims, place - 1);
    }
}

/// Where no mapping is satisfied and all have filters, operators see one claim for each mapping,
/// in order: one of its filters that the claims fail.
pub proof fn law_operators_see_the_failing_claims(
    rows: &Vec<CiOidcIdentityMapping>,
    claims: &Json,
    names: Vec<String>,
)
    requires
        call_ensures(CiOidcService::failed_claims, (rows, claims), names),
        forall|i: int|
            0 <= i < rows@.len() ==> (#[trigger] rows@[i]).claim_filters is Object && !falls_under(
                claims.value(),
                rows@[i],
            ) && named_by_members(rows@[i]),
    ensures
        names@.len() == rows@.len(),
        forall|i: int|
            0 <= i < rows@.len() ==> blamed(claims.value(), #[trigger] rows@[i], names@[i]@),
{
    lemma_reports(rows@, claims.value());
    let texts = mapping::texts(names@);
    assert(texts.len() == names@.len());
    assert forall|i: int| 0 <= i < rows@.len() implies blamed(
        claims.value(),
        #[trigger] rows@[i],
        names@[i]@,
    ) by {
        assert(texts[i] == names@[i]@);
    }
}

} // verus!
