//! What holds of the rules as a whole.

use crate::bearer;
use crate::discovery;
use crate::discovery::KeptKeys;
use crate::error::{AppError, ErrorValue};
use crate::exchange;
use crate::identity;
use crate::json;
use crate::json::{Json, JsonValue};
use crate::mapping;
use crate::model::{
    CiOidcIdentityMapping, CiOidcProvider, FederatedCredentials, MappingColumns, ProviderColumns,
    Timestamp, UpdateCiOidcMappingRequest, UpdateCiOidcProviderRequest,
};
use crate::service;
use crate::token;
use crate::uuid;
use crate::uuid::Uuid;
use vstd::prelude::*;

verus! {

/// Whether a point in time lies before another or is the same.
pub open spec fn not_after(a: Timestamp, b: Timestamp) -> bool {
    a.secs < b.secs || (a.secs == b.secs && a.nanos <= b.nanos)
}

/// Whether a mapping has precedence over another or ranks the same: a lower priority number
/// comes first, and among equal numbers the older mapping.
pub open spec fn precedes(a: CiOidcIdentityMapping, b: CiOidcIdentityMapping) -> bool {
    a.priority < b.priority || (a.priority == b.priority && not_after(a.created_at, b.created_at))
}

/// Whether a list of mappings is in order of precedence.
pub open spec fn by_precedence(mappings: Seq<CiOidcIdentityMapping>) -> bool {
    forall|i: int, j: int|
        0 <= i < j < mappings.len() ==> precedes(#[trigger] mappings[i], #[trigger] mappings[j])
}

/// Whether rows are the enabled mappings of a provider, in order of precedence, out of all
/// that are stored.
pub open spec fn enabled_mappings(
    rows: Seq<CiOidcIdentityMapping>,
    stored: Set<CiOidcIdentityMapping>,
    provider_id: Uuid,
) -> bool {
    &&& by_precedence(rows)
    &&& forall|row: CiOidcIdentityMapping| #[trigger]
        rows.contains(row) <==> stored.contains(row) && row.provider_id == provider_id
            && row.is_enabled
}

/// A token falls under an enabled mapping of its provider that accepts its claims, and no
/// other such mapping has precedence over it.
pub proof fn law_first_enabled_mapping_wins(
    stored: Set<CiOidcIdentityMapping>,
    provider_id: Uuid,
    rows: Seq<CiOidcIdentityMapping>,
    claims: JsonValue,
    at: int,
    other: CiOidcIdentityMapping,
)
    requires
        enabled_mappings(rows, stored, provider_id),
        mapping::first_match(rows, claims, at),
        stored.contains(other),
        other.provider_id == provider_id,
        other.is_enabled,
        mapping::mapping_accepts(other, claims),
    ensures
        stored.contains(rows[at]),
        rows[at].provider_id == provider_id,
        rows[at].is_enabled,
        mapping::mapping_accepts(rows[at], claims),
        rows[at] == other || precedes(rows[at], other),
{
    assert(rows.contains(rows[at]));
    assert(rows.contains(other));
    let place = choose|i: int| 0 <= i < rows.len() && rows[i] == other;
    if place < at {
        assert(!mapping::mapping_accepts(rows[place], claims));
    }
}

/// A token is refused exactly when no enabled mapping of its provider accepts its claims.
pub proof fn law_refused_without_mapping(
    stored: Set<CiOidcIdentityMapping>,
    provider_id: Uuid,
    rows: Seq<CiOidcIdentityMapping>,
    claims: JsonValue,
)
    requires
        enabled_mappings(rows, stored, provider_id),
    ensures
        (forall|i: int|
            0 <= i < rows.len() ==> !mapping::mapping_accepts(#[trigger] rows[i], claims)) <==> (
        forall|row: CiOidcIdentityMapping| #[trigger]
            stored.contains(row) && row.provider_id == provider_id && row.is_enabled
                ==> !mapping::mapping_accepts(row, claims)),
{
    if forall|i: int|
        0 <= i < rows.len() ==> !mapping::mapping_accepts(#[trigger] rows[i], claims) {
        assert forall|row: CiOidcIdentityMapping| #[trigger]
            stored.contains(row) && row.provider_id == provider_id
                && row.is_enabled implies !mapping::mapping_accepts(row, claims) by {
            assert(rows.contains(row));
            let place = choose|i: int| 0 <= i < rows.len() && rows[i] == row;
            assert(!mapping::mapping_accepts(rows[place], claims));
        }
    }
    if forall|row: CiOidcIdentityMapping| #[trigger]
        stored.contains(row) && row.provider_id == provider_id && row.is_enabled
            ==> !mapping::mapping_accepts(row, claims) {
        assert forall|i: int| 0 <= i < rows.len() implies !mapping::mapping_accepts(
            #[trigger] rows[i],
            claims,
        ) by {
            assert(rows.contains(rows[i]));
        }
    }
}

/// A token falls under one mapping at most.
pub proof fn law_one_mapping(
    mappings: Seq<CiOidcIdentityMapping>,
    claims: JsonValue,
    a: int,
    b: int,
)
    requires
        mapping::first_match(mappings, claims, a),
        mapping::first_match(mappings, claims, b),
    ensures
        a == b,
{
    if a < b {
        assert(!mapping::mapping_accepts(mappings[a], claims));
    } else if b < a {
        assert(!mapping::mapping_accepts(mappings[b], claims));
    }
}

/// Claims that satisfy some filters satisfy any part of them.
pub proof fn law_fewer_filters_admit_more(
    filters: Map<Seq<char>, JsonValue>,
    part: Map<Seq<char>, JsonValue>,
    claims: JsonValue,
)
    requires
        part.submap_of(filters),
        mapping::claims_match(JsonValue::Members(filters), claims),
    ensures
        mapping::claims_match(JsonValue::Members(part), claims),
{
    assert(mapping::all_filters_match(filters, claims));
    assert forall|name: Seq<char>| #[trigger]
        part.contains_key(name) implies mapping::claim_matches(name, part[name], claims) by {
        assert(filters.contains_key(name));
    }
}

/// Filters without members accept every token.
pub proof fn law_no_filters_admit_all(claims: JsonValue)
    ensures
        mapping::claims_match(JsonValue::Members(Map::empty()), claims),
{
    assert(mapping::all_filters_match(Map::empty(), claims));
}

/// A filter on a claim that the token lacks is never satisfied, whatever value it asks for.
pub proof fn law_absent_claim_fails(
    filters: Map<Seq<char>, JsonValue>,
    claims: JsonValue,
    name: Seq<char>,
)
    requires
        filters.contains_key(name),
        !json::has_member(claims, name),
    ensures
        !mapping::claims_match(JsonValue::Members(filters), claims),
{
    assert(!mapping::claim_matches(name, filters[name], claims));
}

/// A filter that lists values accepts a claim exactly when one of the listed values, as a
/// filter of its own, does; values that are lists themselves are left out.
pub proof fn law_any_of(allowed: Seq<JsonValue>, claim: JsonValue)
    requires
        forall|i: int| 0 <= i < allowed.len() ==> !(#[trigger] allowed[i] is List),
    ensures
        mapping::filter_matches(JsonValue::List(allowed), claim) <==> exists|i: int|
            0 <= i < allowed.len() && mapping::filter_matches(#[trigger] allowed[i], claim),
{
    if mapping::filter_matches(JsonValue::List(allowed), claim) {
        let i = choose|i: int| 0 <= i < allowed.len() && allowed[i] == claim;
        assert(mapping::filter_matches(allowed[i], claim));
    }
}

/// A refusal does not tell how the mappings are configured: whatever the filters ask for,
/// claims that fail them are refused in the same words, and so are tokens that fall under
/// none of a provider's mappings.
pub proof fn law_refusals_do_not_tell(
    filters_a: JsonValue,
    filters_b: JsonValue,
    mappings_a: Seq<CiOidcIdentityMapping>,
    mappings_b: Seq<CiOidcIdentityMapping>,
)
    requires
        filters_a is Members,
        filters_b is Members,
        mappings_a.len() > 0,
        mappings_b.len() > 0,
    ensures
        mapping::policy_refusal(filters_a) == mapping::policy_refusal(filters_b),
        mapping::mapping_refusal(mappings_a) == mapping::mapping_refusal(mappings_b),
{
}

/// The account of a mapping is the same whatever provider, project or branch the token is
/// from: its username and its address depend on the mapping alone.
pub proof fn law_stable_account(
    a: FederatedCredentials,
    b: FederatedCredentials,
    provider_a: CiOidcProvider,
    provider_b: CiOidcProvider,
    mapping: CiOidcIdentityMapping,
    changed: CiOidcIdentityMapping,
    claims_a: JsonValue,
    claims_b: JsonValue,
)
    requires
        mapping.id == changed.id,
        identity::stands_for(a, provider_a, mapping, claims_a),
        identity::stands_for(b, provider_b, changed, claims_b),
    ensures
        a.username@ == b.username@,
        a.email@ == b.email@,
{
}

/// The first 32 bits of a UUID.
pub open spec fn leading_bits(id: Uuid) -> int {
    id.0 as int / 0x1_0000_0000_0000_0000_0000_0000
}

proof fn lemma_powers_of_sixteen()
    ensures
        vstd::arithmetic::power::pow(16, 0) == 1,
        vstd::arithmetic::power::pow(16, 1) == 0x10,
        vstd::arithmetic::power::pow(16, 2) == 0x100,
        vstd::arithmetic::power::pow(16, 3) == 0x1000,
        vstd::arithmetic::power::pow(16, 4) == 0x1_0000,
        vstd::arithmetic::power::pow(16, 5) == 0x10_0000,
        vstd::arithmetic::power::pow(16, 6) == 0x100_0000,
        vstd::arithmetic::power::pow(16, 7) == 0x1000_0000,
        vstd::arithmetic::power::pow(16, 24) == 0x1_0000_0000_0000_0000_0000_0000,
{
    reveal(vstd::arithmetic::power::pow);
    vstd::arithmetic::power::lemma_pow0(16);
    vstd::arithmetic::power::lemma_pow1(16);
    vstd::arithmetic::power::lemma_pow_adds(16, 1, 1);
    vstd::arithmetic::power::lemma_pow_adds(16, 2, 1);
    vstd::arithmetic::power::lemma_pow_adds(16, 2, 2);
    vstd::arithmetic::power::lemma_pow_adds(16, 4, 1);
    vstd::arithmetic::power::lemma_pow_adds(16, 4, 2);
    vstd::arithmetic::power::lemma_pow_adds(16, 4, 3);
    vstd::arithmetic::power::lemma_pow_adds(16, 4, 4);
    let eighth = vstd::arithmetic::power::pow(16, 8);
    let sixteenth = vstd::arithmetic::power::pow(16, 16);
    assert(eighth == 0x1_0000_0000);
    vstd::arithmetic::power::lemma_pow_adds(16, 8, 8);
    assert(sixteenth == 0x1_0000_0000_0000_0000) by (nonlinear_arith)
        requires
            sixteenth == eighth * eighth,
            eighth == 0x1_0000_0000,
    ;
    vstd::arithmetic::power::lemma_pow_adds(16, 16, 8);
    assert(sixteenth * eighth == 0x1_0000_0000_0000_0000_0000_0000) by (nonlinear_arith)
        requires
            sixteenth == 0x1_0000_0000_0000_0000,
            eighth == 0x1_0000_0000,
    ;
}

/// The hexadecimal digit at a place among eight, counted from the left.
spec fn digit_of(number: int, place: int) -> int {
    (number / vstd::arithmetic::power::pow(16, (7 - place) as nat)) % 16
}

/// Where two numbers agree down to a digit and in the next digit, they agree down to that
/// one.
proof fn lemma_next_digit(x: int, y: int, unit: int)
    requires
        0 <= x,
        0 <= y,
        0 < unit,
        x / (unit * 16) == y / (unit * 16),
        (x / unit) % 16 == (y / unit) % 16,
    ensures
        x / unit == y / unit,
{
    vstd::arithmetic::div_mod::lemma_div_denominator(x, unit, 16);
    vstd::arithmetic::div_mod::lemma_div_denominator(y, unit, 16);
}

/// Two numbers of eight hexadecimal digits are equal where their digits are.
proof fn lemma_digits_decide(x: int, y: int, place: int)
    requires
        0 <= x < 0x1_0000_0000,
        0 <= y < 0x1_0000_0000,
        0 <= place < 8,
        forall|p: int| 0 <= p < 8 ==> #[trigger] digit_of(x, p) == digit_of(y, p),
    ensures
        x / vstd::arithmetic::power::pow(16, (7 - place) as nat) == y
            / vstd::arithmetic::power::pow(16, (7 - place) as nat),
    decreases place,
{
    let unit = vstd::arithmetic::power::pow(16, (7 - place) as nat);
    vstd::arithmetic::power::lemma_pow_positive(16, (7 - place) as nat);
    vstd::arithmetic::power::lemma_pow_adds(16, (7 - place) as nat, 1);
    vstd::arithmetic::power::lemma_pow1(16);
    assert(digit_of(x, place) == digit_of(y, place));
    if place == 0 {
        lemma_powers_of_sixteen();
        vstd::arithmetic::div_mod::lemma_basic_div(x, 0x1_0000_0000);
        vstd::arithmetic::div_mod::lemma_basic_div(y, 0x1_0000_0000);
    } else {
        lemma_digits_decide(x, y, place - 1);
    }
    lemma_next_digit(x, y, unit);
}

/// The first eight digits are the digits of the leading bits.
proof fn lemma_leading_digit(id: Uuid, place: int)
    requires
        0 <= place < 8,
    ensures
        uuid::hex_digit(id, place) == digit_of(leading_bits(id), place),
{
    lemma_powers_of_sixteen();
    let rest = vstd::arithmetic::power::pow(16, (7 - place) as nat);
    vstd::arithmetic::power::lemma_pow_adds(16, 24, (7 - place) as nat);
    vstd::arithmetic::power::lemma_pow_positive(16, (7 - place) as nat);
    vstd::arithmetic::div_mod::lemma_div_denominator(
        id.0 as int,
        0x1_0000_0000_0000_0000_0000_0000,
        rest,
    );
}

/// Two mappings share an account name exactly when the first 32 bits of their identifiers
/// agree.
pub proof fn law_distinct_accounts(a: Uuid, b: Uuid)
    ensures
        identity::username(a) == identity::username(b) <==> leading_bits(a) == leading_bits(b),
{
    let short_a = uuid::short_id(a);
    let short_b = uuid::short_id(b);
    if leading_bits(a) == leading_bits(b) {
        assert forall|place: int| 0 <= place < 8 implies short_a[place] == short_b[place] by {
            lemma_leading_digit(a, place);
            lemma_leading_digit(b, place);
        }
        assert(short_a =~= short_b);
    }
    if identity::username(a) == identity::username(b) {
        let prefix = "ci-"@;
        assert(short_a =~= identity::username(a).skip(prefix.len() as int));
        assert(short_b =~= identity::username(b).skip(prefix.len() as int));
        assert forall|place: int| 0 <= place < 8 implies uuid::hex_digit(a, place)
            == uuid::hex_digit(b, place) by {
            assert(short_a[place] == short_b[place]);
        }
        lemma_powers_of_sixteen();
        assert forall|place: int| 0 <= place < 8 implies #[trigger] digit_of(
            leading_bits(a),
            place,
        ) == digit_of(leading_bits(b), place) by {
            lemma_leading_digit(a, place);
            lemma_leading_digit(b, place);
        }
        lemma_digits_decide(leading_bits(a), leading_bits(b), 7);
    }
}

/// A token that is not empty is read back from the header that carries it.
pub proof fn law_bearer_carries_token(jwt: Seq<char>)
    requires
        jwt.len() > 0,
    ensures
        bearer::bearer_token(Some("Bearer "@ + jwt)) == Ok::<Seq<char>, ErrorValue>(jwt),
{
    let scheme = "Bearer "@;
    assert(scheme.is_prefix_of(scheme + jwt));
    assert((scheme + jwt).skip(scheme.len() as int) =~= jwt);
}

/// Keys that were fetched less than five minutes ago are used again.
pub proof fn law_kept_keys_are_used(
    kept: Map<Seq<char>, KeptKeys>,
    uri: Seq<char>,
    keys: JsonValue,
    fetched_at: int,
    now: int,
)
    requires
        discovery::elapsed(fetched_at, now) < discovery::JWKS_CACHE_TTL_NANOS,
    ensures
        discovery::fresh_keys(kept.insert(uri, KeptKeys { keys, fetched_at }), uri, now) == Some(
            keys,
        ),
{
}

/// Keys that were fetched five minutes ago or earlier are not used any more.
pub proof fn law_kept_keys_expire(
    kept: Map<Seq<char>, KeptKeys>,
    uri: Seq<char>,
    keys: JsonValue,
    fetched_at: int,
    now: int,
)
    requires
        discovery::elapsed(fetched_at, now) >= discovery::JWKS_CACHE_TTL_NANOS,
    ensures
        discovery::fresh_keys(kept.insert(uri, KeptKeys { keys, fetched_at }), uri, now) is None,
{
}

/// Fetching the keys of one address leaves the keys of every other as they were.
pub proof fn law_addresses_are_independent(
    kept: Map<Seq<char>, KeptKeys>,
    uri: Seq<char>,
    other: Seq<char>,
    fetched: KeptKeys,
    now: int,
)
    requires
        uri != other,
    ensures
        discovery::fresh_keys(kept.insert(uri, fetched), other, now) == discovery::fresh_keys(
            kept,
            other,
            now,
        ),
{
}

/// Slashes at the end of an issuer's address do not change where its discovery document is
/// found.
pub proof fn law_trailing_slash(issuer_url: Seq<char>)
    ensures
        discovery::discovery_location(issuer_url.push('/')) == discovery::discovery_location(
            issuer_url,
        ),
{
    assert(issuer_url.push('/').drop_last() =~= issuer_url);
}

/// Where some key bears the name in a token's header, the token is checked with the first
/// that does.
pub proof fn law_named_key_is_used(keys: Seq<JsonValue>, kid: Seq<char>, bearer: int)
    requires
        0 <= bearer < keys.len(),
        token::key_named(keys[bearer], kid),
    ensures
        token::first_named(keys, kid, token::key_place(keys, Some(kid))),
    decreases bearer,
{
    if exists|i: int| 0 <= i < bearer && token::key_named(#[trigger] keys[i], kid) {
        let earlier = choose|i: int| 0 <= i < bearer && token::key_named(#[trigger] keys[i], kid);
        law_named_key_is_used(keys, kid, earlier);
    } else {
        assert(token::first_named(keys, kid, bearer));
    }
}

/// Where no key bears the name in a token's header, the token is checked with the first key
/// of the set, as one without a name is.
pub proof fn law_first_key_stands_in(keys: Seq<JsonValue>, kid: Seq<char>)
    requires
        forall|i: int| 0 <= i < keys.len() ==> !token::key_named(#[trigger] keys[i], kid),
    ensures
        token::key_place(keys, Some(kid)) == 0,
        token::selected_key(keys, Some(kid)) == token::selected_key(keys, None),
{
    assert forall|at: int| !token::first_named(keys, kid, at) by {
        if 0 <= at < keys.len() {
            assert(!token::key_named(keys[at], kid));
        }
    }
}

/// No key set makes a token acceptable that is signed with a shared secret.
pub proof fn law_no_shared_secrets(header: token::TokenHeaderValue, jwks: JsonValue)
    requires
        header.alg is HS256 || header.alg is HS384 || header.alg is HS512,
    ensures
        token::check_for_header(header, jwks) is Err,
{
}

/// Whenever a token is accepted under a key set, its claims are the same.
pub proof fn law_accepted_claims_agree(
    jwks: JsonValue,
    jwt: Seq<char>,
    provider: CiOidcProvider,
    first: JsonValue,
    second: JsonValue,
)
    requires
        exchange::vouches(jwks, jwt, provider, first),
        exchange::vouches(jwks, jwt, provider, second),
    ensures
        first == second,
{
}

/// Two checks of one token at one time, against one provider and one key set, come to the
/// same.  The provider's mappings play no part.
pub proof fn law_checks_at_one_time_agree(
    jwks: JsonValue,
    jwt: Seq<char>,
    provider: CiOidcProvider,
    now: u64,
    first: Result<Json, AppError>,
    second: Result<Json, AppError>,
)
    requires
        token::verdict_value(first) == token::token_verdict(jwt, jwks, provider, now),
        token::verdict_value(second) == token::token_verdict(jwt, jwks, provider, now),
    ensures
        token::verdict_value(first) == token::verdict_value(second),
        first is Ok <==> second is Ok,
{
}

/// A token whose signature and claims pass at the time of the check, and whose claims name the
/// provider's issuer and its audience, is accepted with these claims.
pub proof fn law_right_token_is_accepted(
    jwks: JsonValue,
    jwt: Seq<char>,
    provider: CiOidcProvider,
    key: jsonwebtoken::DecodingKey,
    alg: token::Algorithm,
    claims: JsonValue,
    now: u64,
    verdict: Result<Json, AppError>,
)
    requires
        token::check_for_token(jwt, jwks) == Ok::<
            (jsonwebtoken::DecodingKey, token::Algorithm),
            ErrorValue,
        >((key, alg)),
        token::decoded_at(jwt, key, alg, provider.audience@, provider.issuer_url@, now) == Ok::<
            JsonValue,
            jsonwebtoken::errors::Error,
        >(claims),
        token::addressed(claims, provider),
        token::verdict_value(verdict) == token::token_verdict(jwt, jwks, provider, now),
    ensures
        verdict matches Ok(accepted) && accepted.value() == claims,
{
}

/// An accepted token names the provider's issuer and its audience, each by itself or in a
/// list.
pub proof fn law_accepted_token_is_addressed(
    jwks: JsonValue,
    jwt: Seq<char>,
    provider: CiOidcProvider,
    claims: JsonValue,
)
    requires
        exchange::vouches(jwks, jwt, provider, claims),
    ensures
        json::has_member(claims, "iss"@),
        json::has_member(claims, "aud"@),
        token::claim_names(json::member_value(claims, "iss"@), provider.issuer_url@),
        token::claim_names(json::member_value(claims, "aud"@), provider.audience@),
{
}

/// A provider with the given columns.
pub open spec fn provider_with(
    provider: CiOidcProvider,
    columns: ProviderColumns,
) -> CiOidcProvider {
    CiOidcProvider {
        name: columns.name,
        provider_type: columns.provider_type,
        issuer_url: columns.issuer_url,
        audience: columns.audience,
        is_enabled: columns.is_enabled,
        ..provider
    }
}

/// A mapping with the given columns.
pub open spec fn mapping_with(
    mapping: CiOidcIdentityMapping,
    columns: MappingColumns,
) -> CiOidcIdentityMapping {
    CiOidcIdentityMapping {
        name: columns.name,
        priority: columns.priority,
        claim_filters: columns.claim_filters,
        role_id: columns.role_id,
        allowed_repo_ids: columns.allowed_repo_ids,
        is_enabled: columns.is_enabled,
        ..mapping
    }
}

/// A request that names nothing leaves a provider as it is.
pub proof fn law_empty_provider_update(
    existing: CiOidcProvider,
    req: UpdateCiOidcProviderRequest,
)
    requires
        req.name is None,
        req.provider_type is None,
        req.issuer_url is None,
        req.audience is None,
        req.is_enabled is None,
    ensures
        provider_with(existing, service::updated_provider(existing, req)) == existing,
{
}

/// A request that names nothing leaves a mapping as it is.
pub proof fn law_empty_mapping_update(
    existing: CiOidcIdentityMapping,
    req: UpdateCiOidcMappingRequest,
)
    requires
        req.name is None,
        req.priority is None,
        req.claim_filters is None,
        req.role_id is None,
        req.allowed_repo_ids is None,
        req.is_enabled is None,
    ensures
        mapping_with(existing, service::updated_mapping(existing, req)) == existing,
{
}

/// Making the same change twice comes to the same as making it once.
pub proof fn law_updates_are_idempotent(
    provider: CiOidcProvider,
    provider_req: UpdateCiOidcProviderRequest,
    mapping: CiOidcIdentityMapping,
    mapping_req: UpdateCiOidcMappingRequest,
)
    ensures
        service::updated_provider(
            provider_with(provider, service::updated_provider(provider, provider_req)),
            provider_req,
        ) == service::updated_provider(provider, provider_req),
        service::updated_mapping(
            mapping_with(mapping, service::updated_mapping(mapping, mapping_req)),
            mapping_req,
        ) == service::updated_mapping(mapping, mapping_req),
{
}

/// A change never takes a mapping's role or its repository scope away.
pub proof fn law_updates_keep_restrictions(
    existing: CiOidcIdentityMapping,
    req: UpdateCiOidcMappingRequest,
)
    ensures
        existing.role_id is Some ==> service::updated_mapping(existing, req).role_id is Some,
        existing.allowed_repo_ids is Some ==> service::updated_mapping(
            existing,
            req,
        ).allowed_repo_ids is Some,
{
}

} // verus!
