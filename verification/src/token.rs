//! When a CI token is accepted.

use crate::error::{AppError, ErrorValue};
use crate::json;
use crate::json::{Json, JsonValue};
use crate::model::CiOidcProvider;
use crate::service::CiOidcService;
use crate::text::join2;
use jsonwebtoken::errors::Error as JwtError;
use jsonwebtoken::Algorithm as Jwa;
use jsonwebtoken::DecodingKey;
use vstd::prelude::*;

verus! {

/// An error of the `jsonwebtoken` crate.
#[verifier::external_type_specification]
#[verifier::external_body]
pub struct ExJwtError(jsonwebtoken::errors::Error);

/// A key that the `jsonwebtoken` crate checks signatures with.
#[verifier::external_type_specification]
#[verifier::external_body]
pub struct ExDecodingKey(jsonwebtoken::DecodingKey);

/// The algorithms that a token header can name.
#[derive(Debug, Clone, Copy, PartialEq, Eq, Structural)]
pub enum Algorithm {
    HS256,
    HS384,
    HS512,
    ES256,
    ES384,
    RS256,
    RS384,
    RS512,
    PS256,
    PS384,
    PS512,
    EdDSA,
}

/// What is read of a token's header.
#[derive(Debug, PartialEq, Eq)]
pub struct TokenHeader {
    /// The algorithm that the token is signed with.
    pub alg: Algorithm,
    /// The name of the key that it is signed with.
    pub kid: Option<String>,
}

/// The mathematical value of a [`TokenHeader`].
pub struct TokenHeaderValue {
    pub alg: Algorithm,
    pub kid: Option<Seq<char>>,
}

impl View for TokenHeader {
    type V = TokenHeaderValue;

    open spec fn view(&self) -> TokenHeaderValue {
        TokenHeaderValue {
            alg: self.alg,
            kid: match self.kid {
                Some(kid) => Some(kid@),
                None => None,
            },
        }
    }
}

/// What an error of the `jsonwebtoken` crate reads as (`Display for
/// jsonwebtoken::errors::Error`).
pub uninterp spec fn jwt_error_text(error: JwtError) -> Seq<char>;

/// `Display for jsonwebtoken::errors::Error`, reached through `to_string`.
#[verifier::external_body]
fn error_text(error: &JwtError) -> (text: String)
    ensures
        text@ == jwt_error_text(*error),
{
    error.to_string()
}

/// What `jsonwebtoken::decode_header` reads from a token.
pub uninterp spec fn jwt_header(token: Seq<char>) -> Result<TokenHeaderValue, JwtError>;

/// `jsonwebtoken::decode_header`: reads the header of a token without checking anything
/// else.  What it reads, or the error, is decided by the token alone.
#[verifier::external_body]
fn decode_header(token: &str) -> (header: Result<TokenHeader, JwtError>)
    ensures
        match header {
            Ok(header) => jwt_header(token@) == Ok::<TokenHeaderValue, JwtError>(header@),
            Err(error) => jwt_header(token@) == Err::<TokenHeaderValue, JwtError>(error),
        },
{
    let header = jsonwebtoken::decode_header(token)?;
    let alg = match header.alg {
        Jwa::HS256 => Algorithm::HS256, Jwa::HS384 => Algorithm::HS384, Jwa::HS512 => Algorithm::HS512,
        Jwa::ES256 => Algorithm::ES256, Jwa::ES384 => Algorithm::ES384,
        Jwa::RS256 => Algorithm::RS256, Jwa::RS384 => Algorithm::RS384, Jwa::RS512 => Algorithm::RS512,
        Jwa::PS256 => Algorithm::PS256, Jwa::PS384 => Algorithm::PS384, Jwa::PS512 => Algorithm::PS512,
        Jwa::EdDSA => Algorithm::EdDSA,
    };
    Ok(TokenHeader { alg, kid: header.kid })
}

/// What `DecodingKey::from_rsa_components` makes of a modulus and an exponent.
pub uninterp spec fn rsa_key(n: Seq<char>, e: Seq<char>) -> Result<DecodingKey, JwtError>;

/// `jsonwebtoken::DecodingKey::from_rsa_components`: the key with this modulus and this
/// exponent, both in URL-safe base64, or the error that the encoding gives.
#[verifier::external_body]
fn key_from_rsa(n: &str, e: &str) -> (key: Result<DecodingKey, JwtError>)
    ensures
        key == rsa_key(n@, e@),
{
    DecodingKey::from_rsa_components(n, e)
}

/// What `DecodingKey::from_ec_components` makes of the two coordinates of a point.
pub uninterp spec fn ec_key(x: Seq<char>, y: Seq<char>) -> Result<DecodingKey, JwtError>;

/// `jsonwebtoken::DecodingKey::from_ec_components`: the key at the point with these
/// coordinates, both in URL-safe base64, or the error that the encoding gives.
#[verifier::external_body]
fn key_from_ec(x: &str, y: &str) -> (key: Result<DecodingKey, JwtError>)
    ensures
        key == ec_key(x@, y@),
{
    DecodingKey::from_ec_components(x, y)
}

/// What `jsonwebtoken::decode` gives for a token, a key and an algorithm, an audience and an
/// issuer, when the clock stands at a number of seconds since the Unix epoch: the claims, or
/// the error.
pub uninterp spec fn decoded_at(
    token: Seq<char>,
    key: DecodingKey,
    alg: Algorithm,
    audience: Seq<char>,
    issuer: Seq<char>,
    now: u64,
) -> Result<JsonValue, JwtError>;

/// What an outcome of `jsonwebtoken::decode` holds.
pub open spec fn outcome_value(outcome: Result<serde_json::Value, JwtError>) -> Result<
    JsonValue,
    JwtError,
> {
    match outcome {
        Ok(claims) => Ok(json::parsed_value(claims)),
        Err(error) => Err(error),
    }
}

/// The bits of the double that is two to the power of sixty-four.
pub const PAST_U64: u64 = 0x43f0_0000_0000_0000;

/// Whether the claims name an expiry: a number, whole or not, that is not negative and, where
/// it is a double, lies below the sixty-fourth power of two.
pub open spec fn claims_expire(claims: JsonValue) -> bool {
    match json::member_value(claims, "exp"@) {
        JsonValue::Number(json::JsonNumber::PosInt(_)) => true,
        JsonValue::Number(json::JsonNumber::Float(bits)) => bits < PAST_U64,
        _ => false,
    }
}

/// `jsonwebtoken::decode` under a `Validation` for one algorithm, one audience and one
/// issuer.  The outcome is decided by the arguments and by the clock, which the call reads
/// once.  The clock decides only whether a token is accepted: its claims are the same at every
/// time at which it is.  An object of accepted claims names an expiry.  The call compares the
/// audience and the issuer only where they have a form that it knows, so nothing is said here
/// of what the accepted claims hold of them, nor of what the clock is.
#[verifier::external_body]
fn decode_token(
    token: &str,
    key: &DecodingKey,
    alg: Algorithm,
    audience: &str,
    issuer: &str,
) -> (outcome: Result<serde_json::Value, JwtError>)
    ensures
        exists|now: u64|
            #[trigger] decoded_at(token@, *key, alg, audience@, issuer@, now) == outcome_value(
                outcome,
            ),
        outcome matches Ok(claims) ==> forall|later: u64|
            (#[trigger] decoded_at(token@, *key, alg, audience@, issuer@, later)) matches Ok(
                other,
            ) ==> other == json::parsed_value(claims),
        outcome matches Ok(claims) ==> json::parsed_value(claims) is Members ==> claims_expire(
            json::parsed_value(claims),
        ),
{
    let mut validation = jsonwebtoken::Validation::new(match alg {
        Algorithm::HS256 => Jwa::HS256, Algorithm::HS384 => Jwa::HS384,
        Algorithm::HS512 => Jwa::HS512, Algorithm::EdDSA => Jwa::EdDSA,
        Algorithm::ES256 => Jwa::ES256, Algorithm::ES384 => Jwa::ES384,
        Algorithm::RS256 => Jwa::RS256, Algorithm::RS384 => Jwa::RS384,
        Algorithm::RS512 => Jwa::RS512, Algorithm::PS256 => Jwa::PS256,
        Algorithm::PS384 => Jwa::PS384, Algorithm::PS512 => Jwa::PS512,
    });
    validation.set_audience(&[audience]);
    validation.set_issuer(&[issuer]);
    Ok(jsonwebtoken::decode(token, key, &validation)?.claims)
}

/// What a public key is made of.
#[derive(Debug, PartialEq, Eq)]
pub enum JwkMaterial {
    /// An RSA modulus and exponent.
    Rsa { n: String, e: String },
    /// The coordinates of a point on an elliptic curve.
    Ec { x: String, y: String },
}

/// The mathematical value of a [`JwkMaterial`].
pub enum MaterialValue {
    Rsa { n: Seq<char>, e: Seq<char> },
    Ec { x: Seq<char>, y: Seq<char> },
}

impl View for JwkMaterial {
    type V = MaterialValue;

    open spec fn view(&self) -> MaterialValue {
        match self {
            JwkMaterial::Rsa { n, e } => MaterialValue::Rsa { n: n@, e: e@ },
            JwkMaterial::Ec { x, y } => MaterialValue::Ec { x: x@, y: y@ },
        }
    }
}

/// Whether a key of the set bears a name.
pub open spec fn key_named(key: JsonValue, kid: Seq<char>) -> bool {
    json::member_text(key, "kid"@) == Some(kid)
}

/// Whether the key at a place is the first of the set that bears the name.
pub open spec fn first_named(keys: Seq<JsonValue>, kid: Seq<char>, at: int) -> bool {
    &&& 0 <= at < keys.len()
    &&& key_named(keys[at], kid)
    &&& forall|i: int| 0 <= i < at ==> !key_named(#[trigger] keys[i], kid)
}

/// Where the key stands that a name asks for: the first that bears it, and the first of
/// all where none does.
pub open spec fn named_place(keys: Seq<JsonValue>, kid: Seq<char>) -> int {
    if exists|at: int| first_named(keys, kid, at) {
        choose|at: int| first_named(keys, kid, at)
    } else {
        0
    }
}

/// Where the key stands that a token is checked with: the one that the name in the
/// token's header asks for, and the first of all where the header has no name.
pub open spec fn key_place(keys: Seq<JsonValue>, kid: Option<Seq<char>>) -> int {
    match kid {
        Some(kid) => named_place(keys, kid),
        None => 0,
    }
}

/// What a key of the set is made of, or how the set is refused for it.
pub open spec fn key_material(key: JsonValue) -> Result<MaterialValue, ErrorValue> {
    let kty = match json::member_text(key, "kty"@) {
        Some(kty) => kty,
        None => ""@,
    };
    if kty == "RSA"@ {
        match (json::member_text(key, "n"@), json::member_text(key, "e"@)) {
            (None, _) => Err(ErrorValue::Internal("JWK RSA missing 'n'"@)),
            (_, None) => Err(ErrorValue::Internal("JWK RSA missing 'e'"@)),
            (Some(n), Some(e)) => Ok(MaterialValue::Rsa { n, e }),
        }
    } else if kty == "EC"@ {
        match (json::member_text(key, "x"@), json::member_text(key, "y"@)) {
            (None, _) => Err(ErrorValue::Internal("JWK EC missing 'x'"@)),
            (_, None) => Err(ErrorValue::Internal("JWK EC missing 'y'"@)),
            (Some(x), Some(y)) => Ok(MaterialValue::Ec { x, y }),
        }
    } else {
        Err(ErrorValue::Internal("Unsupported JWK kty: "@ + kty))
    }
}

/// What the key is made of that a token is checked with, or how the set is refused.
pub open spec fn selected_material(keys: Seq<JsonValue>, kid: Option<Seq<char>>) -> Result<
    MaterialValue,
    ErrorValue,
> {
    if keys.len() == 0 {
        Err(ErrorValue::Internal("No matching JWK found"@))
    } else {
        key_material(keys[key_place(keys, kid)])
    }
}

/// The key that is made of the material, or how the material is refused.
pub open spec fn built_key(material: MaterialValue) -> Result<DecodingKey, ErrorValue> {
    match material {
        MaterialValue::Rsa { n, e } => match rsa_key(n, e) {
            Ok(key) => Ok(key),
            Err(error) => Err(ErrorValue::Internal("Invalid RSA JWK: "@ + jwt_error_text(error))),
        },
        MaterialValue::Ec { x, y } => match ec_key(x, y) {
            Ok(key) => Ok(key),
            Err(error) => Err(ErrorValue::Internal("Invalid EC JWK: "@ + jwt_error_text(error))),
        },
    }
}

/// The key that a token is checked with, or how the set is refused.
pub open spec fn selected_key(keys: Seq<JsonValue>, kid: Option<Seq<char>>) -> Result<
    DecodingKey,
    ErrorValue,
> {
    match selected_material(keys, kid) {
        Ok(material) => built_key(material),
        Err(error) => Err(error),
    }
}

/// An optional text by its characters.
pub open spec fn optional_text(text: Option<&str>) -> Option<Seq<char>> {
    match text {
        Some(text) => Some(text@),
        None => None,
    }
}

fn internal(message: &str) -> (error: AppError)
    ensures
        error@ == ErrorValue::Internal(message@),
{
    AppError::Internal(message.to_owned())
}

fn material_of(key: &Json) -> (material: Result<JwkMaterial, AppError>)
    ensures
        match material {
            Ok(material) => key_material(key.value()) == Ok::<MaterialValue, ErrorValue>(material@),
            Err(error) => key_material(key.value()) == Err::<MaterialValue, ErrorValue>(error@),
        },
{
    let kty = match key.get_str("kty") {
        Some(kty) => kty,
        None => "",
    };
    if *kty == *"RSA" {
        match (key.get_str("n"), key.get_str("e")) {
            (None, _) => Err(internal("JWK RSA missing 'n'")),
            (_, None) => Err(internal("JWK RSA missing 'e'")),
            (Some(n), Some(e)) => Ok(JwkMaterial::Rsa { n: n.to_owned(), e: e.to_owned() }),
        }
    } else if *kty == *"EC" {
        match (key.get_str("x"), key.get_str("y")) {
            (None, _) => Err(internal("JWK EC missing 'x'")),
            (_, None) => Err(internal("JWK EC missing 'y'")),
            (Some(x), Some(y)) => Ok(JwkMaterial::Ec { x: x.to_owned(), y: y.to_owned() }),
        }
    } else {
        Err(AppError::Internal(join2("Unsupported JWK kty: ", kty)))
    }
}

fn named_key_place(keys: &Vec<Json>, kid: &str) -> (at: usize)
    requires
        keys@.len() > 0,
    ensures
        at == key_place(json::item_values(keys@), Some(kid@)),
        at < keys@.len(),
{
    let ghost values = json::item_values(keys@);
    let mut i: usize = 0;
    while i < keys.len()
        invariant
            i <= keys@.len(),
            values == json::item_values(keys@),
            forall|j: int| 0 <= j < i ==> !key_named(#[trigger] values[j], kid@),
        decreases keys@.len() - i,
    {
        let named: bool = match keys[i].get_str("kid") {
            Some(name) => *name == *kid,
            None => false,
        };
        assert(values[i as int] == keys@[i as int].value());
        if named {
            proof {
                assert(first_named(values, kid@, i as int));
                let at = named_place(values, kid@);
                assert(first_named(values, kid@, at));
                assert(key_named(values[at], kid@));
            }
            return i;
        }
        i += 1;
    }
    assert forall|at: int| !first_named(values, kid@, at) by {
        if 0 <= at < values.len() {
            assert(!key_named(values[at], kid@));
        }
    }
    0
}

impl CiOidcService {
    /// What the key is made of that a token is checked with.
    pub fn select_jwk(keys: &Vec<Json>, kid: Option<&str>) -> (material: Result<
        JwkMaterial,
        AppError,
    >)
        ensures
            match material {
                Ok(material) => selected_material(json::item_values(keys@), optional_text(kid))
                    == Ok::<MaterialValue, ErrorValue>(material@),
                Err(error) => selected_material(json::item_values(keys@), optional_text(kid))
                    == Err::<MaterialValue, ErrorValue>(error@),
            },
    {
        if keys.len() == 0 {
            return Err(internal("No matching JWK found"));
        }
        let at: usize = match kid {
            Some(kid) => named_key_place(keys, kid),
            None => 0,
        };
        material_of(&keys[at])
    }

    /// The key that is made of the material.
    pub fn build_key(material: &JwkMaterial) -> (key: Result<DecodingKey, AppError>)
        ensures
            match key {
                Ok(key) => built_key(material@) == Ok::<DecodingKey, ErrorValue>(key),
                Err(error) => built_key(material@) == Err::<DecodingKey, ErrorValue>(error@),
            },
    {
        match material {
            JwkMaterial::Rsa { n, e } => match key_from_rsa(n.as_str(), e.as_str()) {
                Ok(key) => Ok(key),
                Err(error) => Err(
                    AppError::Internal(join2("Invalid RSA JWK: ", error_text(&error).as_str())),
                ),
            },
            JwkMaterial::Ec { x, y } => match key_from_ec(x.as_str(), y.as_str()) {
                Ok(key) => Ok(key),
                Err(error) => Err(
                    AppError::Internal(join2("Invalid EC JWK: ", error_text(&error).as_str())),
                ),
            },
        }
    }

    /// The key that a token is checked with.
    pub fn select_jwk_key(keys: &Vec<Json>, kid: Option<&str>) -> (key: Result<
        DecodingKey,
        AppError,
    >)
        ensures
            match key {
                Ok(key) => selected_key(json::item_values(keys@), optional_text(kid)) == Ok::<
                    DecodingKey,
                    ErrorValue,
                >(key),
                Err(error) => selected_key(json::item_values(keys@), optional_text(kid)) == Err::<
                    DecodingKey,
                    ErrorValue,
                >(error@),
            },
    {
        match Self::select_jwk(keys, kid) {
            Ok(material) => Self::build_key(&material),
            Err(error) => Err(error),
        }
    }
}

/// Whether tokens signed with an algorithm are accepted: those with a key pair, other than
/// the Edwards curves.  A shared secret is never accepted.
pub open spec fn supported(alg: Algorithm) -> bool {
    !(alg is HS256 || alg is HS384 || alg is HS512 || alg is EdDSA)
}

/// The name of an algorithm.
pub open spec fn algorithm_name(alg: Algorithm) -> Seq<char> {
    match alg {
        Algorithm::HS256 => "HS256"@,
        Algorithm::HS384 => "HS384"@,
        Algorithm::HS512 => "HS512"@,
        Algorithm::ES256 => "ES256"@,
        Algorithm::ES384 => "ES384"@,
        Algorithm::RS256 => "RS256"@,
        Algorithm::RS384 => "RS384"@,
        Algorithm::RS512 => "RS512"@,
        Algorithm::PS256 => "PS256"@,
        Algorithm::PS384 => "PS384"@,
        Algorithm::PS512 => "PS512"@,
        Algorithm::EdDSA => "EdDSA"@,
    }
}

/// How a token is refused whose header cannot be read.
pub open spec fn header_refused(error: JwtError) -> ErrorValue {
    ErrorValue::Authentication("Invalid CI JWT header: "@ + jwt_error_text(error))
}

/// How a token is refused whose algorithm is not accepted.
pub open spec fn algorithm_refused(alg: Algorithm) -> ErrorValue {
    ErrorValue::Authentication("Unsupported CI JWT algorithm: "@ + algorithm_name(alg))
}

/// How a token is refused that fails the check of its signature and claims.
pub open spec fn token_refused(error: JwtError) -> ErrorValue {
    ErrorValue::Authentication("CI JWT validation failed: "@ + jwt_error_text(error))
}

/// Whether an audience or issuer claim names a party: it is the name, or an array that holds
/// it.
pub open spec fn claim_names(claim: JsonValue, name: Seq<char>) -> bool {
    match claim {
        JsonValue::Text(text) => text == name,
        JsonValue::List(items) => items.contains(JsonValue::Text(name)),
        _ => false,
    }
}

/// Whether the claims name the provider's issuer and its audience.
pub open spec fn addressed(claims: JsonValue, provider: CiOidcProvider) -> bool {
    &&& claim_names(json::member_value(claims, "iss"@), provider.issuer_url@)
    &&& claim_names(json::member_value(claims, "aud"@), provider.audience@)
}

/// How a token is refused whose claims do not name the provider's issuer and its audience.
pub open spec fn address_refused(claims: JsonValue, provider: CiOidcProvider) -> ErrorValue {
    if claim_names(json::member_value(claims, "iss"@), provider.issuer_url@) {
        ErrorValue::Authentication("CI JWT validation failed: "@ + "InvalidAudience"@)
    } else {
        ErrorValue::Authentication("CI JWT validation failed: "@ + "InvalidIssuer"@)
    }
}

/// What the check of a token comes to at a time, with a key and an algorithm: its claims, where
/// its signature and claims pass and the claims name the provider's issuer and its audience;
/// else how it is refused.
pub open spec fn verdict_at(
    token: Seq<char>,
    key: DecodingKey,
    alg: Algorithm,
    provider: CiOidcProvider,
    now: u64,
) -> Result<JsonValue, ErrorValue> {
    match decoded_at(token, key, alg, provider.audience@, provider.issuer_url@, now) {
        Err(reason) => Err(token_refused(reason)),
        Ok(claims) => if addressed(claims, provider) {
            Ok(claims)
        } else {
            Err(address_refused(claims, provider))
        },
    }
}

/// What the check of a token comes to at a time, under a provider's key set.
pub open spec fn token_verdict(
    token: Seq<char>,
    jwks: JsonValue,
    provider: CiOidcProvider,
    now: u64,
) -> Result<JsonValue, ErrorValue> {
    match check_for_token(token, jwks) {
        Err(refusal) => Err(refusal),
        Ok((key, alg)) => verdict_at(token, key, alg, provider, now),
    }
}

/// What a verdict holds.
pub open spec fn verdict_value(verdict: Result<Json, AppError>) -> Result<JsonValue, ErrorValue> {
    match verdict {
        Ok(claims) => Ok(claims.value()),
        Err(error) => Err(error@),
    }
}

/// Whether claims are those of a token: the token is accepted with them at some time, and
/// whenever it is accepted these are its claims.
pub open spec fn signed_claims(
    token: Seq<char>,
    key: DecodingKey,
    alg: Algorithm,
    provider: CiOidcProvider,
    claims: JsonValue,
) -> bool {
    &&& exists|now: u64| #[trigger]
        verdict_at(token, key, alg, provider, now) == Ok::<JsonValue, ErrorValue>(claims)
    &&& forall|now: u64|
        (#[trigger] verdict_at(token, key, alg, provider, now)) matches Ok(other) ==> other
            == claims
}

/// What holds of every accepted token: it is signed with the key and an accepted algorithm,
/// these are its claims, they name an expiry, and they name the provider's issuer and its
/// audience.
pub open spec fn claims_accepted(
    token: Seq<char>,
    key: DecodingKey,
    alg: Algorithm,
    provider: CiOidcProvider,
    claims: JsonValue,
) -> bool {
    &&& supported(alg)
    &&& signed_claims(token, key, alg, provider, claims)
    &&& claims_expire(claims)
    &&& addressed(claims, provider)
}

/// Whether a refusal says that the check of a token's signature and claims failed.
pub open spec fn validation_failed(error: ErrorValue) -> bool {
    error matches ErrorValue::Authentication(message)
        && "CI JWT validation failed: "@.is_prefix_of(message)
}

/// The key and the algorithm that a token with this header is checked with, or how it is
/// refused before any check.
pub open spec fn check_for_header(header: TokenHeaderValue, jwks: JsonValue) -> Result<
    (DecodingKey, Algorithm),
    ErrorValue,
> {
    match json::member_value(jwks, "keys"@) {
        JsonValue::List(keys) => match selected_key(keys, header.kid) {
            Err(error) => Err(error),
            Ok(key) => if supported(header.alg) {
                Ok((key, header.alg))
            } else {
                Err(algorithm_refused(header.alg))
            },
        },
        _ => Err(ErrorValue::Internal("JWKS missing keys array"@)),
    }
}

/// The key and the algorithm that a token is checked with, or how it is refused before any
/// check.
pub open spec fn check_for_token(token: Seq<char>, jwks: JsonValue) -> Result<
    (DecodingKey, Algorithm),
    ErrorValue,
> {
    match jwt_header(token) {
        Err(error) => Err(header_refused(error)),
        Ok(header) => check_for_header(header, jwks),
    }
}

fn names_party(claim: Option<&Json>, name: &str) -> (named: bool)
    ensures
        named == match claim {
            Some(claim) => claim_names(claim.value(), name@),
            None => false,
        },
{
    match claim {
        Some(Json::String(text)) => *text.as_str() == *name,
        Some(Json::Array(items)) => {
            let ghost values = json::item_values(items@);
            proof {
                json::lemma_array_value(*items);
            }
            let mut i: usize = 0;
            #[verifier::loop_isolation(false)]
            while i < items.len()
                invariant
                    i <= items@.len(),
                    forall|j: int| 0 <= j < i ==> values[j] != JsonValue::Text(name@),
                decreases items@.len() - i,
            {
                assert(values[i as int] == items@[i as int].value());
                if let Some(text) = items[i].as_str() {
                    if *text == *name {
                        assert(values[i as int] == JsonValue::Text(name@));
                        return true;
                    }
                }
                i += 1;
            }
            false
        },
        _ => false,
    }
}

fn name_of(alg: Algorithm) -> (name: &'static str)
    ensures
        name@ == algorithm_name(alg),
{
    match alg {
        Algorithm::HS256 => "HS256",
        Algorithm::HS384 => "HS384",
        Algorithm::HS512 => "HS512",
        Algorithm::ES256 => "ES256",
        Algorithm::ES384 => "ES384",
        Algorithm::RS256 => "RS256",
        Algorithm::RS384 => "RS384",
        Algorithm::RS512 => "RS512",
        Algorithm::PS256 => "PS256",
        Algorithm::PS384 => "PS384",
        Algorithm::PS512 => "PS512",
        Algorithm::EdDSA => "EdDSA",
    }
}

impl CiOidcService {
    /// Lets tokens pass that are signed with an accepted algorithm.
    pub fn require_supported(alg: Algorithm) -> (passed: Result<(), AppError>)
        ensures
            passed is Ok <==> supported(alg),
            passed matches Err(error) ==> error@ == algorithm_refused(alg),
    {
        match alg {
            Algorithm::HS256 | Algorithm::HS384 | Algorithm::HS512 | Algorithm::EdDSA => Err(
                AppError::Authentication(join2("Unsupported CI JWT algorithm: ", name_of(alg))),
            ),
            _ => Ok(()),
        }
    }

    /// The keys of a key set.
    pub fn jwk_list(jwks: &Json) -> (keys: Result<&Vec<Json>, AppError>)
        ensures
            match keys {
                Ok(keys) => json::member_value(jwks.value(), "keys"@) == JsonValue::List(
                    json::item_values(keys@),
                ),
                Err(error) => !(json::member_value(jwks.value(), "keys"@) is List) && error@
                    == ErrorValue::Internal("JWKS missing keys array"@),
            },
    {
        match jwks.get("keys") {
            Some(Json::Array(keys)) => {
                proof {
                    json::lemma_array_value(*keys);
                }
                Ok(keys)
            },
            _ => Err(internal("JWKS missing keys array")),
        }
    }

    /// The key and the algorithm that a token with this header is checked with.
    pub fn plan_check(header: &TokenHeader, jwks: &Json) -> (plan: Result<
        (DecodingKey, Algorithm),
        AppError,
    >)
        ensures
            match plan {
                Ok(plan) => check_for_header(header@, jwks.value()) == Ok::<
                    (DecodingKey, Algorithm),
                    ErrorValue,
                >(plan),
                Err(error) => check_for_header(header@, jwks.value()) == Err::<
                    (DecodingKey, Algorithm),
                    ErrorValue,
                >(error@),
            },
    {
        let keys = match Self::jwk_list(jwks) {
            Ok(keys) => keys,
            Err(error) => return Err(error),
        };
        let kid: Option<&str> = match &header.kid {
            Some(kid) => Some(kid.as_str()),
            None => None,
        };
        let key = match Self::select_jwk_key(keys, kid) {
            Ok(key) => key,
            Err(error) => return Err(error),
        };
        match Self::require_supported(header.alg) {
            Ok(()) => Ok((key, header.alg)),
            Err(error) => Err(error),
        }
    }

    /// What the check of a token's header comes to, from what reading it gave.
    pub fn header_verdict(outcome: Result<TokenHeader, JwtError>) -> (verdict: Result<
        TokenHeader,
        AppError,
    >)
        ensures
            match outcome {
                Ok(header) => verdict == Ok::<TokenHeader, AppError>(header),
                Err(reason) => verdict matches Err(error) && error@ == header_refused(reason),
            },
    {
        match outcome {
            Ok(header) => Ok(header),
            Err(reason) => Err(
                AppError::Authentication(
                    join2("Invalid CI JWT header: ", error_text(&reason).as_str()),
                ),
            ),
        }
    }

    /// What the check of a token comes to, from what checking its signature and claims gave.
    pub fn claims_verdict(outcome: Result<serde_json::Value, JwtError>) -> (verdict: Result<
        Json,
        AppError,
    >)
        ensures
            match outcome {
                Ok(value) => verdict matches Ok(claims) && claims.value() == json::parsed_value(
                    value,
                ),
                Err(reason) => verdict matches Err(error) && error@ == token_refused(reason)
                    && validation_failed(error@),
            },
    {
        match outcome {
            Ok(value) => Ok(Json::from_parsed(value)),
            Err(reason) => {
                let prefix = "CI JWT validation failed: ";
                let text = error_text(&reason);
                assert(prefix@.is_prefix_of(prefix@ + text@));
                Err(AppError::Authentication(join2(prefix, text.as_str())))
            },
        }
    }

    /// Lets claims pass that name the provider's issuer and its audience.
    pub fn require_addressed(claims: Json, provider: &CiOidcProvider) -> (verdict: Result<
        Json,
        AppError,
    >)
        ensures
            match verdict {
                Ok(passed) => addressed(claims.value(), *provider) && passed == claims,
                Err(error) => {
                    &&& !addressed(claims.value(), *provider)
                    &&& error@ == address_refused(claims.value(), *provider)
                    &&& validation_failed(error@)
                },
            },
    {
        let prefix = "CI JWT validation failed: ";
        if !names_party(claims.get("iss"), provider.issuer_url.as_str()) {
            assert(prefix@.is_prefix_of(prefix@ + "InvalidIssuer"@));
            Err(AppError::Authentication(join2(prefix, "InvalidIssuer")))
        } else if !names_party(claims.get("aud"), provider.audience.as_str()) {
            assert(prefix@.is_prefix_of(prefix@ + "InvalidAudience"@));
            Err(AppError::Authentication(join2(prefix, "InvalidAudience")))
        } else {
            Ok(claims)
        }
    }

    /// What the check of a token comes to, from what checking its signature and claims gave:
    /// the claims, where they name the provider's issuer and its audience.
    pub fn check_verdict(
        outcome: Result<serde_json::Value, JwtError>,
        provider: &CiOidcProvider,
    ) -> (verdict: Result<Json, AppError>)
        ensures
            match outcome {
                Err(reason) => verdict matches Err(error) && error@ == token_refused(reason),
                Ok(value) => if addressed(json::parsed_value(value), *provider) {
                    verdict matches Ok(claims) && claims.value() == json::parsed_value(value)
                } else {
                    verdict matches Err(error) && error@ == address_refused(
                        json::parsed_value(value),
                        *provider,
                    )
                },
            },
            verdict matches Err(error) ==> validation_failed(error@),
    {
        match Self::claims_verdict(outcome) {
            Ok(claims) => Self::require_addressed(claims, provider),
            Err(error) => Err(error),
        }
    }

    /// The claims of a CI token, once its signature, audience and issuer have been held
    /// against the provider and its key set.  The verdict is the one that is due at some
    /// reading of the clock.
    pub fn validate_ci_jwt(provider: &CiOidcProvider, jwt_str: &str, jwks: &Json) -> (verdict:
        Result<Json, AppError>)
        ensures
            exists|now: u64| #[trigger]
                token_verdict(jwt_str@, jwks.value(), *provider, now) == verdict_value(verdict),
            match check_for_token(jwt_str@, jwks.value()) {
                Err(refusal) => verdict matches Err(error) && error@ == refusal,
                Ok((key, alg)) => match verdict {
                    Ok(claims) => claims_accepted(jwt_str@, key, alg, *provider, claims.value()),
                    Err(error) => validation_failed(error@),
                },
            },
    {
        let header = match Self::header_verdict(decode_header(jwt_str)) {
            Ok(header) => header,
            Err(error) => {
                assert(token_verdict(jwt_str@, jwks.value(), *provider, 0) is Err);
                return Err(error);
            },
        };
        let (key, alg) = match Self::plan_check(&header, jwks) {
            Ok(plan) => plan,
            Err(error) => {
                assert(token_verdict(jwt_str@, jwks.value(), *provider, 0) is Err);
                return Err(error);
            },
        };
        let outcome = decode_token(
            jwt_str,
            &key,
            alg,
            provider.audience.as_str(),
            provider.issuer_url.as_str(),
        );
        let verdict = Self::check_verdict(outcome, provider);
        proof {
            let audience = provider.audience@;
            let issuer = provider.issuer_url@;
            let now = choose|now: u64| #[trigger]
                decoded_at(jwt_str@, key, alg, audience, issuer, now) == outcome_value(outcome);
            assert(token_verdict(jwt_str@, jwks.value(), *provider, now) == verdict_value(verdict));
            assert(verdict_at(jwt_str@, key, alg, *provider, now) == verdict_value(verdict));
        }
        verdict
    }
}

} // verus!
