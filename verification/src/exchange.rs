//! The exchange of a CI token for a registry token, step by step.
//!
//! Each state says what is to be done next and takes what came of it:
//!
//! 1. [`LoadingProvider`]: read the provider.
//! 2. [`CheckingIssuer`]: check the address of the provider's issuer.
//! 3. [`Discovering`]: fetch the issuer's discovery document.
//! 4. [`FetchingKeys`]: fetch the issuer's key set; the token is then checked.
//! 5. [`ResolvingMapping`]: read the provider's enabled mappings, in order of priority.
//! 6. [`Provisioning`]: provision the service account and generate its tokens.
//! 7. [`AssigningRole`]: give the account the mapping's role, and answer.

use crate::bearer;
use crate::bearer::extract_bearer_jwt;
use crate::discovery;
use crate::discovery::{discovery_request, fetch_discovery, jwks_uri, FetchFailure};
use crate::error::{AppError, ErrorValue};
use crate::identity;
use crate::json;
use crate::json::{Json, JsonValue};
use crate::mapping;
use crate::model::{
    AuthProvider, CiOidcIdentityMapping, CiOidcProvider, FederatedCredentials,
};
use crate::service;
use crate::service::CiOidcService;
use crate::token;
use crate::uuid::Uuid;
use axum::http::{HeaderMap, HeaderValue};
use vstd::prelude::*;

verus! {

/// Asks for a registry token.  The CI token is not part of it: it travels in the
/// `Authorization` header, which keeps it out of logs.
#[derive(Debug)]
pub struct CiTokenRequest {
    /// The provider that the CI token is checked against.
    pub provider_id: Uuid,
}

/// Hands out a registry token.
#[derive(Debug, PartialEq, Eq)]
pub struct CiTokenResponse {
    /// The short-lived registry token.
    pub access_token: String,
    /// How the token is presented: always `Bearer`.
    pub token_type: String,
    /// How long the token is good for, in seconds.
    pub expires_in: u64,
    /// The service account that the token is for.
    pub username: String,
}

/// The account that was provisioned.
#[derive(Debug, PartialEq, Eq)]
pub struct ProvisionedUser {
    pub id: Uuid,
    pub username: String,
}

/// The tokens that were generated for an account.
#[derive(Debug, PartialEq, Eq)]
pub struct AccessTokens {
    pub access_token: String,
    pub expires_in: u64,
}

/// The provider is to be read.
pub struct LoadingProvider {
    jwt: String,
    provider_id: Uuid,
}

/// The address of the issuer is to be checked.
pub struct CheckingIssuer {
    jwt: String,
    provider: CiOidcProvider,
}

/// The discovery document is to be fetched.
pub struct Discovering {
    jwt: String,
    provider: CiOidcProvider,
    url: String,
}

/// The key set is to be fetched.
pub struct FetchingKeys {
    jwt: String,
    provider: CiOidcProvider,
    jwks_uri: String,
}

/// The provider's enabled mappings are to be read.
pub struct ResolvingMapping {
    jwt: String,
    provider: CiOidcProvider,
    keys: Ghost<JsonValue>,
    claims: Json,
}

/// The service account is to be provisioned.
pub struct Provisioning {
    jwt: String,
    provider: CiOidcProvider,
    keys: Ghost<JsonValue>,
    claims: Json,
    mapping: CiOidcIdentityMapping,
}

/// The account's role is to be assigned.
pub struct AssigningRole {
    grant: Provisioning,
    user: ProvisionedUser,
    tokens: AccessTokens,
}

/// Whether a key set vouches for a token and its claims.
pub open spec fn vouches(
    jwks: JsonValue,
    jwt: Seq<char>,
    provider: CiOidcProvider,
    claims: JsonValue,
) -> bool {
    match token::check_for_token(jwt, jwks) {
        Ok((key, alg)) => token::claims_accepted(jwt, key, alg, provider, claims),
        Err(_) => false,
    }
}

/// What the check of a token came to: the claims that the exchange goes on with, or how the
/// token was refused.
pub open spec fn found_claims(next: Result<ResolvingMapping, AppError>) -> Result<
    JsonValue,
    ErrorValue,
> {
    match next {
        Ok(state) => Ok(state.claims()),
        Err(error) => Err(error@),
    }
}

/// The role that an exchange assigns, and the account that receives it.
pub open spec fn assigned_role(mapping: CiOidcIdentityMapping, user: ProvisionedUser) -> Option<
    (Uuid, Uuid),
> {
    match mapping.role_id {
        Some(role_id) => Some((user.id, role_id)),
        None => None,
    }
}

/// Whether an exchange is answered rightly: with the account's token, or with the database
/// error where the mapping has a role that could not be assigned.
pub open spec fn answers(
    mapping: CiOidcIdentityMapping,
    user: ProvisionedUser,
    tokens: AccessTokens,
    assigned: Result<(), String>,
    answer: Result<CiTokenResponse, AppError>,
) -> bool {
    match (mapping.role_id, assigned) {
        (Some(_), Err(text)) => answer matches Err(error) && error@ == ErrorValue::Database(text@),
        _ => {
            &&& answer matches Ok(response)
            &&& response.access_token == tokens.access_token
            &&& response.token_type@ == "Bearer"@
            &&& response.expires_in == tokens.expires_in
            &&& response.username == user.username
        },
    }
}

/// How a token is refused whose provider is disabled.
pub open spec fn provider_disabled() -> ErrorValue {
    ErrorValue::Authentication("CI OIDC provider is disabled"@)
}

/// Begins the exchange: takes the CI token from the request's headers.
pub fn exchange_ci_token(headers: &HeaderMap<HeaderValue>, req: CiTokenRequest) -> (next: Result<
    LoadingProvider,
    AppError,
>)
    ensures
        match bearer::bearer_token(bearer::authorization_text(*headers)) {
            Ok(jwt) => next matches Ok(state) && state.jwt() == jwt && state.requested()
                == req.provider_id,
            Err(refusal) => next matches Err(error) && error@ == refusal,
        },
{
    match extract_bearer_jwt(headers) {
        Ok(jwt) => Ok(LoadingProvider { jwt: jwt.to_owned(), provider_id: req.provider_id }),
        Err(error) => Err(error),
    }
}

impl LoadingProvider {
    /// The CI token.
    pub closed spec fn jwt(&self) -> Seq<char> {
        self.jwt@
    }

    /// The provider that is to be read.
    pub closed spec fn requested(&self) -> Uuid {
        self.provider_id
    }

    /// The provider that is to be read.
    pub fn provider_id(&self) -> (id: Uuid)
        ensures
            id == self.requested(),
    {
        self.provider_id
    }

    /// Goes on with the provider that was read.
    pub fn provider_loaded(self, row: Result<Option<CiOidcProvider>, String>) -> (next: Result<
        CheckingIssuer,
        AppError,
    >)
        ensures
            match row {
                Ok(Some(provider)) => if provider.is_enabled {
                    next matches Ok(state) && state.jwt() == self.jwt() && state.provider()
                        == provider
                } else {
                    next matches Err(error) && error@ == provider_disabled()
                },
                Ok(None) => next matches Err(error) && error@ == service::provider_not_found(),
                Err(text) => next matches Err(error) && error@ == ErrorValue::Database(text@),
            },
    {
        let provider = match CiOidcService::get(row) {
            Ok(provider) => provider,
            Err(error) => return Err(error),
        };
        if !provider.is_enabled {
            return Err(AppError::Authentication("CI OIDC provider is disabled".to_owned()));
        }
        Ok(CheckingIssuer { jwt: self.jwt, provider })
    }
}

impl CheckingIssuer {
    #[verifier::type_invariant]
    spec fn wf(self) -> bool {
        self.provider.is_enabled
    }

    /// The CI token.
    pub closed spec fn jwt(&self) -> Seq<char> {
        self.jwt@
    }

    /// The provider that the token is checked against.
    pub closed spec fn provider(&self) -> CiOidcProvider {
        self.provider
    }

    /// The issuer whose address is to be checked.
    pub fn issuer_url(&self) -> (url: &String)
        ensures
            *url == self.provider().issuer_url,
    {
        &self.provider.issuer_url
    }

    /// Goes on with `outbound`, what the check of the issuer's address came to.
    pub fn issuer_checked(self, outbound: Result<(), AppError>) -> (next: Result<
        Discovering,
        AppError,
    >)
        ensures
            if discovery::uses_https(self.provider().issuer_url@) {
                match outbound {
                    Ok(()) => next matches Ok(state) && state.jwt() == self.jwt()
                        && state.provider() == self.provider() && state.location()
                        == discovery::discovery_location(self.provider().issuer_url@),
                    Err(refusal) => next == Err::<Discovering, AppError>(refusal),
                }
            } else {
                next matches Err(error) && error@ == discovery::https_required()
            },
    {
        proof {
            use_type_invariant(&self);
        }
        match discovery_request(self.provider.issuer_url.as_str(), outbound) {
            Ok(url) => Ok(Discovering { jwt: self.jwt, provider: self.provider, url }),
            Err(error) => Err(error),
        }
    }
}

impl Discovering {
    #[verifier::type_invariant]
    spec fn wf(self) -> bool {
        &&& self.provider.is_enabled
        &&& discovery::uses_https(self.provider.issuer_url@)
    }

    /// The CI token.
    pub closed spec fn jwt(&self) -> Seq<char> {
        self.jwt@
    }

    /// The provider that the token is checked against.
    pub closed spec fn provider(&self) -> CiOidcProvider {
        self.provider
    }

    /// Where the discovery document is found.
    pub closed spec fn location(&self) -> Seq<char> {
        self.url@
    }

    /// Where the discovery document is found.
    pub fn url(&self) -> (url: &String)
        ensures
            url@ == self.location(),
    {
        &self.url
    }

    /// Goes on with the issuer's answer.
    pub fn discovered(self, reply: Result<Json, FetchFailure>) -> (next: Result<
        FetchingKeys,
        AppError,
    >)
        ensures
            match reply {
                Ok(document) => match json::member_text(document.value(), "jwks_uri"@) {
                    Some(uri) => next matches Ok(state) && state.jwt() == self.jwt()
                        && state.provider() == self.provider() && state.location() == uri,
                    None => next matches Err(error) && error@ == discovery::jwks_uri_missing(),
                },
                Err(failure) => next matches Err(error) && error@ == discovery::discovery_failed(
                    failure,
                ),
            },
    {
        proof {
            use_type_invariant(&self);
        }
        let document = match fetch_discovery(reply) {
            Ok(document) => document,
            Err(error) => return Err(error),
        };
        match jwks_uri(&document) {
            Ok(jwks_uri) => Ok(
                FetchingKeys { jwt: self.jwt, provider: self.provider, jwks_uri },
            ),
            Err(error) => Err(error),
        }
    }
}

impl FetchingKeys {
    #[verifier::type_invariant]
    spec fn wf(self) -> bool {
        &&& self.provider.is_enabled
        &&& discovery::uses_https(self.provider.issuer_url@)
    }

    /// The CI token.
    pub closed spec fn jwt(&self) -> Seq<char> {
        self.jwt@
    }

    /// The provider that the token is checked against.
    pub closed spec fn provider(&self) -> CiOidcProvider {
        self.provider
    }

    /// Where the key set is found.
    pub closed spec fn location(&self) -> Seq<char> {
        self.jwks_uri@
    }

    /// Where the key set is found.
    pub fn jwks_uri(&self) -> (uri: &String)
        ensures
            uri@ == self.location(),
    {
        &self.jwks_uri
    }

    /// Goes on with the key set of the provider: checks the token.
    pub fn keys_fetched(self, jwks: &Json) -> (next: Result<ResolvingMapping, AppError>)
        ensures
            match token::check_for_token(self.jwt(), jwks.value()) {
                Err(refusal) => next matches Err(error) && error@ == refusal,
                Ok(_) => match next {
                    Ok(state) => {
                        &&& state.jwt() == self.jwt()
                        &&& state.provider() == self.provider()
                        &&& state.keys() == jwks.value()
                        &&& vouches(jwks.value(), self.jwt(), self.provider(), state.claims())
                    },
                    Err(error) => token::validation_failed(error@),
                },
            },
            exists|now: u64| #[trigger]
                token::token_verdict(self.jwt(), jwks.value(), self.provider(), now)
                    == found_claims(next),
    {
        proof {
            use_type_invariant(&self);
        }
        let verdict = CiOidcService::validate_ci_jwt(&self.provider, self.jwt.as_str(), jwks);
        let ghost now = choose|now: u64| #[trigger]
            token::token_verdict(self.jwt@, jwks.value(), self.provider, now)
                == token::verdict_value(verdict);
        let next = match verdict {
            Ok(claims) => Ok(
                ResolvingMapping {
                    jwt: self.jwt,
                    provider: self.provider,
                    keys: Ghost(jwks.value()),
                    claims,
                },
            ),
            Err(error) => Err(error),
        };
        assert(token::token_verdict(self.jwt(), jwks.value(), self.provider(), now)
            == found_claims(next));
        next
    }
}

impl ResolvingMapping {
    #[verifier::type_invariant]
    spec fn wf(self) -> bool {
        &&& self.provider.is_enabled
        &&& discovery::uses_https(self.provider.issuer_url@)
        &&& vouches(self.keys@, self.jwt@, self.provider, self.claims.value())
    }

    /// The CI token.
    pub closed spec fn jwt(&self) -> Seq<char> {
        self.jwt@
    }

    /// The provider that the token was checked against.
    pub closed spec fn provider(&self) -> CiOidcProvider {
        self.provider
    }

    /// The key set that vouched for the token.
    pub closed spec fn keys(&self) -> JsonValue {
        self.keys@
    }

    /// The token's claims.
    pub closed spec fn claims(&self) -> JsonValue {
        self.claims.value()
    }

    /// The provider whose enabled mappings are to be read.
    pub fn provider_id(&self) -> (id: Uuid)
        ensures
            id == self.provider().id,
    {
        self.provider.id
    }

    /// The claims that keep mappings from accepting the token, for operators to see.
    pub fn failed_claims(&self, mappings: &Vec<CiOidcIdentityMapping>) -> (names: Vec<String>)
        ensures
            mapping::texts(names@) == mapping::reported_claims(mappings@, self.claims()),
    {
        CiOidcService::failed_claims(mappings, &self.claims)
    }

    /// Goes on with the mappings that were read: finds the one that the token falls under.
    pub fn mappings_loaded(self, rows: Result<Vec<CiOidcIdentityMapping>, String>) -> (next: Result<
        Provisioning,
        AppError,
    >)
        ensures
            match (rows, next) {
                (Err(text), _) => next matches Err(error) && error@ == ErrorValue::Database(text@),
                (Ok(mappings), Ok(state)) => {
                    &&& state.jwt() == self.jwt()
                    &&& state.provider() == self.provider()
                    &&& state.keys() == self.keys()
                    &&& state.claims() == self.claims()
                    &&& exists|at: int| #[trigger]
                        mapping::first_match(mappings@, self.claims(), at) && state.mapping()
                            == mappings@[at]
                },
                (Ok(mappings), Err(error)) => {
                    &&& forall|i: int|
                        0 <= i < mappings@.len() ==> !mapping::mapping_accepts(
                            #[trigger] mappings@[i],
                            self.claims(),
                        )
                    &&& error@ == mapping::mapping_refusal(mappings@)
                },
            },
    {
        proof {
            use_type_invariant(&self);
        }
        match CiOidcService::resolve_mapping(rows, &self.claims) {
            Ok(mapping) => Ok(
                Provisioning {
                    jwt: self.jwt,
                    provider: self.provider,
                    keys: self.keys,
                    claims: self.claims,
                    mapping,
                },
            ),
            Err(error) => Err(error),
        }
    }
}

impl Provisioning {
    #[verifier::type_invariant]
    spec fn wf(self) -> bool {
        &&& self.provider.is_enabled
        &&& discovery::uses_https(self.provider.issuer_url@)
        &&& vouches(self.keys@, self.jwt@, self.provider, self.claims.value())
        &&& mapping::mapping_accepts(self.mapping, self.claims.value())
    }

    /// The CI token.
    pub closed spec fn jwt(&self) -> Seq<char> {
        self.jwt@
    }

    /// The provider that the token was checked against.
    pub closed spec fn provider(&self) -> CiOidcProvider {
        self.provider
    }

    /// The key set that vouched for the token.
    pub closed spec fn keys(&self) -> JsonValue {
        self.keys@
    }

    /// The token's claims.
    pub closed spec fn claims(&self) -> JsonValue {
        self.claims.value()
    }

    /// The mapping that the token falls under.
    pub closed spec fn mapping(&self) -> CiOidcIdentityMapping {
        self.mapping
    }

    /// The account that is to be provisioned, and where it comes from.
    pub fn account(&self) -> (account: (AuthProvider, FederatedCredentials))
        ensures
            account.0 == AuthProvider::Ci,
            identity::stands_for(account.1, self.provider(), self.mapping(), self.claims()),
    {
        (
            CiOidcService::auth_provider(),
            CiOidcService::extract_identity_from_mapping(
                &self.provider,
                &self.mapping,
                &self.claims,
            ),
        )
    }

    /// The repositories to which the mapping narrows its role, where it does.
    pub fn allowed_repo_ids(&self) -> (ids: &Option<Vec<Uuid>>)
        ensures
            *ids == self.mapping().allowed_repo_ids,
    {
        &self.mapping.allowed_repo_ids
    }

    /// Goes on with the account that was provisioned and its tokens.
    pub fn provisioned(self, reply: Result<(ProvisionedUser, AccessTokens), AppError>) -> (next:
        Result<AssigningRole, AppError>)
        ensures
            match reply {
                Ok((user, tokens)) => next matches Ok(state) && state.grant() == self
                    && state.user() == user && state.tokens() == tokens,
                Err(failure) => next == Err::<AssigningRole, AppError>(failure),
            },
    {
        match reply {
            Ok((user, tokens)) => Ok(AssigningRole { grant: self, user, tokens }),
            Err(error) => Err(error),
        }
    }
}

impl AssigningRole {
    /// What the token was found to be worth.
    pub closed spec fn grant(&self) -> Provisioning {
        self.grant
    }

    /// The account that was provisioned.
    pub closed spec fn user(&self) -> ProvisionedUser {
        self.user
    }

    /// The tokens that were generated for it.
    pub closed spec fn tokens(&self) -> AccessTokens {
        self.tokens
    }

    /// The role that is to be assigned, and the account that receives it, where the mapping
    /// has a role.
    pub fn role_assignment(&self) -> (assignment: Option<(Uuid, Uuid)>)
        ensures
            assignment == assigned_role(self.grant().mapping(), self.user()),
    {
        match self.grant.mapping.role_id {
            Some(role_id) => Some((self.user.id, role_id)),
            None => None,
        }
    }

    /// Answers the request.  `assigned` is what came of assigning the role; it counts only
    /// where the mapping has one.
    ///
    /// A registry token is handed out only where the provider is enabled, its issuer is
    /// reached over HTTPS, the key set that was fetched vouched for the CI token, and the
    /// mapping accepts its claims.
    pub fn role_assigned(self, assigned: Result<(), String>) -> (answer: Result<
        CiTokenResponse,
        AppError,
    >)
        ensures
            answers(self.grant().mapping(), self.user(), self.tokens(), assigned, answer),
            answer is Ok ==> {
                &&& self.grant().provider().is_enabled
                &&& discovery::uses_https(self.grant().provider().issuer_url@)
                &&& vouches(
                    self.grant().keys(),
                    self.grant().jwt(),
                    self.grant().provider(),
                    self.grant().claims(),
                )
                &&& mapping::mapping_accepts(self.grant().mapping(), self.grant().claims())
            },
    {
        proof {
            use_type_invariant(&self.grant);
        }
        if self.grant.mapping.role_id.is_some() {
            match assigned {
                Ok(()) => {},
                Err(text) => return Err(AppError::Database(text)),
            }
        }
        Ok(
            CiTokenResponse {
                access_token: self.tokens.access_token,
                token_type: "Bearer".to_owned(),
                expires_in: self.tokens.expires_in,
                username: self.user.username,
            },
        )
    }
}

} // verus!
