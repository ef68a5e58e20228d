use axum::http::{HeaderMap, HeaderValue};
use ci_oidc::bearer::{bearer_of, extract_bearer_jwt};
use ci_oidc::discovery::FetchFailure;
use ci_oidc::error::AppError;
use ci_oidc::exchange::{
    exchange_ci_token, AccessTokens, AssigningRole, CheckingIssuer, CiTokenRequest, FetchingKeys,
    LoadingProvider, ProvisionedUser, Provisioning, ResolvingMapping,
};
use ci_oidc::json::Json;
use ci_oidc::model::{AuthProvider, CiOidcIdentityMapping, CiOidcProvider, Timestamp};
use ci_oidc::uuid::Uuid;

const EC_KEY: [u8; 138] = [
    0x30, 0x81, 0x87, 0x02, 0x01, 0x00, 0x30, 0x13, 0x06, 0x07, 0x2a, 0x86,
    0x48, 0xce, 0x3d, 0x02, 0x01, 0x06, 0x08, 0x2a, 0x86, 0x48, 0xce, 0x3d,
    0x03, 0x01, 0x07, 0x04, 0x6d, 0x30, 0x6b, 0x02, 0x01, 0x01, 0x04, 0x20,
    0x89, 0xa8, 0x71, 0xb2, 0xb4, 0x63, 0x12, 0x2b, 0x93, 0xb6, 0x82, 0x72,
    0x13, 0x2b, 0xc9, 0x93, 0x5a, 0xbc, 0x8b, 0xfe, 0xc8, 0xdc, 0x32, 0x73,
    0x53, 0x29, 0x1c, 0x4d, 0x6a, 0x6c, 0x79, 0xa3, 0xa1, 0x44, 0x03, 0x42,
    0x00, 0x04, 0x65, 0x41, 0x17, 0x92, 0x79, 0x14, 0xb5, 0x96, 0x1c, 0x95,
    0x31, 0xe1, 0xd8, 0xbc, 0x0d, 0x62, 0xca, 0xfe, 0x39, 0xc9, 0xfb, 0xb5,
    0x38, 0x81, 0xa0, 0x74, 0xd9, 0xda, 0xa7, 0x3f, 0xc0, 0x76, 0xfd, 0xa6,
    0x8f, 0xdf, 0x33, 0xe8, 0x21, 0x83, 0x9b, 0x76, 0xb9, 0x2e, 0x90, 0x01,
    0xb1, 0x22, 0xe4, 0xd4, 0xf6, 0x7f, 0xf2, 0xda, 0xdc, 0x4c, 0x97, 0x31,
    0x65, 0xa4, 0xfc, 0x83, 0xb9, 0x59,
];
const EC_X: &str = "ZUEXknkUtZYclTHh2LwNYsr-Ocn7tTiBoHTZ2qc_wHY";
const EC_Y: &str = "_aaP3zPoIYObdrkukAGxIuTU9n_y2txMlzFlpPyDuVk";
const RSA_N: &str = "\
    8WDQJXuQweK8eibWSQaE2puY22OnTZ0hXspbkmsqQlNzSxJM7RUEGyw4EqlHHAGf6K5l8Yt-S8J_pLwd\
    XeVxSsxNinxvjm6qPE8TF5yXEmnDDkvkig2uSnn-PF2N03HQbop8TjRE3nrLM9uxPXGPjq3T4kglSS_w\
    ZQTRj6rM7ubQ20mfGb3cxZRYlXOYb4mn3Nn6ew_x_PIc1QnZmhvPvyDcw9JQKYX1x06b1TQ3-aj4evTO\
    FuGO3THy5gKLUQ3ki8mcXM7AZdstvQuiN64R6g4PPmmi0a61T9VkYvUGBMg03Ba3dAJacugC_zxgT_9G\
    yuRrSPCVxHPWcIhZJroIVw";

fn parse(text: &str) -> Json {
    Json::from_parsed(serde_json::from_str(text).unwrap())
}

fn sign(kid: Option<&str>, claims: &str) -> String {
    let mut header = jsonwebtoken::Header::new(jsonwebtoken::Algorithm::ES256);
    header.kid = kid.map(|kid| kid.to_string());
    let claims: serde_json::Value = serde_json::from_str(claims).unwrap();
    let key = jsonwebtoken::EncodingKey::from_ec_der(&EC_KEY);
    jsonwebtoken::encode(&header, &claims, &key).unwrap()
}

fn key_set() -> Json {
    parse(&format!(
        "{{\"keys\": [{{\"kty\": \"RSA\", \"kid\": \"rsa-1\", \"n\": \"{}\", \"e\": \"AQAB\"}},
          {{\"kty\": \"EC\", \"kid\": \"ec-1\", \"x\": \"{}\", \"y\": \"{}\"}}]}}",
        RSA_N, EC_X, EC_Y
    ))
}

const CLAIMS: &str = "{\"iss\": \"https://gitlab.example.com\", \"aud\": \"artifact-keeper\",
    \"sub\": \"s\", \"exp\": 4102444800, \"project_path\": \"acme/app\", \"ref\": \"main\"}";

const THEN: Timestamp = Timestamp { secs: 0, nanos: 0 };

fn provider(is_enabled: bool, issuer_url: &str) -> CiOidcProvider {
    CiOidcProvider {
        id: Uuid(1),
        name: "GitLab".to_string(),
        provider_type: "gitlab".to_string(),
        issuer_url: issuer_url.to_string(),
        audience: "artifact-keeper".to_string(),
        is_enabled,
        created_at: THEN,
        updated_at: THEN,
    }
}

fn mapping(filters: &str, role_id: Option<Uuid>) -> CiOidcIdentityMapping {
    CiOidcIdentityMapping {
        id: Uuid(0xabc12345_0000_0000_0000_000000000000),
        provider_id: Uuid(1),
        name: "deploy".to_string(),
        priority: 1,
        claim_filters: parse(filters),
        role_id,
        allowed_repo_ids: Some(vec![Uuid(3)]),
        is_enabled: true,
        created_at: THEN,
        updated_at: THEN,
    }
}

fn headers(value: &str) -> HeaderMap {
    let mut headers = HeaderMap::new();
    headers.insert("authorization", HeaderValue::from_str(value).unwrap());
    headers
}

fn loading() -> LoadingProvider {
    let token = sign(Some("ec-1"), CLAIMS);
    exchange_ci_token(&headers(&format!("Bearer {}", token)), CiTokenRequest { provider_id: Uuid(1) })
        .ok()
        .unwrap()
}

fn checking() -> CheckingIssuer {
    loading().provider_loaded(Ok(Some(provider(true, "https://gitlab.example.com")))).ok().unwrap()
}

fn fetching() -> FetchingKeys {
    let discovering = checking().issuer_checked(Ok(())).ok().unwrap();
    discovering.discovered(Ok(parse("{\"jwks_uri\": \"https://keys\"}"))).ok().unwrap()
}

fn resolving() -> ResolvingMapping {
    fetching().keys_fetched(&key_set()).ok().unwrap()
}

fn provisioning(role_id: Option<Uuid>) -> Provisioning {
    resolving().mappings_loaded(Ok(vec![mapping("{\"ref\": \"main\"}", role_id)])).ok().unwrap()
}

fn assigning(role_id: Option<Uuid>) -> AssigningRole {
    let user = ProvisionedUser { id: Uuid(5), username: "ci-abc12345".to_string() };
    let tokens = AccessTokens { access_token: "t".to_string(), expires_in: 900 };
    provisioning(role_id).provisioned(Ok((user, tokens))).ok().unwrap()
}

#[test]
fn the_token_travels_in_the_authorization_header() {
    assert_eq!(extract_bearer_jwt(&headers("Bearer a.b.c")), Ok("a.b.c"));
    assert_eq!(extract_bearer_jwt(&headers("Bearer  a")), Ok(" a"));
    let missing = AppError::Authentication(
        "Missing Authorization header. Supply the CI JWT as: Authorization: Bearer <jwt>".to_string(),
    );
    assert_eq!(extract_bearer_jwt(&HeaderMap::new()), Err(missing));
    let mut hidden = HeaderMap::new();
    hidden.insert("authorization", HeaderValue::from_bytes(b"Bearer \xff").unwrap());
    let missing = AppError::Authentication(
        "Missing Authorization header. Supply the CI JWT as: Authorization: Bearer <jwt>".to_string(),
    );
    assert_eq!(extract_bearer_jwt(&hidden), Err(missing));
    let mut two = headers("Bearer first");
    two.append("authorization", HeaderValue::from_static("Bearer second"));
    assert_eq!(extract_bearer_jwt(&two), Ok("first"));
}

#[test]
fn only_the_bearer_scheme_is_taken() {
    for value in ["Basic dXNlcg==", "bearer a.b.c", "Bearer ", "Bearer", ""] {
        assert_eq!(
            bearer_of(Some(value)),
            Err(AppError::Authentication(
                "Authorization header must use the Bearer scheme: Authorization: Bearer <jwt>"
                    .to_string()
            ))
        );
    }
    assert_eq!(bearer_of(Some("Bearer x")), Ok("x"));
    let refused =
        exchange_ci_token(&headers("Basic dXNlcg=="), CiTokenRequest { provider_id: Uuid(1) });
    assert!(matches!(refused.err(), Some(AppError::Authentication(_))));
}

#[test]
fn the_provider_must_exist_and_be_enabled() {
    assert_eq!(loading().provider_id(), Uuid(1));
    assert_eq!(
        loading().provider_loaded(Ok(None)).err(),
        Some(AppError::NotFound("CI OIDC provider not found".to_string()))
    );
    assert_eq!(
        loading().provider_loaded(Err("gone".to_string())).err(),
        Some(AppError::Database("gone".to_string()))
    );
    assert_eq!(
        loading().provider_loaded(Ok(Some(provider(false, "https://i")))).err(),
        Some(AppError::Authentication("CI OIDC provider is disabled".to_string()))
    );
}

#[test]
fn the_issuer_must_be_reachable() {
    assert_eq!(checking().issuer_url(), "https://gitlab.example.com");
    assert_eq!(
        checking().issuer_checked(Err(AppError::Validation("private".to_string()))).err(),
        Some(AppError::Validation("private".to_string()))
    );
    let plain = loading().provider_loaded(Ok(Some(provider(true, "http://i")))).ok().unwrap();
    assert_eq!(
        plain.issuer_checked(Ok(())).err(),
        Some(AppError::Validation("CI OIDC issuer URL must use HTTPS".to_string()))
    );
    let discovering = checking().issuer_checked(Ok(())).ok().unwrap();
    assert_eq!(
        discovering.url(),
        "https://gitlab.example.com/.well-known/openid-configuration"
    );
    assert_eq!(
        discovering.discovered(Err(FetchFailure::Send("down".to_string()))).err(),
        Some(AppError::Internal("CI OIDC discovery fetch failed: down".to_string()))
    );
    let discovering = checking().issuer_checked(Ok(())).ok().unwrap();
    assert_eq!(
        discovering.discovered(Ok(parse("{}"))).err(),
        Some(AppError::Internal("OIDC discovery missing jwks_uri".to_string()))
    );
    assert_eq!(fetching().jwks_uri(), "https://keys");
}

#[test]
fn the_token_must_be_vouched_for() {
    assert_eq!(
        fetching().keys_fetched(&parse("{}")).err(),
        Some(AppError::Internal("JWKS missing keys array".to_string()))
    );
    assert_eq!(resolving().provider_id(), Uuid(1));
}

#[test]
fn the_token_must_fall_under_a_mapping() {
    assert_eq!(
        resolving().mappings_loaded(Ok(vec![mapping("{\"ref\": \"dev\"}", None)])).err(),
        Some(AppError::Authentication("CI JWT did not match any identity mapping".to_string()))
    );
    assert_eq!(
        resolving().mappings_loaded(Ok(vec![])).err(),
        Some(AppError::Authentication(
            "No CI OIDC identity mappings configured for this provider".to_string()
        ))
    );
    assert_eq!(
        resolving().mappings_loaded(Err("gone".to_string())).err(),
        Some(AppError::Database("gone".to_string()))
    );
    let dev = mapping("{\"ref\": \"dev\"}", None);
    assert_eq!(resolving().failed_claims(&vec![dev]), vec!["ref".to_string()]);
    assert_eq!(*provisioning(None).allowed_repo_ids(), Some(vec![Uuid(3)]));
    let (source, account) = provisioning(None).account();
    assert_eq!(source, AuthProvider::Ci);
    assert_eq!(account.username, "ci-abc12345");
    assert_eq!(account.external_id, "s");
    assert_eq!(account.display_name.as_deref(), Some("CI [GitLab] deploy — acme/app"));
}

#[test]
fn a_failed_provisioning_is_passed_on() {
    assert_eq!(
        provisioning(None).provisioned(Err(AppError::Internal("no".to_string()))).err(),
        Some(AppError::Internal("no".to_string()))
    );
}

#[test]
fn a_registry_token_is_handed_out() {
    let state = assigning(Some(Uuid(9)));
    assert_eq!(state.role_assignment(), Some((Uuid(5), Uuid(9))));
    let response = state.role_assigned(Ok(())).unwrap();
    assert_eq!(response.access_token, "t");
    assert_eq!(response.token_type, "Bearer");
    assert_eq!(response.expires_in, 900);
    assert_eq!(response.username, "ci-abc12345");
}

#[test]
fn a_role_that_cannot_be_assigned_fails_the_exchange() {
    assert_eq!(
        assigning(Some(Uuid(9))).role_assigned(Err("gone".to_string())),
        Err(AppError::Database("gone".to_string()))
    );
    assert_eq!(assigning(None).role_assignment(), None);
    assert!(assigning(None).role_assigned(Err("gone".to_string())).is_ok());
}
