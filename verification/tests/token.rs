use ci_oidc::error::AppError;
use ci_oidc::json::Json;
use ci_oidc::model::{CiOidcProvider, Timestamp};
use ci_oidc::service::CiOidcService;
use ci_oidc::token::{Algorithm, JwkMaterial, TokenHeader};
use ci_oidc::uuid::Uuid;

const EC_KEY: [u8; 138] = [
    0x30, 0x81, 0x87, 0x02, 0x01, 0x00, 0x30, 0x13, 0x06, 0x07, 0x2a, 0x86,
    0x48, 0xce, 0x3d, 0x02, 0x01, 0x06, 0x08, 0x2a, 0x86, 0x48, 0xce, 0x3d,
    0x03, 0x01, 0x07, 0x04, 0x6d, 0x30, 0x6b, 0x02, 0x01, 0x01, 0x04, 0x20,
    0x89, 0xa8, 0x71, 0xb2, 0xb4, 0x63, 0x12, 0x2b, 0x93, 0xb6, 0x82, 0x72,
    0x13, 0x2b, 0xc9, 0x93, 0x5a, 0xbc, 0x8b, 0xfe, 0xc8, 0xdc, 0x32, 0x73,
    0x53, 0x29, 0x1c, 0x4d, 0x6a, 0x6c, 0x79, 0xa3, 0xa1, 0x44, 0x03, 0x42,
    0x00, 0x04, 0x65, 0x41, 0x17, 0x92, 0x79, 0x14, 0xb5, 0x96, 0x1c, 0x95,
    0x31, 0xe1, 0xd8, 0xbc, 0x0d, 0x62, 0xca, 0xfe, 0x39, 0xc9, 0xfb, 0xb5,
    0x38, 0x81, 0xa0, 0x74, 0xd9, 0xda, 0xa7, 0x3f, 0xc0, 0x76, 0xfd, 0xa6,
    0x8f, 0xdf, 0x33, 0xe8, 0x21, 0x83, 0x9b, 0x76, 0xb9, 0x2e, 0x90, 0x01,
    0xb1, 0x22, 0xe4, 0xd4, 0xf6, 0x7f, 0xf2, 0xda, 0xdc, 0x4c, 0x97, 0x31,
    0x65, 0xa4, 0xfc, 0x83, 0xb9, 0x59,
];
const EC_X: &str = "ZUEXknkUtZYclTHh2LwNYsr-Ocn7tTiBoHTZ2qc_wHY";
const EC_Y: &str = "_aaP3zPoIYObdrkukAGxIuTU9n_y2txMlzFlpPyDuVk";
const RSA_N: &str = "\
    8WDQJXuQweK8eibWSQaE2puY22OnTZ0hXspbkmsqQlNzSxJM7RUEGyw4EqlHHAGf6K5l8Yt-S8J_pLwd\
    XeVxSsxNinxvjm6qPE8TF5yXEmnDDkvkig2uSnn-PF2N03HQbop8TjRE3nrLM9uxPXGPjq3T4kglSS_w\
    ZQTRj6rM7ubQ20mfGb3cxZRYlXOYb4mn3Nn6ew_x_PIc1QnZmhvPvyDcw9JQKYX1x06b1TQ3-aj4evTO\
    FuGO3THy5gKLUQ3ki8mcXM7AZdstvQuiN64R6g4PPmmi0a61T9VkYvUGBMg03Ba3dAJacugC_zxgT_9G\
    yuRrSPCVxHPWcIhZJroIVw";
const RSA_SIGNATURE: &str = "\
    xiOuq6Lomwd4DHETZS4fSx0K90WULR-NrffePx6T-OCaHb3ufICDbZYEmWeJwjxAeh0XJMYRsvD8ewdj\
    PegeFRFri_TCEWaXZa7EnBCp60i72GKh_IbpGLkfJxgILo1mVCExyoIxOsGdmqboJ9eB_xCnALDprmEA\
    yVC9Qrc9IEmON2xuNvaeloiqLw3MwHDXer3C2jLwouXV5iT77fnRQ5stRZko7DXrs5EOtJ8SiDoKzQiV\
    li0Xb8vJYX6PAPOUNZ13SByKdyFFLuQHZ9TWB9AIxBXuSS_3ar2XqBXYKXd5SHUsAJOY21d1hiV-uAvw\
    dQ1xL_EcHXtax70b7WySyw";

fn parse(text: &str) -> Json {
    Json::from_parsed(serde_json::from_str(text).unwrap())
}

fn sign(kid: Option<&str>, claims: &str) -> String {
    let mut header = jsonwebtoken::Header::new(jsonwebtoken::Algorithm::ES256);
    header.kid = kid.map(|kid| kid.to_string());
    let claims: serde_json::Value = serde_json::from_str(claims).unwrap();
    let key = jsonwebtoken::EncodingKey::from_ec_der(&EC_KEY);
    jsonwebtoken::encode(&header, &claims, &key).unwrap()
}

fn key_set() -> Json {
    parse(&format!(
        "{{\"keys\": [{{\"kty\": \"RSA\", \"kid\": \"rsa-1\", \"n\": \"{}\", \"e\": \"AQAB\"}},
          {{\"kty\": \"EC\", \"kid\": \"ec-1\", \"x\": \"{}\", \"y\": \"{}\"}}]}}",
        RSA_N, EC_X, EC_Y
    ))
}

fn base64url(bytes: &[u8]) -> String {
    let alphabet: Vec<char> = ('A'..='Z').chain('a'..='z').chain('0'..='9').chain(['-', '_']).collect();
    let mut text = String::new();
    for chunk in bytes.chunks(3) {
        let mut word: u32 = 0;
        for i in 0..3 {
            word = word * 256 + u32::from(*chunk.get(i).unwrap_or(&0));
        }
        for i in 0..=chunk.len() {
            text.push(alphabet[(word >> (18 - 6 * i)) as usize % 64]);
        }
    }
    text
}

fn provider() -> CiOidcProvider {
    CiOidcProvider {
        id: Uuid(1),
        name: "GitLab".to_string(),
        provider_type: "gitlab".to_string(),
        issuer_url: "https://gitlab.example.com".to_string(),
        audience: "artifact-keeper".to_string(),
        is_enabled: true,
        created_at: Timestamp { secs: 0, nanos: 0 },
        updated_at: Timestamp { secs: 0, nanos: 0 },
    }
}

fn items(json: Json) -> Vec<Json> {
    match json {
        Json::Array(items) => items,
        other => panic!("not an array: {:?}", other),
    }
}

fn check(claims: &str) -> Result<Json, AppError> {
    CiOidcService::validate_ci_jwt(&provider(), &sign(Some("ec-1"), claims), &key_set())
}

fn rejected(reason: &str) -> AppError {
    AppError::Authentication(format!("CI JWT validation failed: {}", reason))
}

#[test]
fn a_token_signed_with_an_elliptic_curve_is_accepted() {
    let claims = "{\"iss\": \"https://gitlab.example.com\", \"aud\": \"artifact-keeper\",
                   \"sub\": \"x\", \"exp\": 4102444800, \"nested\": {\"a\": [1, null]}}";
    assert!(check(claims).unwrap().equals(&parse(claims)));
}

#[test]
fn a_token_signed_with_rsa_is_accepted() {
    let claims = "{\"iss\":\"https://gitlab.example.com\",\"aud\":\"artifact-keeper\",\
                  \"sub\":\"project_path:acme/app\",\"exp\":4102444800}";
    let token = format!(
        "{}.{}.{}",
        base64url(b"{\"alg\":\"RS256\",\"kid\":\"rsa-1\"}"),
        base64url(claims.as_bytes()),
        RSA_SIGNATURE
    );
    let accepted = CiOidcService::validate_ci_jwt(&provider(), &token, &key_set()).unwrap();
    assert!(accepted.equals(&parse(claims)));
    let tampered = token.replace(RSA_SIGNATURE, &RSA_SIGNATURE.replace('x', "y"));
    assert_eq!(
        CiOidcService::validate_ci_jwt(&provider(), &tampered, &key_set()).unwrap_err(),
        rejected("InvalidSignature")
    );
}

#[test]
fn the_audience_and_the_issuer_are_held_against_the_provider() {
    let iss = "\"iss\": \"https://gitlab.example.com\"";
    let exp = "\"exp\": 4102444800";
    assert_eq!(
        check(&format!("{{{}, \"aud\": \"other\", {}}}", iss, exp)).unwrap_err(),
        rejected("InvalidAudience")
    );
    assert_eq!(
        check(&format!("{{{}, \"aud\": [\"other\"], {}}}", iss, exp)).unwrap_err(),
        rejected("InvalidAudience")
    );
    assert!(check(&format!("{{{}, \"aud\": [\"other\", \"artifact-keeper\"], {}}}", iss, exp)).is_ok());
    assert_eq!(
        check(&format!("{{\"iss\": \"https://evil\", \"aud\": \"artifact-keeper\", {}}}", exp))
            .unwrap_err(),
        rejected("InvalidIssuer")
    );
    let aud = "\"aud\": \"artifact-keeper\"";
    assert!(check(&format!("{{\"iss\": [\"https://gitlab.example.com\"], {}, {}}}", aud, exp)).is_ok());
    assert_eq!(check(&format!("{{{}, {}}}", aud, exp)).unwrap_err(), rejected("InvalidIssuer"));
    assert_eq!(check(&format!("{{{}, {}}}", iss, exp)).unwrap_err(), rejected("InvalidAudience"));
    for other in ["7", "null", "{}", "[7]", "[]", "true"] {
        assert_eq!(
            check(&format!("{{{}, \"aud\": {}, {}}}", iss, other, exp)).unwrap_err(),
            rejected("InvalidAudience")
        );
        assert_eq!(
            check(&format!("{{\"iss\": {}, {}, {}}}", other, aud, exp)).unwrap_err(),
            rejected("InvalidIssuer")
        );
    }
}

#[test]
fn claims_must_name_the_provider() {
    let check = |claims: &str| CiOidcService::require_addressed(parse(claims), &provider());
    let iss = "\"iss\": \"https://gitlab.example.com\"";
    let right = format!("{{{}, \"aud\": [7, \"artifact-keeper\"]}}", iss);
    assert!(check(&right).unwrap().equals(&parse(&right)));
    assert_eq!(
        check("{\"iss\": \"https://gitlab.example.com/\", \"aud\": \"artifact-keeper\"}").unwrap_err(),
        rejected("InvalidIssuer")
    );
    assert_eq!(
        check(&format!("{{{}, \"aud\": \"artifact\"}}", iss)).unwrap_err(),
        rejected("InvalidAudience")
    );
    assert_eq!(check("{}").unwrap_err(), rejected("InvalidIssuer"));
    assert_eq!(check("null").unwrap_err(), rejected("InvalidIssuer"));
}

#[test]
fn an_expiry_is_required_and_must_lie_ahead() {
    assert_eq!(check("{}").unwrap_err(), rejected("Missing required claim: exp"));
    assert_eq!(check("{\"exp\": -1}").unwrap_err(), rejected("Missing required claim: exp"));
    assert_eq!(check("{\"exp\": 1000}").unwrap_err(), rejected("ExpiredSignature"));
    assert_eq!(check("{\"exp\": -0.5}").unwrap_err(), rejected("Missing required claim: exp"));
    assert_eq!(check("{\"exp\": 2e19}").unwrap_err(), rejected("Missing required claim: exp"));
    let party = "\"iss\": \"https://gitlab.example.com\", \"aud\": \"artifact-keeper\"";
    assert!(check(&format!("{{{}, \"exp\": 4102444800.5}}", party)).is_ok());
    assert!(check(&format!("{{{}, \"exp\": 1e19}}", party)).is_ok());
}

#[test]
fn an_unreadable_header_is_refused() {
    assert_eq!(
        CiOidcService::validate_ci_jwt(&provider(), "nonsense", &key_set()).unwrap_err(),
        AppError::Authentication("Invalid CI JWT header: InvalidToken".to_string())
    );
}

#[test]
fn shared_secrets_and_edwards_curves_are_refused() {
    for (alg, name) in [
        (Algorithm::HS256, "HS256"),
        (Algorithm::HS384, "HS384"),
        (Algorithm::HS512, "HS512"),
        (Algorithm::EdDSA, "EdDSA"),
    ] {
        let header = TokenHeader { alg, kid: None };
        let refusal =
            AppError::Authentication(format!("Unsupported CI JWT algorithm: {}", name));
        assert_eq!(CiOidcService::plan_check(&header, &key_set()).err(), Some(refusal));
    }
    for alg in [
        Algorithm::ES256,
        Algorithm::ES384,
        Algorithm::RS256,
        Algorithm::RS384,
        Algorithm::RS512,
        Algorithm::PS256,
        Algorithm::PS384,
        Algorithm::PS512,
    ] {
        assert_eq!(CiOidcService::require_supported(alg), Ok(()));
        let plan = CiOidcService::plan_check(&TokenHeader { alg, kid: None }, &key_set());
        assert!(matches!(plan, Ok((_, planned)) if planned == alg));
    }
}

#[test]
fn a_header_names_its_algorithm() {
    for (name, refused) in [("HS256", true), ("HS384", true), ("HS512", true), ("EdDSA", true),
        ("ES256", false), ("ES384", false), ("RS256", false), ("RS384", false), ("RS512", false),
        ("PS256", false), ("PS384", false), ("PS512", false)]
    {
        let header = format!("{{\"alg\":\"{}\"}}", name);
        let token = format!("{}.e30.AA", base64url(header.as_bytes()));
        let error =
            CiOidcService::validate_ci_jwt(&provider(), &token, &key_set()).unwrap_err();
        let unsupported =
            AppError::Authentication(format!("Unsupported CI JWT algorithm: {}", name));
        assert_eq!(error == unsupported, refused);
    }
}

#[test]
fn a_key_of_another_family_is_refused() {
    let token = sign(None, "{\"exp\": 4102444800}");
    assert_eq!(
        CiOidcService::validate_ci_jwt(&provider(), &token, &key_set()).unwrap_err(),
        rejected("InvalidAlgorithm")
    );
}

#[test]
fn a_set_without_keys_is_refused() {
    let token = sign(Some("ec-1"), "{\"exp\": 4102444800}");
    let check = |set: &str| {
        CiOidcService::validate_ci_jwt(&provider(), &token, &parse(set)).unwrap_err()
    };
    let no_list = AppError::Internal("JWKS missing keys array".to_string());
    assert_eq!(check("{}"), no_list);
    assert_eq!(check("{\"keys\": {}}"), no_list);
    assert_eq!(
        check("{\"keys\": []}"),
        AppError::Internal("No matching JWK found".to_string())
    );
}

#[test]
fn the_named_key_is_used_and_else_the_first() {
    let keys = items(parse(
        "[{\"kty\": \"EC\", \"kid\": \"a\", \"x\": \"1\", \"y\": \"2\"},
          {\"kty\": \"RSA\", \"kid\": \"b\", \"n\": \"3\", \"e\": \"4\"},
          {\"kty\": \"EC\", \"kid\": \"b\", \"x\": \"5\", \"y\": \"6\"}]",
    ));
    let first = JwkMaterial::Ec { x: "1".to_string(), y: "2".to_string() };
    assert_eq!(
        CiOidcService::select_jwk(&keys, Some("b")),
        Ok(JwkMaterial::Rsa { n: "3".to_string(), e: "4".to_string() })
    );
    assert_eq!(CiOidcService::select_jwk(&keys, Some("c")).as_ref(), Ok(&first));
    assert_eq!(CiOidcService::select_jwk(&keys, None), Ok(first));
}

#[test]
fn incomplete_keys_are_refused() {
    let check = |keys: &str| CiOidcService::select_jwk(&items(parse(keys)), None).unwrap_err();
    let internal = |text: &str| AppError::Internal(text.to_string());
    assert_eq!(check("[{\"kty\": \"RSA\", \"e\": \"4\"}]"), internal("JWK RSA missing 'n'"));
    assert_eq!(check("[{\"kty\": \"RSA\", \"n\": \"3\"}]"), internal("JWK RSA missing 'e'"));
    assert_eq!(check("[{\"kty\": \"RSA\"}]"), internal("JWK RSA missing 'n'"));
    assert_eq!(check("[{\"kty\": \"EC\", \"y\": \"4\"}]"), internal("JWK EC missing 'x'"));
    assert_eq!(check("[{\"kty\": \"EC\", \"x\": \"3\"}]"), internal("JWK EC missing 'y'"));
    assert_eq!(check("[{\"kty\": \"oct\"}]"), internal("Unsupported JWK kty: oct"));
    assert_eq!(check("[{}]"), internal("Unsupported JWK kty: "));
    assert_eq!(check("[]"), internal("No matching JWK found"));
}

#[test]
fn keys_in_a_wrong_encoding_are_refused() {
    let keys = items(parse("[{\"kty\": \"RSA\", \"n\": \"*\", \"e\": \"AQAB\"}]"));
    match CiOidcService::select_jwk_key(&keys, None) {
        Err(AppError::Internal(text)) => assert!(text.starts_with("Invalid RSA JWK: Base64 error: ")),
        _ => panic!("accepted"),
    }
    let keys = items(parse("[{\"kty\": \"EC\", \"x\": \"AQAB\", \"y\": \"*\"}]"));
    match CiOidcService::select_jwk_key(&keys, None) {
        Err(AppError::Internal(text)) => assert!(text.starts_with("Invalid EC JWK: Base64 error: ")),
        _ => panic!("accepted"),
    }
    let keys = items(parse("[{\"kty\": \"oct\"}]"));
    assert_eq!(
        CiOidcService::select_jwk_key(&keys, None).err(),
        Some(AppError::Internal("Unsupported JWK kty: oct".to_string()))
    );
}

#[test]
fn the_verdict_follows_the_outside_check_and_the_address() {
    let check = |text: &str| {
        CiOidcService::check_verdict(Ok(serde_json::from_str(text).unwrap()), &provider())
    };
    let right = "{\"iss\": \"https://gitlab.example.com\", \"aud\": \"artifact-keeper\", \"a\": 1}";
    assert!(check(right).unwrap().equals(&parse(right)));
    assert_eq!(
        check("{\"iss\": \"https://gitlab.example.com\", \"aud\": \"other\"}").unwrap_err(),
        rejected("InvalidAudience")
    );
    assert_eq!(check("{\"aud\": \"artifact-keeper\"}").unwrap_err(), rejected("InvalidIssuer"));
    let immature: jsonwebtoken::errors::Error =
        jsonwebtoken::errors::ErrorKind::ImmatureSignature.into();
    assert_eq!(
        CiOidcService::check_verdict(Err(immature), &provider()).unwrap_err(),
        rejected("ImmatureSignature")
    );
}

#[test]
fn two_checks_of_one_token_agree() {
    let claims = "{\"iss\": \"https://gitlab.example.com\", \"aud\": \"artifact-keeper\", \"exp\": 4102444800}";
    assert!(check(claims).unwrap().equals(&check(claims).unwrap()));
    assert_eq!(check("{\"exp\": 1000}").unwrap_err(), check("{\"exp\": 1000}").unwrap_err());
}

#[test]
fn verdicts_follow_what_came_back() {
    let expired: jsonwebtoken::errors::Error =
        jsonwebtoken::errors::ErrorKind::ExpiredSignature.into();
    assert_eq!(
        CiOidcService::claims_verdict(Err(expired)).unwrap_err(),
        rejected("ExpiredSignature")
    );
    let value: serde_json::Value = serde_json::from_str("{\"a\": 1}").unwrap();
    assert!(CiOidcService::claims_verdict(Ok(value)).unwrap().equals(&parse("{\"a\": 1}")));
    let broken: jsonwebtoken::errors::Error = jsonwebtoken::errors::ErrorKind::InvalidToken.into();
    assert_eq!(
        CiOidcService::header_verdict(Err(broken)),
        Err(AppError::Authentication("Invalid CI JWT header: InvalidToken".to_string()))
    );
    let header = TokenHeader { alg: Algorithm::ES256, kid: Some("k".to_string()) };
    assert_eq!(
        CiOidcService::header_verdict(Ok(TokenHeader {
            alg: Algorithm::ES256,
            kid: Some("k".to_string())
        })),
        Ok(header)
    );
}
