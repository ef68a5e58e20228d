use ci_oidc::discovery::{
    discovery_request, fetch_discovery, jwks_uri, require_https, FetchFailure, JwksCache,
    KeySource, JWKS_CACHE_TTL_NANOS,
};
use ci_oidc::error::AppError;
use ci_oidc::json::Json;

fn parse(text: &str) -> Json {
    Json::from_parsed(serde_json::from_str(text).unwrap())
}

fn https_only() -> AppError {
    AppError::Validation("CI OIDC issuer URL must use HTTPS".to_string())
}

#[test]
fn issuers_are_reached_over_https() {
    assert_eq!(require_https("https://gitlab.example.com"), Ok(()));
    assert_eq!(require_https("https://"), Ok(()));
    assert_eq!(require_https("http://gitlab.example.com"), Err(https_only()));
    assert_eq!(require_https("HTTPS://gitlab.example.com"), Err(https_only()));
    assert_eq!(require_https("https:/"), Err(https_only()));
    assert_eq!(require_https(""), Err(https_only()));
}

#[test]
fn the_discovery_document_has_a_known_place() {
    let expected = "https://gitlab.example.com/.well-known/openid-configuration";
    for issuer in
        ["https://gitlab.example.com", "https://gitlab.example.com/", "https://gitlab.example.com//"]
    {
        assert_eq!(discovery_request(issuer, Ok(())), Ok(expected.to_string()));
    }
    assert_eq!(
        discovery_request("https://a/b", Ok(())),
        Ok("https://a/b/.well-known/openid-configuration".to_string())
    );
}

#[test]
fn refused_addresses_are_not_asked() {
    let private = AppError::Validation("private address".to_string());
    assert_eq!(
        discovery_request("https://10.0.0.1", Err(AppError::Validation("private address".into()))),
        Err(private)
    );
    assert_eq!(
        discovery_request("http://10.0.0.1", Err(AppError::Validation("private address".into()))),
        Err(https_only())
    );
    assert_eq!(discovery_request("http://example.com", Ok(())), Err(https_only()));
}

#[test]
fn failed_discovery_is_reported() {
    assert_eq!(
        fetch_discovery(Err(FetchFailure::Send("timed out".to_string()))).unwrap_err(),
        AppError::Internal("CI OIDC discovery fetch failed: timed out".to_string())
    );
    assert_eq!(
        fetch_discovery(Err(FetchFailure::Parse("no JSON".to_string()))).unwrap_err(),
        AppError::Internal("CI OIDC discovery parse failed: no JSON".to_string())
    );
    let document = fetch_discovery(Ok(parse("{\"a\": 1}"))).unwrap();
    assert!(document.equals(&parse("{\"a\": 1}")));
}

#[test]
fn the_document_says_where_the_keys_are() {
    assert_eq!(jwks_uri(&parse("{\"jwks_uri\": \"https://k\"}")), Ok("https://k".to_string()));
    for document in ["{}", "{\"jwks_uri\": 1}", "[]"] {
        assert_eq!(
            jwks_uri(&parse(document)),
            Err(AppError::Internal("OIDC discovery missing jwks_uri".to_string()))
        );
    }
}

#[test]
fn keys_are_kept_for_five_minutes() {
    let mut cache = JwksCache::new();
    assert!(cache.lookup("https://k", 0).is_none());
    let fetched = cache.fetch_jwks("https://k", Ok(parse("{\"keys\": [1]}")), 1_000).unwrap();
    assert!(fetched.equals(&parse("{\"keys\": [1]}")));
    let kept = cache.lookup("https://k", 1_000 + JWKS_CACHE_TTL_NANOS - 1).unwrap();
    assert!(kept.equals(&fetched));
    assert!(cache.lookup("https://k", 1_000 + JWKS_CACHE_TTL_NANOS).is_none());
    assert!(cache.lookup("https://k", 0).is_some());
    assert_eq!(JWKS_CACHE_TTL_NANOS, 300 * 1_000_000_000);
}

#[test]
fn keys_that_are_not_kept_are_fetched() {
    let mut cache = JwksCache::new();
    assert!(matches!(cache.key_source("https://k", 0), KeySource::Fetch(uri) if uri == "https://k"));
    cache.fetch_jwks("https://k", Ok(parse("[1]")), 0).unwrap();
    match cache.key_source("https://k", 1) {
        KeySource::Kept(keys) => assert!(keys.equals(&parse("[1]"))),
        other => panic!("not kept: {:?}", other),
    }
    assert!(matches!(cache.key_source("https://k", JWKS_CACHE_TTL_NANOS), KeySource::Fetch(_)));
}

#[test]
fn fetching_again_replaces_the_keys() {
    let mut cache = JwksCache::new();
    cache.fetch_jwks("https://k", Ok(parse("[1]")), 0).unwrap();
    cache.fetch_jwks("https://k", Ok(parse("[2]")), JWKS_CACHE_TTL_NANOS).unwrap();
    let kept = cache.lookup("https://k", JWKS_CACHE_TTL_NANOS + 5).unwrap();
    assert!(kept.equals(&parse("[2]")));
}

#[test]
fn addresses_are_kept_apart() {
    let mut cache = JwksCache::new();
    cache.fetch_jwks("https://a", Ok(parse("[1]")), 0).unwrap();
    cache.fetch_jwks("https://b", Ok(parse("[2]")), 7).unwrap();
    assert!(cache.lookup("https://a", 8).unwrap().equals(&parse("[1]")));
    assert!(cache.lookup("https://b", 8).unwrap().equals(&parse("[2]")));
    assert!(cache.lookup("https://c", 8).is_none());
}

#[test]
fn a_failed_fetch_keeps_the_cache() {
    let mut cache = JwksCache::new();
    cache.fetch_jwks("https://a", Ok(parse("[1]")), 0).unwrap();
    assert_eq!(
        cache.fetch_jwks("https://a", Err(FetchFailure::Send("down".to_string())), 1).unwrap_err(),
        AppError::Internal("CI JWKS fetch failed: down".to_string())
    );
    assert_eq!(
        cache.fetch_jwks("https://a", Err(FetchFailure::Parse("no".to_string())), 1).unwrap_err(),
        AppError::Internal("CI JWKS parse failed: no".to_string())
    );
    assert!(cache.lookup("https://a", 2).unwrap().equals(&parse("[1]")));
}
