use ci_oidc::error::AppError;
use ci_oidc::json::Json;
use ci_oidc::model::{CiOidcIdentityMapping, CiOidcProvider, Timestamp};
use ci_oidc::service::CiOidcService;
use ci_oidc::uuid::Uuid;

const THEN: Timestamp = Timestamp { secs: 0, nanos: 0 };

fn parse(text: &str) -> Json {
    Json::from_parsed(serde_json::from_str(text).unwrap())
}

fn mapping(id: u128, priority: i32, filters: &str) -> CiOidcIdentityMapping {
    CiOidcIdentityMapping {
        id: Uuid(id),
        provider_id: Uuid(1),
        name: "deploy".to_string(),
        priority,
        claim_filters: parse(filters),
        role_id: None,
        allowed_repo_ids: None,
        is_enabled: true,
        created_at: THEN,
        updated_at: THEN,
    }
}

fn provider(provider_type: &str) -> CiOidcProvider {
    CiOidcProvider {
        id: Uuid(1),
        name: "Forge".to_string(),
        provider_type: provider_type.to_string(),
        issuer_url: "https://forge.example.com".to_string(),
        audience: "artifact-keeper".to_string(),
        is_enabled: true,
        created_at: THEN,
        updated_at: THEN,
    }
}

fn refused() -> AppError {
    AppError::Authentication("CI JWT did not match any configured identity mapping".to_string())
}

#[test]
fn every_filter_must_match() {
    let filters = parse("{\"project_path\": \"acme/app\", \"ref\": \"main\"}");
    let check = |claims: &str| CiOidcService::check_claim_policy(&filters, &parse(claims));
    assert_eq!(check("{\"project_path\": \"acme/app\", \"ref\": \"main\", \"x\": 1}"), Ok(()));
    assert_eq!(check("{\"project_path\": \"acme/app\", \"ref\": \"dev\"}"), Err(refused()));
    assert_eq!(check("{\"project_path\": \"acme/app\"}"), Err(refused()));
    assert_eq!(check("\"acme/app\""), Err(refused()));
}

#[test]
fn an_array_lists_the_values_a_claim_may_have() {
    let filters = parse("{\"namespace_path\": [\"group-a\", \"group-b\"]}");
    let check = |claims: &str| CiOidcService::check_claim_policy(&filters, &parse(claims));
    assert_eq!(check("{\"namespace_path\": \"group-a\"}"), Ok(()));
    assert_eq!(check("{\"namespace_path\": \"group-b\"}"), Ok(()));
    assert_eq!(check("{\"namespace_path\": \"group-c\"}"), Err(refused()));
    assert_eq!(check("{\"namespace_path\": [\"group-a\", \"group-b\"]}"), Err(refused()));
    let nothing = parse("{\"namespace_path\": []}");
    assert_eq!(
        CiOidcService::check_claim_policy(&nothing, &parse("{\"namespace_path\": []}")),
        Err(refused())
    );
}

#[test]
fn a_missing_claim_satisfies_no_filter() {
    let null = parse("{\"environment\": null}");
    assert_eq!(
        CiOidcService::check_claim_policy(&null, &parse("{\"sub\": \"s1\"}")),
        Err(refused())
    );
    assert_eq!(CiOidcService::check_claim_policy(&null, &null), Ok(()));
    let filters = parse("{\"environment\": [\"prod\", null]}");
    assert_eq!(CiOidcService::check_claim_policy(&filters, &parse("{}")), Err(refused()));
    assert_eq!(CiOidcService::check_claim_policy(&filters, &null), Ok(()));
    assert_eq!(
        CiOidcService::check_claim_policy(&filters, &parse("{\"environment\": \"dev\"}")),
        Err(refused())
    );
}

#[test]
fn operators_see_which_claims_failed() {
    let claims = parse("{\"b\": 2, \"c\": 4}");
    let filters = parse("{\"b\": 2, \"c\": 3, \"d\": 5}");
    assert_eq!(CiOidcService::failed_claim(&filters, &claims).map(String::as_str), Some("c"));
    assert_eq!(CiOidcService::failed_claim(&parse("{\"b\": 2}"), &claims), None);
    assert_eq!(CiOidcService::failed_claim(&parse("[]"), &claims), None);
    let rows = vec![
        mapping(10, 1, "{\"b\": 2, \"c\": 3}"),
        mapping(11, 2, "[]"),
        mapping(12, 3, "{\"a\": null}"),
        mapping(13, 4, "{\"b\": 2}"),
        mapping(14, 5, "{\"e\": 6}"),
    ];
    assert_eq!(
        CiOidcService::failed_claims(&rows, &claims),
        vec!["c".to_string(), "a".to_string()]
    );
}

#[test]
fn refusals_do_not_tell_how_mappings_are_configured() {
    let claims = parse("{\"a\": 1}");
    let refusal = |filters: &str| {
        CiOidcService::resolve_mapping(Ok(vec![mapping(10, 1, filters)]), &claims).unwrap_err()
    };
    assert_eq!(refusal("{\"a\": 2}"), refusal("{\"b\": [3]}"));
    assert_eq!(refusal("{\"a\": 2}"), refusal("[]"));
}

#[test]
fn added_mappings_that_come_later_change_nothing() {
    let claims = parse("{\"ref\": \"main\"}");
    let alone = vec![mapping(10, 5, "{\"ref\": \"main\"}")];
    let among = vec![
        mapping(11, 1, "{\"ref\": \"dev\"}"),
        mapping(12, 2, "null"),
        mapping(10, 5, "{\"ref\": \"main\"}"),
        mapping(13, 6, "{}"),
    ];
    assert_eq!(CiOidcService::resolve_mapping(Ok(alone), &claims).unwrap().id, Uuid(10));
    assert_eq!(CiOidcService::resolve_mapping(Ok(among), &claims).unwrap().id, Uuid(10));
}

#[test]
fn no_filters_accept_everything() {
    assert_eq!(CiOidcService::check_claim_policy(&parse("{}"), &parse("{\"a\": 1}")), Ok(()));
    assert_eq!(CiOidcService::check_claim_policy(&parse("{}"), &parse("null")), Ok(()));
}

#[test]
fn dropping_a_filter_admits_no_less() {
    let claims = parse("{\"a\": 1, \"b\": 2}");
    assert_eq!(CiOidcService::check_claim_policy(&parse("{\"a\": 1, \"b\": 2}"), &claims), Ok(()));
    assert_eq!(CiOidcService::check_claim_policy(&parse("{\"a\": 1}"), &claims), Ok(()));
}

#[test]
fn filters_must_be_an_object() {
    for filters in ["null", "[]", "\"a\"", "1", "true"] {
        assert_eq!(
            CiOidcService::check_claim_policy(&parse(filters), &parse("{}")),
            Err(AppError::Internal("claim_filters must be a JSON object".to_string()))
        );
    }
}

#[test]
fn the_first_accepting_mapping_wins() {
    let claims = parse("{\"ref\": \"main\", \"project\": \"p\"}");
    let rows = vec![
        mapping(10, 1, "{\"ref\": \"dev\"}"),
        mapping(11, 2, "[]"),
        mapping(12, 3, "{\"ref\": \"main\"}"),
        mapping(13, 4, "{\"project\": \"p\"}"),
    ];
    assert_eq!(CiOidcService::resolve_mapping(Ok(rows), &claims).unwrap().id, Uuid(12));
}

#[test]
fn a_token_without_a_mapping_is_refused() {
    let claims = parse("{\"ref\": \"main\"}");
    assert_eq!(
        CiOidcService::resolve_mapping(Ok(vec![]), &claims).unwrap_err(),
        AppError::Authentication(
            "No CI OIDC identity mappings configured for this provider".to_string()
        )
    );
    assert_eq!(
        CiOidcService::resolve_mapping(Ok(vec![mapping(10, 1, "{\"ref\": \"dev\"}")]), &claims)
            .unwrap_err(),
        AppError::Authentication("CI JWT did not match any identity mapping".to_string())
    );
    assert_eq!(
        CiOidcService::resolve_mapping(Err("gone".to_string()), &claims).unwrap_err(),
        AppError::Database("gone".to_string())
    );
}

#[test]
fn gitlab_accounts_show_their_project() {
    let id: u128 = 0xabc12345_6789_4def_8123_456789abcdef;
    let row = mapping(id, 1, "{}");
    let claims = parse(
        "{\"sub\": \"project_path:acme/app:ref:main\", \"project_path\": \"acme/app\",
          \"namespace_path\": \"acme\"}",
    );
    let account =
        CiOidcService::extract_identity_from_mapping(&provider("gitlab"), &row, &claims);
    assert_eq!(account.username, "ci-abc12345");
    assert_eq!(account.email, "ci-abc12345@ci.artifact-keeper.internal");
    assert_eq!(account.external_id, "project_path:acme/app:ref:main");
    assert_eq!(account.display_name.as_deref(), Some("CI [GitLab] deploy — acme/app"));
    assert_eq!(account.groups, vec!["ci".to_string()]);
    assert_eq!(account.required_admin_group, None);
    let account = CiOidcService::extract_identity_from_mapping(
        &provider("gitlab"),
        &row,
        &parse("{\"namespace_path\": \"acme\", \"project_path\": 3}"),
    );
    assert_eq!(account.display_name.as_deref(), Some("CI [GitLab] deploy — acme"));
    assert_eq!(account.external_id, "ci-abc12345");
    let account =
        CiOidcService::extract_identity_from_mapping(&provider("gitlab"), &row, &parse("{}"));
    assert_eq!(account.display_name.as_deref(), Some("CI [GitLab] deploy — unknown"));
}

#[test]
fn other_accounts_show_their_platform() {
    let row = mapping(1, 1, "{}");
    let claims = parse("{\"repository\": \"acme/app\"}");
    let account =
        CiOidcService::extract_identity_from_mapping(&provider("github"), &row, &claims);
    assert_eq!(account.username, "ci-00000000");
    assert_eq!(account.display_name.as_deref(), Some("CI [GitHub] deploy — acme/app"));
    let account =
        CiOidcService::extract_identity_from_mapping(&provider("github"), &row, &parse("[]"));
    assert_eq!(account.display_name.as_deref(), Some("CI [GitHub] deploy — unknown"));
    let account =
        CiOidcService::extract_identity_from_mapping(&provider("generic"), &row, &claims);
    assert_eq!(account.display_name.as_deref(), Some("CI [Forge] deploy"));
}

#[test]
fn the_account_of_a_mapping_is_stable() {
    let id: u128 = 0x00ff10ab_0000_0000_0000_000000000001;
    let main = CiOidcService::extract_identity_from_mapping(
        &provider("gitlab"),
        &mapping(id, 1, "{}"),
        &parse("{\"ref\": \"main\"}"),
    );
    let dev = CiOidcService::extract_identity_from_mapping(
        &provider("github"),
        &mapping(id, 9, "{\"ref\": \"dev\"}"),
        &parse("{\"ref\": \"dev\"}"),
    );
    assert_eq!(main.username, "ci-00ff10ab");
    assert_eq!(main.username, dev.username);
    assert_eq!(main.email, dev.email);
}

#[test]
fn accounts_differ_with_the_first_digits() {
    let name = |id: u128| {
        CiOidcService::extract_identity_from_mapping(
            &provider("generic"),
            &mapping(id, 1, "{}"),
            &parse("{}"),
        )
        .username
    };
    let base: u128 = 0x12345678_0000_0000_0000_000000000000;
    assert_eq!(name(base), name(base + 1));
    assert_ne!(name(base), name(base + (1u128 << 96)));
    assert_eq!(name(u128::MAX), "ci-ffffffff");
}
