use ci_oidc::admin::{require_admin, AuthExtension};
use ci_oidc::error::AppError;
use ci_oidc::json::{Json, JsonNumber};
use ci_oidc::model::{
    AuthProvider, CiOidcIdentityMapping, CiOidcProvider, CiOidcProviderRow,
    CreateCiOidcMappingRequest, CreateCiOidcProviderRequest, Timestamp,
    UpdateCiOidcMappingRequest, UpdateCiOidcProviderRequest,
};
use ci_oidc::service::CiOidcService;
use ci_oidc::uuid::Uuid;

const THEN: Timestamp = Timestamp { secs: 1_700_000_000, nanos: 5 };

fn provider() -> CiOidcProvider {
    CiOidcProvider {
        id: Uuid(1),
        name: "GitLab".to_string(),
        provider_type: "gitlab".to_string(),
        issuer_url: "https://gitlab.example.com".to_string(),
        audience: "artifact-keeper".to_string(),
        is_enabled: true,
        created_at: THEN,
        updated_at: THEN,
    }
}

fn row() -> CiOidcProviderRow {
    CiOidcProviderRow {
        id: Uuid(1),
        name: "GitLab".to_string(),
        provider_type: "gitlab".to_string(),
        issuer_url: "https://gitlab.example.com".to_string(),
        audience: "artifact-keeper".to_string(),
        is_enabled: true,
        created_at: THEN,
        updated_at: THEN,
        mapping_count: 3,
    }
}

fn mapping() -> CiOidcIdentityMapping {
    CiOidcIdentityMapping {
        id: Uuid(2),
        provider_id: Uuid(1),
        name: "deploy".to_string(),
        priority: 10,
        claim_filters: Json::Null,
        role_id: Some(Uuid(7)),
        allowed_repo_ids: Some(vec![Uuid(8)]),
        is_enabled: true,
        created_at: THEN,
        updated_at: THEN,
    }
}

fn no_provider() -> AppError {
    AppError::NotFound("CI OIDC provider not found".to_string())
}

fn no_mapping() -> AppError {
    AppError::NotFound("CI OIDC identity mapping not found".to_string())
}

fn broken() -> AppError {
    AppError::Database("connection lost".to_string())
}

#[test]
fn providers_are_listed_in_their_order() {
    let mut second = row();
    second.id = Uuid(9);
    second.mapping_count = 0;
    let listed = CiOidcService::list(Ok(vec![row(), second])).unwrap();
    assert_eq!(listed.len(), 2);
    assert_eq!(listed[0].id, Uuid(1));
    assert_eq!(listed[0].mapping_count, 3);
    assert_eq!(listed[0].created_at, THEN);
    assert_eq!(listed[1].id, Uuid(9));
    assert_eq!(CiOidcService::list(Err("connection lost".to_string())).unwrap_err(), broken());
}

#[test]
fn a_provider_is_found_or_not() {
    assert_eq!(CiOidcService::get(Ok(Some(provider()))).unwrap(), provider());
    assert_eq!(CiOidcService::get(Ok(None)).unwrap_err(), no_provider());
    assert_eq!(CiOidcService::get(Err("connection lost".to_string())).unwrap_err(), broken());
    let response = CiOidcService::get_response(Ok(Some(row()))).unwrap();
    assert_eq!(response.issuer_url, "https://gitlab.example.com");
    assert_eq!(response.mapping_count, 3);
    assert_eq!(CiOidcService::get_response(Ok(None)).unwrap_err(), no_provider());
    assert_eq!(
        CiOidcService::get_response(Err("connection lost".to_string())).unwrap_err(),
        broken()
    );
}

#[test]
fn new_providers_have_defaults() {
    let columns = CiOidcService::create(CreateCiOidcProviderRequest {
        name: "n".to_string(),
        provider_type: None,
        issuer_url: "https://i".to_string(),
        audience: None,
        is_enabled: None,
    });
    assert_eq!(columns.name, "n");
    assert_eq!(columns.provider_type, "generic");
    assert_eq!(columns.issuer_url, "https://i");
    assert_eq!(columns.audience, "artifact-keeper");
    assert!(columns.is_enabled);
    let columns = CiOidcService::create(CreateCiOidcProviderRequest {
        name: "n".to_string(),
        provider_type: Some("github".to_string()),
        issuer_url: "https://i".to_string(),
        audience: Some("other".to_string()),
        is_enabled: Some(false),
    });
    assert_eq!(columns.provider_type, "github");
    assert_eq!(columns.audience, "other");
    assert!(!columns.is_enabled);
}

#[test]
fn a_provider_change_keeps_what_it_does_not_name() {
    let columns = CiOidcService::update(
        provider(),
        UpdateCiOidcProviderRequest {
            name: Some("renamed".to_string()),
            provider_type: None,
            issuer_url: None,
            audience: Some("other".to_string()),
            is_enabled: Some(false),
        },
    );
    assert_eq!(columns.name, "renamed");
    assert_eq!(columns.provider_type, "gitlab");
    assert_eq!(columns.issuer_url, "https://gitlab.example.com");
    assert_eq!(columns.audience, "other");
    assert!(!columns.is_enabled);
}

#[test]
fn changing_nothing_keeps_everything() {
    let columns = CiOidcService::update(
        provider(),
        UpdateCiOidcProviderRequest {
            name: None,
            provider_type: None,
            issuer_url: None,
            audience: None,
            is_enabled: None,
        },
    );
    assert_eq!(columns.name, provider().name);
    assert_eq!(columns.audience, provider().audience);
    assert!(columns.is_enabled);
    let columns = CiOidcService::update_mapping(
        mapping(),
        UpdateCiOidcMappingRequest {
            name: None,
            priority: None,
            claim_filters: None,
            role_id: None,
            allowed_repo_ids: None,
            is_enabled: None,
        },
    );
    assert_eq!(columns.name, "deploy");
    assert_eq!(columns.priority, 10);
    assert_eq!(columns.role_id, Some(Uuid(7)));
    assert_eq!(columns.allowed_repo_ids, Some(vec![Uuid(8)]));
}

#[test]
fn statements_that_affect_no_row_find_nothing() {
    assert_eq!(CiOidcService::delete(Ok(1)), Ok(()));
    assert_eq!(CiOidcService::delete(Ok(0)), Err(no_provider()));
    assert_eq!(CiOidcService::delete(Err("connection lost".to_string())), Err(broken()));
    assert_eq!(CiOidcService::toggle(Ok(1)), Ok(()));
    assert_eq!(CiOidcService::toggle(Ok(0)), Err(no_provider()));
    assert_eq!(CiOidcService::delete_mapping(Ok(2)), Ok(()));
    assert_eq!(CiOidcService::delete_mapping(Ok(0)), Err(no_mapping()));
    assert_eq!(CiOidcService::delete_mapping(Err("connection lost".to_string())), Err(broken()));
    assert_eq!(CiOidcService::database_reply(Ok(5u8)), Ok(5u8));
    assert_eq!(
        CiOidcService::database_reply::<u8>(Err("connection lost".to_string())),
        Err(broken())
    );
}

#[test]
fn mappings_are_found_or_not() {
    let found = CiOidcService::get_mapping(Ok(Some(mapping()))).unwrap();
    assert_eq!(found.id, Uuid(2));
    assert_eq!(found.provider_id, Uuid(1));
    assert_eq!(found.priority, 10);
    assert_eq!(found.allowed_repo_ids, Some(vec![Uuid(8)]));
    assert_eq!(CiOidcService::get_mapping(Ok(None)).unwrap_err(), no_mapping());
    assert_eq!(CiOidcService::toggle_mapping(Ok(None)).unwrap_err(), no_mapping());
    assert_eq!(CiOidcService::toggle_mapping(Ok(Some(mapping()))).unwrap().name, "deploy");
    assert_eq!(CiOidcService::existing_mapping(Ok(None)).unwrap_err(), no_mapping());
    assert_eq!(CiOidcService::existing_mapping(Ok(Some(mapping()))).unwrap().id, Uuid(2));
    assert_eq!(CiOidcService::written_mapping(Ok(mapping())).unwrap().role_id, Some(Uuid(7)));
    assert_eq!(
        CiOidcService::written_mapping(Err("connection lost".to_string())).unwrap_err(),
        broken()
    );
    let listed = CiOidcService::list_mappings(Ok(vec![mapping(), mapping()])).unwrap();
    assert_eq!(listed.len(), 2);
    assert_eq!(
        CiOidcService::list_mappings(Err("connection lost".to_string())).unwrap_err(),
        broken()
    );
}

#[test]
fn new_mappings_have_defaults() {
    let columns = CiOidcService::create_mapping(CreateCiOidcMappingRequest {
        name: "m".to_string(),
        priority: None,
        claim_filters: Json::Number(JsonNumber::PosInt(1)),
        role_id: None,
        allowed_repo_ids: None,
        is_enabled: None,
    });
    assert_eq!(columns.priority, 100);
    assert!(columns.is_enabled);
    assert!(columns.role_id.is_none());
    let columns = CiOidcService::create_mapping(CreateCiOidcMappingRequest {
        name: "m".to_string(),
        priority: Some(-5),
        claim_filters: Json::Null,
        role_id: Some(Uuid(4)),
        allowed_repo_ids: Some(vec![]),
        is_enabled: Some(false),
    });
    assert_eq!(columns.priority, -5);
    assert!(!columns.is_enabled);
    assert_eq!(columns.role_id, Some(Uuid(4)));
    assert_eq!(columns.allowed_repo_ids, Some(vec![]));
}

#[test]
fn a_mapping_change_replaces_what_it_names() {
    let columns = CiOidcService::update_mapping(
        mapping(),
        UpdateCiOidcMappingRequest {
            name: Some("renamed".to_string()),
            priority: Some(20),
            claim_filters: Some(Json::Bool(true)),
            role_id: Some(Uuid(70)),
            allowed_repo_ids: Some(vec![]),
            is_enabled: Some(false),
        },
    );
    assert_eq!(columns.name, "renamed");
    assert_eq!(columns.priority, 20);
    assert!(matches!(columns.claim_filters, Json::Bool(true)));
    assert_eq!(columns.role_id, Some(Uuid(70)));
    assert_eq!(columns.allowed_repo_ids, Some(vec![]));
    assert!(!columns.is_enabled);
}

#[test]
fn only_administrators_pass() {
    assert_eq!(require_admin(&AuthExtension { admin_check: Ok(()) }), Ok(()));
    for refusal in [
        AppError::Database("d".to_string()),
        AppError::NotFound("n".to_string()),
        AppError::Authentication("a".to_string()),
        AppError::Authorization("z".to_string()),
        AppError::Internal("i".to_string()),
        AppError::Validation("v".to_string()),
    ] {
        let auth = AuthExtension { admin_check: Err(refusal.clone()) };
        assert_eq!(require_admin(&auth), Err(refusal));
        assert_eq!(auth.clone().require_admin(), auth.admin_check);
    }
}

#[test]
fn accounts_of_pipelines_come_from_ci() {
    assert_eq!(CiOidcService::auth_provider(), AuthProvider::Ci);
}
