use ci_oidc::admin;
use ci_oidc::admin::AuthExtension;
use ci_oidc::error::AppError;
use ci_oidc::json::Json;
use ci_oidc::model::{
    CiOidcIdentityMapping, CiOidcProvider, CiOidcProviderRow, CiOidcToggleRequest,
    CreateCiOidcMappingRequest, CreateCiOidcProviderRequest, Timestamp,
    UpdateCiOidcMappingRequest, UpdateCiOidcProviderRequest,
};
use ci_oidc::uuid::Uuid;

const ADMIN: AuthExtension = AuthExtension { admin_check: Ok(()) };
const THEN: Timestamp = Timestamp { secs: 1_700_000_000, nanos: 0 };

fn provider() -> CiOidcProvider {
    CiOidcProvider {
        id: Uuid(1),
        name: "GitHub".to_string(),
        provider_type: "github".to_string(),
        issuer_url: "https://ci.example.com".to_string(),
        audience: "registry".to_string(),
        is_enabled: true,
        created_at: THEN,
        updated_at: THEN,
    }
}

fn counted() -> CiOidcProviderRow {
    CiOidcProviderRow {
        id: Uuid(1),
        name: "GitHub".to_string(),
        provider_type: "github".to_string(),
        issuer_url: "https://ci.example.com".to_string(),
        audience: "registry".to_string(),
        is_enabled: true,
        created_at: THEN,
        updated_at: THEN,
        mapping_count: 2,
    }
}

fn mapping() -> CiOidcIdentityMapping {
    CiOidcIdentityMapping {
        id: Uuid(2),
        provider_id: Uuid(1),
        name: "deploy".to_string(),
        priority: 10,
        claim_filters: Json::Null,
        role_id: Some(Uuid(7)),
        allowed_repo_ids: None,
        is_enabled: true,
        created_at: THEN,
        updated_at: THEN,
    }
}

fn new_provider() -> CreateCiOidcProviderRequest {
    CreateCiOidcProviderRequest {
        name: "GitHub".to_string(),
        provider_type: None,
        issuer_url: "https://ci.example.com".to_string(),
        audience: None,
        is_enabled: None,
    }
}

fn disabling() -> UpdateCiOidcProviderRequest {
    UpdateCiOidcProviderRequest {
        name: None,
        provider_type: None,
        issuer_url: None,
        audience: None,
        is_enabled: Some(false),
    }
}

fn new_mapping() -> CreateCiOidcMappingRequest {
    CreateCiOidcMappingRequest {
        name: "deploy".to_string(),
        priority: None,
        claim_filters: Json::Null,
        role_id: Some(Uuid(7)),
        allowed_repo_ids: None,
        is_enabled: None,
    }
}

fn reordering() -> UpdateCiOidcMappingRequest {
    UpdateCiOidcMappingRequest {
        name: None,
        priority: Some(5),
        claim_filters: None,
        role_id: None,
        allowed_repo_ids: None,
        is_enabled: None,
    }
}

fn refusal() -> AppError {
    AppError::Authorization("administrators only".to_string())
}

fn refused() -> Option<AppError> {
    Some(refusal())
}

fn no_provider() -> Option<AppError> {
    Some(AppError::NotFound("CI OIDC provider not found".to_string()))
}

fn no_mapping() -> Option<AppError> {
    Some(AppError::NotFound("CI OIDC identity mapping not found".to_string()))
}

fn lost() -> Option<AppError> {
    Some(AppError::Database("connection lost".to_string()))
}

fn failure() -> String {
    "connection lost".to_string()
}

#[test]
fn every_endpoint_refuses_others() {
    let other = AuthExtension { admin_check: Err(refusal()) };
    let off = || CiOidcToggleRequest { enabled: false };
    assert_eq!(admin::list_providers(&other).err(), refused());
    assert_eq!(admin::get_provider(&other, Uuid(1)).err(), refused());
    assert_eq!(admin::create_provider(&other, new_provider()).err(), refused());
    assert_eq!(admin::update_provider(&other, Uuid(1), disabling()).err(), refused());
    assert_eq!(admin::delete_provider(&other, Uuid(1)).err(), refused());
    assert_eq!(admin::toggle_provider(&other, Uuid(1), off()).err(), refused());
    assert_eq!(admin::list_mappings(&other, Uuid(1)).err(), refused());
    assert_eq!(admin::get_mapping(&other, Uuid(1), Uuid(2)).err(), refused());
    assert_eq!(admin::create_mapping(&other, Uuid(1), new_mapping()).err(), refused());
    assert_eq!(admin::update_mapping(&other, Uuid(1), Uuid(2), reordering()).err(), refused());
    assert_eq!(admin::delete_mapping(&other, Uuid(1), Uuid(2)).err(), refused());
    assert_eq!(admin::toggle_mapping(&other, Uuid(1), Uuid(2), off()).err(), refused());
}

#[test]
fn providers_are_listed() {
    let listed = admin::list_providers(&ADMIN).ok().unwrap().listed(Ok(vec![counted()])).unwrap();
    assert_eq!(listed.len(), 1);
    assert_eq!(listed[0].mapping_count, 2);
    let failed = admin::list_providers(&ADMIN).ok().unwrap().listed(Err(failure()));
    assert_eq!(failed.err(), lost());
}

#[test]
fn a_new_provider_is_stored_and_shown() {
    let inserting = admin::create_provider(&ADMIN, new_provider()).ok().unwrap();
    assert_eq!(inserting.step().columns.provider_type, "generic");
    assert_eq!(inserting.step().columns.audience, "artifact-keeper");
    assert!(inserting.step().columns.is_enabled);
    let reading = inserting.inserted(Ok(Uuid(1))).ok().unwrap();
    assert_eq!(reading.step().id, Uuid(1));
    assert_eq!(reading.read(Ok(Some(counted()))).unwrap().name, "GitHub");

    let inserting = admin::create_provider(&ADMIN, new_provider()).ok().unwrap();
    assert_eq!(inserting.inserted(Err(failure())).err(), lost());
}

#[test]
fn a_provider_is_found_changed_and_shown() {
    let finding = admin::update_provider(&ADMIN, Uuid(1), disabling()).ok().unwrap();
    assert_eq!(finding.step().id, Uuid(1));
    let writing = finding.found(Ok(Some(provider()))).ok().unwrap();
    assert_eq!(writing.step().id, Uuid(1));
    assert_eq!(writing.step().columns.audience, "registry");
    assert!(!writing.step().columns.is_enabled);
    let reading = writing.written(Ok(())).ok().unwrap();
    assert_eq!(reading.step().id, Uuid(1));
    assert_eq!(reading.read(Ok(None)).err(), no_provider());

    let finding = admin::update_provider(&ADMIN, Uuid(1), disabling()).ok().unwrap();
    assert_eq!(finding.found(Ok(None)).err(), no_provider());
    let finding = admin::update_provider(&ADMIN, Uuid(1), disabling()).ok().unwrap();
    let writing = finding.found(Ok(Some(provider()))).ok().unwrap();
    assert_eq!(writing.written(Err(failure())).err(), lost());
}

#[test]
fn a_provider_is_deleted_where_there_is_one() {
    let deleting = || admin::delete_provider(&ADMIN, Uuid(1)).ok().unwrap();
    assert_eq!(deleting().step().id, Uuid(1));
    assert_eq!(deleting().deleted(Ok(1)), Ok(()));
    assert_eq!(deleting().deleted(Ok(0)).err(), no_provider());
    assert_eq!(deleting().deleted(Err(failure())).err(), lost());
}

#[test]
fn a_provider_is_toggled_and_shown() {
    let toggling = || {
        let req = CiOidcToggleRequest { enabled: false };
        admin::toggle_provider(&ADMIN, Uuid(1), req).ok().unwrap()
    };
    assert!(!toggling().step().enabled);
    assert_eq!(toggling().toggled(Ok(1)).ok().unwrap().step().id, Uuid(1));
    assert_eq!(toggling().toggled(Ok(0)).err(), no_provider());
    assert_eq!(toggling().toggled(Err(failure())).err(), lost());
}

#[test]
fn mappings_are_listed_where_the_provider_exists() {
    let finding = || admin::list_mappings(&ADMIN, Uuid(1)).ok().unwrap();
    assert_eq!(finding().found(Ok(None)).err(), no_provider());
    let listing = finding().found(Ok(Some(provider()))).ok().unwrap();
    assert_eq!(listing.step().provider_id, Uuid(1));
    let listed = listing.listed(Ok(vec![mapping()])).unwrap();
    assert_eq!(listed.len(), 1);
    assert_eq!(listed[0].id, Uuid(2));
}

#[test]
fn a_mapping_is_shown_where_there_is_one() {
    let reading = || admin::get_mapping(&ADMIN, Uuid(1), Uuid(2)).ok().unwrap();
    assert_eq!(reading().step().provider_id, Uuid(1));
    assert_eq!(reading().step().mapping_id, Uuid(2));
    assert_eq!(reading().read(Ok(Some(mapping()))).unwrap().priority, 10);
    assert_eq!(reading().read(Ok(None)).err(), no_mapping());
}

#[test]
fn a_new_mapping_is_stored_where_the_provider_exists() {
    let finding = || admin::create_mapping(&ADMIN, Uuid(1), new_mapping()).ok().unwrap();
    assert_eq!(finding().found(Ok(None)).err(), no_provider());
    let inserting = finding().found(Ok(Some(provider()))).ok().unwrap();
    assert_eq!(inserting.step().provider_id, Uuid(1));
    assert_eq!(inserting.step().columns.priority, 100);
    assert_eq!(inserting.step().columns.role_id, Some(Uuid(7)));
    assert!(inserting.step().columns.is_enabled);
    assert_eq!(inserting.inserted(Ok(mapping())).unwrap().id, Uuid(2));
}

#[test]
fn a_mapping_is_found_and_changed() {
    let finding =
        || admin::update_mapping(&ADMIN, Uuid(1), Uuid(2), reordering()).ok().unwrap();
    assert_eq!(finding().found(Ok(None)).err(), no_mapping());
    let writing = finding().found(Ok(Some(mapping()))).ok().unwrap();
    assert_eq!(writing.step().provider_id, Uuid(1));
    assert_eq!(writing.step().mapping_id, Uuid(2));
    assert_eq!(writing.step().columns.priority, 5);
    assert_eq!(writing.step().columns.role_id, Some(Uuid(7)));
    assert_eq!(writing.written(Err(failure())).err(), lost());
}

#[test]
fn a_mapping_is_deleted_where_there_is_one() {
    let deleting = || admin::delete_mapping(&ADMIN, Uuid(1), Uuid(2)).ok().unwrap();
    assert_eq!(deleting().step().provider_id, Uuid(1));
    assert_eq!(deleting().deleted(Ok(1)), Ok(()));
    assert_eq!(deleting().deleted(Ok(0)).err(), no_mapping());
}

#[test]
fn a_mapping_is_toggled_where_there_is_one() {
    let toggling = || {
        let req = CiOidcToggleRequest { enabled: true };
        admin::toggle_mapping(&ADMIN, Uuid(1), Uuid(2), req).ok().unwrap()
    };
    assert!(toggling().step().enabled);
    assert_eq!(toggling().toggled(Ok(Some(mapping()))).unwrap().id, Uuid(2));
    assert_eq!(toggling().toggled(Ok(None)).err(), no_mapping());
}
