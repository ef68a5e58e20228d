//! Stored rows, requests and responses.

use crate::json::Json;
use crate::uuid::Uuid;
use vstd::prelude::*;

verus! {

/// A point in time: whole seconds since the Unix epoch, and the nanoseconds beyond them.
#[derive(Debug, Clone, Copy, PartialEq, Eq, Structural)]
pub struct Timestamp {
    pub secs: i64,
    pub nanos: u32,
}

/// A trusted CI identity provider, as stored.
#[derive(Debug, Clone, PartialEq, Eq)]
pub struct CiOidcProvider {
    pub id: Uuid,
    pub name: String,
    pub provider_type: String,
    pub issuer_url: String,
    pub audience: String,
    pub is_enabled: bool,
    pub created_at: Timestamp,
    pub updated_at: Timestamp,
}

/// A stored provider together with the number of its identity mappings.
#[derive(Debug, PartialEq, Eq)]
pub struct CiOidcProviderRow {
    pub id: Uuid,
    pub name: String,
    pub provider_type: String,
    pub issuer_url: String,
    pub audience: String,
    pub is_enabled: bool,
    pub created_at: Timestamp,
    pub updated_at: Timestamp,
    pub mapping_count: i64,
}

/// An identity mapping of a provider, as stored.
#[derive(Debug, Clone)]
pub struct CiOidcIdentityMapping {
    pub id: Uuid,
    pub provider_id: Uuid,
    pub name: String,
    /// Lower numbers are tried first.
    pub priority: i32,
    /// What a token's claims must hold.  Each member name is a claim name; the member is
    /// either the value that the claim must have or an array of the values it may have.
    pub claim_filters: Json,
    /// The role that the service account of this mapping receives.
    pub role_id: Option<Uuid>,
    /// The repositories to which the role is narrowed.
    pub allowed_repo_ids: Option<Vec<Uuid>>,
    pub is_enabled: bool,
    pub created_at: Timestamp,
    pub updated_at: Timestamp,
}

/// Asks for a new provider.
#[derive(Debug)]
pub struct CreateCiOidcProviderRequest {
    pub name: String,
    pub provider_type: Option<String>,
    pub issuer_url: String,
    pub audience: Option<String>,
    pub is_enabled: Option<bool>,
}

/// Asks to change a provider.  What is absent stays as it is.
#[derive(Debug)]
pub struct UpdateCiOidcProviderRequest {
    pub name: Option<String>,
    pub provider_type: Option<String>,
    pub issuer_url: Option<String>,
    pub audience: Option<String>,
    pub is_enabled: Option<bool>,
}

/// A provider as administrators see it.
#[derive(Debug, Clone, PartialEq, Eq)]
pub struct CiOidcProviderResponse {
    pub id: Uuid,
    pub name: String,
    pub provider_type: String,
    pub issuer_url: String,
    pub audience: String,
    pub is_enabled: bool,
    pub mapping_count: i64,
    pub created_at: Timestamp,
    pub updated_at: Timestamp,
}

/// Asks to enable or disable a provider or a mapping.
#[derive(Debug)]
pub struct CiOidcToggleRequest {
    pub enabled: bool,
}

/// Asks for a new identity mapping.
#[derive(Debug)]
pub struct CreateCiOidcMappingRequest {
    pub name: String,
    pub priority: Option<i32>,
    pub claim_filters: Json,
    pub role_id: Option<Uuid>,
    pub allowed_repo_ids: Option<Vec<Uuid>>,
    pub is_enabled: Option<bool>,
}

/// Asks to change an identity mapping.  What is absent stays as it is.
#[derive(Debug)]
pub struct UpdateCiOidcMappingRequest {
    pub name: Option<String>,
    pub priority: Option<i32>,
    pub claim_filters: Option<Json>,
    pub role_id: Option<Uuid>,
    pub allowed_repo_ids: Option<Vec<Uuid>>,
    pub is_enabled: Option<bool>,
}

/// An identity mapping as administrators see it.
#[derive(Debug, Clone)]
pub struct CiOidcMappingResponse {
    pub id: Uuid,
    pub provider_id: Uuid,
    pub name: String,
    pub priority: i32,
    pub claim_filters: Json,
    pub role_id: Option<Uuid>,
    pub allowed_repo_ids: Option<Vec<Uuid>>,
    pub is_enabled: bool,
    pub created_at: Timestamp,
    pub updated_at: Timestamp,
}

/// The columns of a provider that are written when it is created or changed.
#[derive(Debug, PartialEq, Eq)]
pub struct ProviderColumns {
    pub name: String,
    pub provider_type: String,
    pub issuer_url: String,
    pub audience: String,
    pub is_enabled: bool,
}

/// The columns of a mapping that are written when it is created or changed.
#[derive(Debug)]
pub struct MappingColumns {
    pub name: String,
    pub priority: i32,
    pub claim_filters: Json,
    pub role_id: Option<Uuid>,
    pub allowed_repo_ids: Option<Vec<Uuid>>,
    pub is_enabled: bool,
}

/// The account that the registry provisions for a federated caller.
#[derive(Debug, PartialEq, Eq)]
pub struct FederatedCredentials {
    pub external_id: String,
    pub username: String,
    pub email: String,
    pub display_name: Option<String>,
    pub groups: Vec<String>,
    pub required_admin_group: Option<String>,
}

/// Where an account comes from.
#[derive(Debug, Clone, Copy, PartialEq, Eq, Structural)]
pub enum AuthProvider {
    /// A CI pipeline.
    Ci,
}

/// What administrators see of a stored provider.
pub open spec fn provider_response(row: CiOidcProviderRow) -> CiOidcProviderResponse {
    CiOidcProviderResponse {
        id: row.id,
        name: row.name,
        provider_type: row.provider_type,
        issuer_url: row.issuer_url,
        audience: row.audience,
        is_enabled: row.is_enabled,
        mapping_count: row.mapping_count,
        created_at: row.created_at,
        updated_at: row.updated_at,
    }
}

/// What administrators see of a stored mapping.
pub open spec fn mapping_response(row: CiOidcIdentityMapping) -> CiOidcMappingResponse {
    CiOidcMappingResponse {
        id: row.id,
        provider_id: row.provider_id,
        name: row.name,
        priority: row.priority,
        claim_filters: row.claim_filters,
        role_id: row.role_id,
        allowed_repo_ids: row.allowed_repo_ids,
        is_enabled: row.is_enabled,
        created_at: row.created_at,
        updated_at: row.updated_at,
    }
}

impl From<CiOidcIdentityMapping> for CiOidcMappingResponse {
    fn from(m: CiOidcIdentityMapping) -> (response: Self) {
        CiOidcMappingResponse {
            id: m.id,
            provider_id: m.provider_id,
            name: m.name,
            priority: m.priority,
            claim_filters: m.claim_filters,
            role_id: m.role_id,
            allowed_repo_ids: m.allowed_repo_ids,
            is_enabled: m.is_enabled,
            created_at: m.created_at,
            updated_at: m.updated_at,
        }
    }
}

impl vstd::std_specs::convert::FromSpecImpl<CiOidcIdentityMapping> for CiOidcMappingResponse {
    open spec fn obeys_from_spec() -> bool {
        true
    }

    open spec fn from_spec(m: CiOidcIdentityMapping) -> CiOidcMappingResponse {
        mapping_response(m)
    }
}

} // verus!
