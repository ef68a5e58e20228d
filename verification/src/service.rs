//! Configuration of providers and identity mappings.
//!
//! Each function takes the reply of the database statement before it (or the text of the
//! error that the statement failed with) and says what is written next or what the
//! request is answered with.

use crate::error::{AppError, ErrorValue};
use crate::model;
use crate::model::{
    AuthProvider, CiOidcIdentityMapping, CiOidcMappingResponse, CiOidcProvider,
    CiOidcProviderResponse, CiOidcProviderRow, CreateCiOidcMappingRequest,
    CreateCiOidcProviderRequest, MappingColumns, ProviderColumns, UpdateCiOidcMappingRequest,
    UpdateCiOidcProviderRequest,
};
use vstd::prelude::*;

verus! {

/// The rules of the CI identity service.
pub struct CiOidcService;

/// How a request is answered whose provider does not exist.
pub open spec fn provider_not_found() -> ErrorValue {
    ErrorValue::NotFound("CI OIDC provider not found"@)
}

/// How a request is answered whose mapping does not exist.
pub open spec fn mapping_not_found() -> ErrorValue {
    ErrorValue::NotFound("CI OIDC identity mapping not found"@)
}

/// What is chosen, where something is; else the text that stands for nothing.
pub open spec fn text_or(chosen: Option<String>, otherwise: Seq<char>) -> Seq<char> {
    match chosen {
        Some(text) => text@,
        None => otherwise,
    }
}

/// What is chosen, where something is; else what there was.
pub open spec fn chosen_or<T>(chosen: Option<T>, otherwise: T) -> T {
    match chosen {
        Some(value) => value,
        None => otherwise,
    }
}

/// What is chosen, where something is; else what there was, which may be nothing.
pub open spec fn chosen_or_kept<T>(chosen: Option<T>, kept: Option<T>) -> Option<T> {
    if chosen is Some {
        chosen
    } else {
        kept
    }
}

/// Whether columns are those of a new provider.  A provider is of the generic type, expects
/// tokens for `artifact-keeper` and is enabled, unless the request says otherwise.
pub open spec fn new_provider(columns: ProviderColumns, req: CreateCiOidcProviderRequest) -> bool {
    &&& columns.name == req.name
    &&& columns.provider_type@ == text_or(req.provider_type, "generic"@)
    &&& columns.issuer_url == req.issuer_url
    &&& columns.audience@ == text_or(req.audience, "artifact-keeper"@)
    &&& columns.is_enabled == chosen_or(req.is_enabled, true)
}

/// The columns of a new mapping.  A mapping has priority 100 and is enabled, unless the
/// request says otherwise.
pub open spec fn new_mapping(req: CreateCiOidcMappingRequest) -> MappingColumns {
    MappingColumns {
        name: req.name,
        priority: chosen_or(req.priority, 100),
        claim_filters: req.claim_filters,
        role_id: req.role_id,
        allowed_repo_ids: req.allowed_repo_ids,
        is_enabled: chosen_or(req.is_enabled, true),
    }
}

/// The columns of a changed provider: what the request names, and for the rest what the
/// provider had.
pub open spec fn updated_provider(
    existing: CiOidcProvider,
    req: UpdateCiOidcProviderRequest,
) -> ProviderColumns {
    ProviderColumns {
        name: chosen_or(req.name, existing.name),
        provider_type: chosen_or(req.provider_type, existing.provider_type),
        issuer_url: chosen_or(req.issuer_url, existing.issuer_url),
        audience: chosen_or(req.audience, existing.audience),
        is_enabled: chosen_or(req.is_enabled, existing.is_enabled),
    }
}

/// The columns of a changed mapping: what the request names, and for the rest what the
/// mapping had.
pub open spec fn updated_mapping(
    existing: CiOidcIdentityMapping,
    req: UpdateCiOidcMappingRequest,
) -> MappingColumns {
    MappingColumns {
        name: chosen_or(req.name, existing.name),
        priority: chosen_or(req.priority, existing.priority),
        claim_filters: chosen_or(req.claim_filters, existing.claim_filters),
        role_id: chosen_or_kept(req.role_id, existing.role_id),
        allowed_repo_ids: chosen_or_kept(req.allowed_repo_ids, existing.allowed_repo_ids),
        is_enabled: chosen_or(req.is_enabled, existing.is_enabled),
    }
}

/// Whether rows are answered rightly: with all providers, in the order of the rows.
pub open spec fn lists_providers(
    rows: Result<Vec<CiOidcProviderRow>, String>,
    answer: Result<Vec<CiOidcProviderResponse>, AppError>,
) -> bool {
    match rows {
        Ok(rows) => answer matches Ok(responses) && responses@ == rows@.map_values(
            |row: CiOidcProviderRow| model::provider_response(row),
        ),
        Err(text) => answer matches Err(error) && error@ == ErrorValue::Database(text@),
    }
}

/// Whether a row is answered rightly: with the provider, where there is one.
pub open spec fn shows_provider(
    row: Result<Option<CiOidcProviderRow>, String>,
    answer: Result<CiOidcProviderResponse, AppError>,
) -> bool {
    match row {
        Ok(Some(row)) => answer == Ok::<CiOidcProviderResponse, AppError>(
            model::provider_response(row),
        ),
        Ok(None) => answer matches Err(error) && error@ == provider_not_found(),
        Err(text) => answer matches Err(error) && error@ == ErrorValue::Database(text@),
    }
}

/// Whether rows are answered rightly: with all mappings, in the order of the rows.
pub open spec fn lists_mappings(
    rows: Result<Vec<CiOidcIdentityMapping>, String>,
    answer: Result<Vec<CiOidcMappingResponse>, AppError>,
) -> bool {
    match rows {
        Ok(rows) => answer matches Ok(responses) && responses@ == rows@.map_values(
            |row: CiOidcIdentityMapping| model::mapping_response(row),
        ),
        Err(text) => answer matches Err(error) && error@ == ErrorValue::Database(text@),
    }
}

/// Whether a row is answered rightly: with the mapping, where there is one.
pub open spec fn shows_mapping(
    row: Result<Option<CiOidcIdentityMapping>, String>,
    answer: Result<CiOidcMappingResponse, AppError>,
) -> bool {
    match row {
        Ok(Some(mapping)) => answer == Ok::<CiOidcMappingResponse, AppError>(
            model::mapping_response(mapping),
        ),
        Ok(None) => answer matches Err(error) && error@ == mapping_not_found(),
        Err(text) => answer matches Err(error) && error@ == ErrorValue::Database(text@),
    }
}

/// Whether a row that was written is answered rightly: with the mapping.
pub open spec fn shows_written(
    row: Result<CiOidcIdentityMapping, String>,
    answer: Result<CiOidcMappingResponse, AppError>,
) -> bool {
    match row {
        Ok(mapping) => answer == Ok::<CiOidcMappingResponse, AppError>(
            model::mapping_response(mapping),
        ),
        Err(text) => answer matches Err(error) && error@ == ErrorValue::Database(text@),
    }
}

/// Whether the number of rows that a statement affected is answered rightly: no row is what
/// was not found.
pub open spec fn confirms(
    affected: Result<u64, String>,
    not_found: ErrorValue,
    answer: Result<(), AppError>,
) -> bool {
    match affected {
        Ok(rows) => {
            &&& answer is Ok <==> rows != 0
            &&& answer matches Err(error) ==> error@ == not_found
        },
        Err(text) => answer matches Err(error) && error@ == ErrorValue::Database(text@),
    }
}

fn provider_missing() -> (error: AppError)
    ensures
        error@ == provider_not_found(),
{
    AppError::NotFound("CI OIDC provider not found".to_owned())
}

fn mapping_missing() -> (error: AppError)
    ensures
        error@ == mapping_not_found(),
{
    AppError::NotFound("CI OIDC identity mapping not found".to_owned())
}

fn either<T>(chosen: Option<T>, kept: Option<T>) -> (value: Option<T>)
    ensures
        value == chosen_or_kept(chosen, kept),
{
    match chosen {
        Some(value) => Some(value),
        None => kept,
    }
}

impl CiOidcService {
    /// What a database statement gave, where it did not fail.
    pub fn database_reply<T>(reply: Result<T, String>) -> (answer: Result<T, AppError>)
        ensures
            match reply {
                Ok(value) => answer == Ok::<T, AppError>(value),
                Err(text) => answer matches Err(error) && error@ == ErrorValue::Database(text@),
            },
    {
        match reply {
            Ok(value) => Ok(value),
            Err(text) => Err(AppError::Database(text)),
        }
    }

    /// The list of providers, from the rows that were read.
    pub fn list(rows: Result<Vec<CiOidcProviderRow>, String>) -> (answer: Result<
        Vec<CiOidcProviderResponse>,
        AppError,
    >)
        ensures
            lists_providers(rows, answer),
    {
        let rows = match rows {
            Ok(rows) => rows,
            Err(text) => return Err(AppError::Database(text)),
        };
        let ghost all = rows@;
        let mut responses: Vec<CiOidcProviderResponse> = Vec::new();
        for row in it: rows.into_iter()
            invariant
                it.seq() == all,
                responses@.len() == it.index(),
                forall|i: int|
                    0 <= i < it.index() ==> #[trigger] responses@[i] == model::provider_response(
                        all[i],
                    ),
        {
            responses.push(Self::response_of(row));
        }
        assert(responses@ =~= all.map_values(
            |row: CiOidcProviderRow| model::provider_response(row),
        ));
        Ok(responses)
    }

    fn response_of(row: CiOidcProviderRow) -> (response: CiOidcProviderResponse)
        ensures
            response == model::provider_response(row),
    {
        CiOidcProviderResponse {
            id: row.id,
            name: row.name,
            provider_type: row.provider_type,
            issuer_url: row.issuer_url,
            audience: row.audience,
            is_enabled: row.is_enabled,
            mapping_count: row.mapping_count,
            created_at: row.created_at,
            updated_at: row.updated_at,
        }
    }

    /// The provider that was read.
    pub fn get(row: Result<Option<CiOidcProvider>, String>) -> (answer: Result<
        CiOidcProvider,
        AppError,
    >)
        ensures
            match row {
                Ok(Some(provider)) => answer == Ok::<CiOidcProvider, AppError>(provider),
                Ok(None) => answer matches Err(error) && error@ == provider_not_found(),
                Err(text) => answer matches Err(error) && error@ == ErrorValue::Database(text@),
            },
    {
        match row {
            Ok(Some(provider)) => Ok(provider),
            Ok(None) => Err(provider_missing()),
            Err(text) => Err(AppError::Database(text)),
        }
    }

    /// The provider that was read, as administrators see it.
    pub fn get_response(row: Result<Option<CiOidcProviderRow>, String>) -> (answer: Result<
        CiOidcProviderResponse,
        AppError,
    >)
        ensures
            shows_provider(row, answer),
    {
        match row {
            Ok(Some(row)) => Ok(Self::response_of(row)),
            Ok(None) => Err(provider_missing()),
            Err(text) => Err(AppError::Database(text)),
        }
    }

    /// The columns of a new provider.  A provider is of the generic type, expects tokens
    /// for `artifact-keeper` and is enabled, unless the request says otherwise.
    pub fn create(req: CreateCiOidcProviderRequest) -> (columns: ProviderColumns)
        ensures
            new_provider(columns, req),
    {
        ProviderColumns {
            name: req.name,
            provider_type: match req.provider_type {
                Some(provider_type) => provider_type,
                None => "generic".to_owned(),
            },
            issuer_url: req.issuer_url,
            audience: match req.audience {
                Some(audience) => audience,
                None => "artifact-keeper".to_owned(),
            },
            is_enabled: req.is_enabled.unwrap_or(true),
        }
    }

    /// The columns of a changed provider: what the request names, and for the rest what
    /// the provider had.
    pub fn update(existing: CiOidcProvider, req: UpdateCiOidcProviderRequest) -> (columns:
        ProviderColumns)
        ensures
            columns == updated_provider(existing, req),
    {
        ProviderColumns {
            name: req.name.unwrap_or(existing.name),
            provider_type: req.provider_type.unwrap_or(existing.provider_type),
            issuer_url: req.issuer_url.unwrap_or(existing.issuer_url),
            audience: req.audience.unwrap_or(existing.audience),
            is_enabled: req.is_enabled.unwrap_or(existing.is_enabled),
        }
    }

    /// Whether a provider was deleted, from the number of rows that the statement affected.
    pub fn delete(affected: Result<u64, String>) -> (answer: Result<(), AppError>)
        ensures
            confirms(affected, provider_not_found(), answer),
    {
        match affected {
            Ok(rows) => if rows == 0 {
                Err(provider_missing())
            } else {
                Ok(())
            },
            Err(text) => Err(AppError::Database(text)),
        }
    }

    /// Whether a provider was enabled or disabled, from the number of rows that the
    /// statement affected.
    pub fn toggle(affected: Result<u64, String>) -> (answer: Result<(), AppError>)
        ensures
            confirms(affected, provider_not_found(), answer),
    {
        Self::delete(affected)
    }

    /// The list of a provider's mappings, from the rows that were read, in their order.
    pub fn list_mappings(rows: Result<Vec<CiOidcIdentityMapping>, String>) -> (answer: Result<
        Vec<CiOidcMappingResponse>,
        AppError,
    >)
        ensures
            lists_mappings(rows, answer),
    {
        let rows = match rows {
            Ok(rows) => rows,
            Err(text) => return Err(AppError::Database(text)),
        };
        let ghost all = rows@;
        let mut responses: Vec<CiOidcMappingResponse> = Vec::new();
        for row in it: rows.into_iter()
            invariant
                it.seq() == all,
                responses@.len() == it.index(),
                forall|i: int|
                    0 <= i < it.index() ==> #[trigger] responses@[i] == model::mapping_response(
                        all[i],
                    ),
        {
            responses.push(CiOidcMappingResponse::from(row));
        }
        assert(responses@ =~= all.map_values(
            |row: CiOidcIdentityMapping| model::mapping_response(row),
        ));
        Ok(responses)
    }

    /// The mapping that was read.
    pub fn existing_mapping(row: Result<Option<CiOidcIdentityMapping>, String>) -> (answer: Result<
        CiOidcIdentityMapping,
        AppError,
    >)
        ensures
            match row {
                Ok(Some(mapping)) => answer == Ok::<CiOidcIdentityMapping, AppError>(mapping),
                Ok(None) => answer matches Err(error) && error@ == mapping_not_found(),
                Err(text) => answer matches Err(error) && error@ == ErrorValue::Database(text@),
            },
    {
        match row {
            Ok(Some(mapping)) => Ok(mapping),
            Ok(None) => Err(mapping_missing()),
            Err(text) => Err(AppError::Database(text)),
        }
    }

    /// The mapping that was read, as administrators see it.
    pub fn get_mapping(row: Result<Option<CiOidcIdentityMapping>, String>) -> (answer: Result<
        CiOidcMappingResponse,
        AppError,
    >)
        ensures
            shows_mapping(row, answer),
    {
        match Self::existing_mapping(row) {
            Ok(mapping) => Ok(CiOidcMappingResponse::from(mapping)),
            Err(error) => Err(error),
        }
    }

    /// The columns of a new mapping.  A mapping has priority 100 and is enabled, unless
    /// the request says otherwise.
    pub fn create_mapping(req: CreateCiOidcMappingRequest) -> (columns: MappingColumns)
        ensures
            columns == new_mapping(req),
    {
        MappingColumns {
            name: req.name,
            priority: req.priority.unwrap_or(100),
            claim_filters: req.claim_filters,
            role_id: req.role_id,
            allowed_repo_ids: req.allowed_repo_ids,
            is_enabled: req.is_enabled.unwrap_or(true),
        }
    }

    /// The columns of a changed mapping: what the request names, and for the rest what
    /// the mapping had.  A role and a repository scope can be replaced but not taken away.
    pub fn update_mapping(existing: CiOidcIdentityMapping, req: UpdateCiOidcMappingRequest) -> (columns:
        MappingColumns)
        ensures
            columns == updated_mapping(existing, req),
    {
        MappingColumns {
            name: req.name.unwrap_or(existing.name),
            priority: req.priority.unwrap_or(existing.priority),
            claim_filters: req.claim_filters.unwrap_or(existing.claim_filters),
            role_id: either(req.role_id, existing.role_id),
            allowed_repo_ids: either(req.allowed_repo_ids, existing.allowed_repo_ids),
            is_enabled: req.is_enabled.unwrap_or(existing.is_enabled),
        }
    }

    /// The mapping that was written, as administrators see it.
    pub fn written_mapping(row: Result<CiOidcIdentityMapping, String>) -> (answer: Result<
        CiOidcMappingResponse,
        AppError,
    >)
        ensures
            shows_written(row, answer),
    {
        match Self::database_reply(row) {
            Ok(mapping) => Ok(CiOidcMappingResponse::from(mapping)),
            Err(error) => Err(error),
        }
    }

    /// Whether a mapping was deleted, from the number of rows that the statement affected.
    pub fn delete_mapping(affected: Result<u64, String>) -> (answer: Result<(), AppError>)
        ensures
            confirms(affected, mapping_not_found(), answer),
    {
        match affected {
            Ok(rows) => if rows == 0 {
                Err(mapping_missing())
            } else {
                Ok(())
            },
            Err(text) => Err(AppError::Database(text)),
        }
    }

    /// The mapping that was enabled or disabled, as administrators see it.
    pub fn toggle_mapping(row: Result<Option<CiOidcIdentityMapping>, String>) -> (answer: Result<
        CiOidcMappingResponse,
        AppError,
    >)
        ensures
            shows_mapping(row, answer),
    {
        Self::get_mapping(row)
    }

    /// Where the service accounts of pipelines come from.
    pub fn auth_provider() -> (provider: AuthProvider)
        ensures
            provider == AuthProvider::Ci,
    {
        AuthProvider::Ci
    }
}

} // verus!
