//! What administrators get, spelled out in terms of what they ask for and what is stored.
//!
//! As in the other collection of guarantees, every law speaks of calls and their results.

use crate::admin;
use crate::admin::{
    Admitted, AuthExtension, DeleteMapping, DeleteProvider, FindMapping, FindProvider,
    FindProviderForMapping, FindProviderOfMappings, InsertMapping, InsertProvider, ListMappings,
    ListProviders, ReadMapping, ReadProvider, ToggleMapping, ToggleProvider, WriteMapping,
    WriteProvider,
};
use crate::error::{AppError, ErrorValue};
use crate::model::{
    CiOidcIdentityMapping, CiOidcMappingResponse, CiOidcProvider, CiOidcProviderResponse,
    CiOidcProviderRow, CiOidcToggleRequest, CreateCiOidcMappingRequest,
    CreateCiOidcProviderRequest, MappingColumns, ProviderColumns, UpdateCiOidcMappingRequest,
    UpdateCiOidcProviderRequest,
};
use crate::service::CiOidcService;
use crate::storage;
use crate::storage::Store;
use crate::uuid::Uuid;
use vstd::prelude::*;

verus! {

/// Whether a response shows every field of a row.
pub open spec fn shows_row(response: CiOidcProviderResponse, row: CiOidcProviderRow) -> bool {
    &&& response.id == row.id
    &&& response.name == row.name
    &&& response.provider_type == row.provider_type
    &&& response.issuer_url == row.issuer_url
    &&& response.audience == row.audience
    &&& response.is_enabled == row.is_enabled
    &&& response.mapping_count == row.mapping_count
    &&& response.created_at == row.created_at
    &&& response.updated_at == row.updated_at
}

/// Whether a response shows every field of a mapping.
pub open spec fn shows_fields(
    response: CiOidcMappingResponse,
    row: CiOidcIdentityMapping,
) -> bool {
    &&& response.id == row.id
    &&& response.provider_id == row.provider_id
    &&& response.name == row.name
    &&& response.priority == row.priority
    &&& response.claim_filters == row.claim_filters
    &&& response.role_id == row.role_id
    &&& response.allowed_repo_ids == row.allowed_repo_ids
    &&& response.is_enabled == row.is_enabled
    &&& response.created_at == row.created_at
    &&& response.updated_at == row.updated_at
}

/// An error is seen as what it is.
pub proof fn law_errors_keep_their_words(message: String)
    ensures
        AppError::Database(message)@ == ErrorValue::Database(message@),
        AppError::NotFound(message)@ == ErrorValue::NotFound(message@),
        AppError::Authentication(message)@ == ErrorValue::Authentication(message@),
        AppError::Authorization(message)@ == ErrorValue::Authorization(message@),
        AppError::Internal(message)@ == ErrorValue::Internal(message@),
        AppError::Validation(message)@ == ErrorValue::Validation(message@),
{
}

/// What a statement gave is handed on; its failure is reported with its text.
pub proof fn law_reply_is_handed_on<T>(reply: Result<T, String>, answer: Result<T, AppError>)
    requires
        call_ensures(CiOidcService::database_reply::<T>, (reply,), answer),
    ensures
        match reply {
            Ok(value) => answer matches Ok(given) && given == value,
            Err(text) => answer matches Err(AppError::Database(message)) && message@ == text@,
        },
{
}

/// The list shows every row once, in the order of the rows, field by field.
pub proof fn law_list_shows_the_rows(
    rows: Result<Vec<CiOidcProviderRow>, String>,
    answer: Result<Vec<CiOidcProviderResponse>, AppError>,
)
    requires
        call_ensures(CiOidcService::list, (rows,), answer),
    ensures
        match rows {
            Ok(rows) => answer matches Ok(list) && list@.len() == rows@.len() && forall|i: int|
                0 <= i < rows@.len() ==> shows_row(#[trigger] list@[i], rows@[i]),
            Err(text) => answer matches Err(AppError::Database(message)) && message@ == text@,
        },
{
}

/// The list of mappings shows every row once, in the order of the rows, field by field.
pub proof fn law_mapping_list_shows_the_rows(
    rows: Result<Vec<CiOidcIdentityMapping>, String>,
    answer: Result<Vec<CiOidcMappingResponse>, AppError>,
)
    requires
        call_ensures(CiOidcService::list_mappings, (rows,), answer),
    ensures
        match rows {
            Ok(rows) => answer matches Ok(list) && list@.len() == rows@.len() && forall|i: int|
                0 <= i < rows@.len() ==> shows_fields(#[trigger] list@[i], rows@[i]),
            Err(text) => answer matches Err(AppError::Database(message)) && message@ == text@,
        },
{
}

/// A provider is found as it is stored, or reported as not found.
pub proof fn law_provider_is_found(
    row: Result<Option<CiOidcProvider>, String>,
    answer: Result<CiOidcProvider, AppError>,
)
    requires
        call_ensures(CiOidcService::get, (row,), answer),
    ensures
        match row {
            Ok(Some(row)) => answer matches Ok(given) && given == row,
            Ok(None) => answer matches Err(AppError::NotFound(message)) && message@
                == "CI OIDC provider not found"@,
            Err(text) => answer matches Err(AppError::Database(message)) && message@ == text@,
        },
{
}

/// A provider is shown field by field, or reported as not found.
pub proof fn law_provider_is_shown_by_field(
    row: Result<Option<CiOidcProviderRow>, String>,
    answer: Result<CiOidcProviderResponse, AppError>,
)
    requires
        call_ensures(CiOidcService::get_response, (row,), answer),
    ensures
        match row {
            Ok(Some(row)) => answer matches Ok(given) && shows_row(given, row),
            Ok(None) => answer matches Err(AppError::NotFound(message)) && message@
                == "CI OIDC provider not found"@,
            Err(text) => answer matches Err(AppError::Database(message)) && message@ == text@,
        },
{
}

/// A mapping is found as it is stored, or reported as not found.
pub proof fn law_mapping_is_found(
    row: Result<Option<CiOidcIdentityMapping>, String>,
    answer: Result<CiOidcIdentityMapping, AppError>,
)
    requires
        call_ensures(CiOidcService::existing_mapping, (row,), answer),
    ensures
        match row {
            Ok(Some(row)) => answer matches Ok(given) && given == row,
            Ok(None) => answer matches Err(AppError::NotFound(message)) && message@
                == "CI OIDC identity mapping not found"@,
            Err(text) => answer matches Err(AppError::Database(message)) && message@ == text@,
        },
{
}

/// A mapping is shown field by field, or reported as not found.
pub proof fn law_mapping_is_shown_by_field(
    row: Result<Option<CiOidcIdentityMapping>, String>,
    answer: Result<CiOidcMappingResponse, AppError>,
)
    requires
        call_ensures(CiOidcService::get_mapping, (row,), answer),
    ensures
        match row {
            Ok(Some(row)) => answer matches Ok(given) && shows_fields(given, row),
            Ok(None) => answer matches Err(AppError::NotFound(message)) && message@
                == "CI OIDC identity mapping not found"@,
            Err(text) => answer matches Err(AppError::Database(message)) && message@ == text@,
        },
{
}

/// A toggled mapping is shown field by field, or reported as not found.
pub proof fn law_toggled_mapping_is_shown_by_field(
    row: Result<Option<CiOidcIdentityMapping>, String>,
    answer: Result<CiOidcMappingResponse, AppError>,
)
    requires
        call_ensures(CiOidcService::toggle_mapping, (row,), answer),
    ensures
        match row {
            Ok(Some(row)) => answer matches Ok(given) && shows_fields(given, row),
            Ok(None) => answer matches Err(AppError::NotFound(message)) && message@
                == "CI OIDC identity mapping not found"@,
            Err(text) => answer matches Err(AppError::Database(message)) && message@ == text@,
        },
{
}

/// A mapping that was written is shown field by field.
pub proof fn law_written_mapping_is_shown_by_field(
    row: Result<CiOidcIdentityMapping, String>,
    answer: Result<CiOidcMappingResponse, AppError>,
)
    requires
        call_ensures(CiOidcService::written_mapping, (row,), answer),
    ensures
        match row {
            Ok(row) => answer matches Ok(given) && shows_fields(given, row),
            Err(text) => answer matches Err(AppError::Database(message)) && message@ == text@,
        },
{
}

/// A statement that affects no row found nothing; one that affects any did its work.
pub proof fn law_affected_rows_decide(
    affected: Result<u64, String>,
    deleted: Result<(), AppError>,
    toggled: Result<(), AppError>,
    mapping_deleted: Result<(), AppError>,
)
    requires
        call_ensures(CiOidcService::delete, (affected,), deleted),
        call_ensures(CiOidcService::toggle, (affected,), toggled),
        call_ensures(CiOidcService::delete_mapping, (affected,), mapping_deleted),
    ensures
        match affected {
            Ok(rows) => if rows == 0 {
                &&& deleted matches Err(AppError::NotFound(message)) && message@
                == "CI OIDC provider not found"@
                &&& toggled matches Err(AppError::NotFound(message)) && message@
                == "CI OIDC provider not found"@
                &&& mapping_deleted matches Err(AppError::NotFound(message)) && message@
                == "CI OIDC identity mapping not found"@
            } else {
                deleted is Ok && toggled is Ok && mapping_deleted is Ok
            },
            Err(text) => {
                &&& deleted matches Err(AppError::Database(message)) && message@ == text@
                &&& toggled matches Err(AppError::Database(message)) && message@ == text@
                &&& mapping_deleted matches Err(AppError::Database(message)) && message@ == text@
            },
        },
{
}

/// A new provider has what was asked for; else it is generic, expects `artifact-keeper` and is
/// enabled.
pub proof fn law_new_provider_by_field(
    req: CreateCiOidcProviderRequest,
    columns: ProviderColumns,
)
    requires
        call_ensures(CiOidcService::create, (req,), columns),
    ensures
        ({
            &&& columns.name == req.name
            &&& columns.issuer_url == req.issuer_url
            &&& columns.provider_type@ == (match req.provider_type {
                Some(value) => value@,
                None => "generic"@,
            })
            &&& columns.audience@ == (match req.audience {
                Some(value) => value@,
                None => "artifact-keeper"@,
            })
            &&& columns.is_enabled == (match req.is_enabled {
                Some(value) => value,
                None => true,
            })
        }),
{
}

/// A new mapping has what was asked for; else it has priority 100 and is enabled.
pub proof fn law_new_mapping_by_field(req: CreateCiOidcMappingRequest, columns: MappingColumns)
    requires
        call_ensures(CiOidcService::create_mapping, (req,), columns),
    ensures
        ({
            &&& columns.name == req.name
            &&& columns.priority == (match req.priority {
                Some(value) => value,
                None => 100,
            })
            &&& columns.claim_filters == req.claim_filters
            &&& columns.role_id == req.role_id
            &&& columns.allowed_repo_ids == req.allowed_repo_ids
            &&& columns.is_enabled == (match req.is_enabled {
                Some(value) => value,
                None => true,
            })
        }),
{
}

/// Each field of a changed provider is what the request gives, and what it was where the
/// request gives nothing.
pub proof fn law_provider_update_by_field(
    existing: CiOidcProvider,
    req: UpdateCiOidcProviderRequest,
    columns: ProviderColumns,
)
    requires
        call_ensures(CiOidcService::update, (existing, req), columns),
    ensures
        ({
            &&& columns.name == (match req.name {
                Some(value) => value,
                None => existing.name,
            })
            &&& columns.provider_type == (match req.provider_type {
                Some(value) => value,
                None => existing.provider_type,
            })
            &&& columns.issuer_url == (match req.issuer_url {
                Some(value) => value,
                None => existing.issuer_url,
            })
            &&& columns.audience == (match req.audience {
                Some(value) => value,
                None => existing.audience,
            })
            &&& columns.is_enabled == (match req.is_enabled {
                Some(value) => value,
                None => existing.is_enabled,
            })
        }),
{
}

/// Each field of a changed mapping is what the request gives, and what it was where the
/// request gives nothing.
pub proof fn law_mapping_update_by_field(
    existing: CiOidcIdentityMapping,
    req: UpdateCiOidcMappingRequest,
    columns: MappingColumns,
)
    requires
        call_ensures(CiOidcService::update_mapping, (existing, req), columns),
    ensures
        ({
            &&& columns.name == (match req.name {
                Some(value) => value,
                None => existing.name,
            })
            &&& columns.priority == (match req.priority {
                Some(value) => value,
                None => existing.priority,
            })
            &&& columns.claim_filters == (match req.claim_filters {
                Some(value) => value,
                None => existing.claim_filters,
            })
            &&& columns.is_enabled == (match req.is_enabled {
                Some(value) => value,
                None => existing.is_enabled,
            })
            &&& columns.role_id == (match req.role_id {
                Some(value) => Some(value),
                None => existing.role_id,
            })
            &&& columns.allowed_repo_ids == (match req.allowed_repo_ids {
                Some(value) => Some(value),
                None => existing.allowed_repo_ids,
            })
        }),
{
}

/// Whether a check of the caller decides: an administrator goes on with a step, and everyone
/// else is refused in the words of the check.
pub open spec fn decided_by_check<T>(
    auth: &AuthExtension,
    answer: Result<Admitted<T>, AppError>,
    step: T,
) -> bool {
    match auth.admin_check {
        Ok(()) => answer matches Ok(admitted) && admitted.task() == step,
        Err(refusal) => answer matches Err(error) && error@ == refusal@,
    }
}

/// Administrators pass, and everyone else is refused in the words of the check.
pub proof fn law_check_decides(auth: &AuthExtension, passed: Result<(), AppError>)
    requires
        call_ensures(admin::require_admin, (auth,), passed),
    ensures
        match auth.admin_check {
            Ok(()) => passed is Ok,
            Err(refusal) => passed matches Err(error) && error@ == refusal@,
        },
{
}

/// Only administrators list the providers.
pub proof fn law_admin_list_providers(
    auth: &AuthExtension,
    answer: Result<Admitted<ListProviders>, AppError>,
)
    requires
        call_ensures(admin::list_providers, (auth,), answer),
    ensures
        decided_by_check(auth, answer, ListProviders),
{
}

/// Only administrators see a provider, and it is the one they ask for.
pub proof fn law_admin_get_provider(
    auth: &AuthExtension,
    id: Uuid,
    answer: Result<Admitted<ReadProvider>, AppError>,
)
    requires
        call_ensures(admin::get_provider, (auth, id), answer),
    ensures
        decided_by_check(auth, answer, (ReadProvider { id })),
{
}

/// Only administrators change a provider, and it is the one they name, as they ask.
pub proof fn law_admin_update_provider(
    auth: &AuthExtension,
    id: Uuid,
    req: UpdateCiOidcProviderRequest,
    answer: Result<Admitted<FindProvider>, AppError>,
)
    requires
        call_ensures(admin::update_provider, (auth, id, req), answer),
    ensures
        decided_by_check(auth, answer, (FindProvider { id, req })),
{
}

/// Only administrators delete a provider, and it is the one they name.
pub proof fn law_admin_delete_provider(
    auth: &AuthExtension,
    id: Uuid,
    answer: Result<Admitted<DeleteProvider>, AppError>,
)
    requires
        call_ensures(admin::delete_provider, (auth, id), answer),
    ensures
        decided_by_check(auth, answer, (DeleteProvider { id })),
{
}

/// Only administrators toggle a provider: the one they name, to the value they give.
pub proof fn law_admin_toggle_provider(
    auth: &AuthExtension,
    id: Uuid,
    req: CiOidcToggleRequest,
    answer: Result<Admitted<ToggleProvider>, AppError>,
)
    requires
        call_ensures(admin::toggle_provider, (auth, id, req), answer),
    ensures
        decided_by_check(auth, answer, (ToggleProvider { id, enabled: req.enabled })),
{
}

/// Only administrators list the mappings of a provider, the one they name.
pub proof fn law_admin_list_mappings(
    auth: &AuthExtension,
    provider_id: Uuid,
    answer: Result<Admitted<FindProviderOfMappings>, AppError>,
)
    requires
        call_ensures(admin::list_mappings, (auth, provider_id), answer),
    ensures
        decided_by_check(auth, answer, (FindProviderOfMappings { provider_id })),
{
}

/// Only administrators see a mapping, and it is the one they ask for.
pub proof fn law_admin_get_mapping(
    auth: &AuthExtension,
    provider_id: Uuid,
    mapping_id: Uuid,
    answer: Result<Admitted<ReadMapping>, AppError>,
)
    requires
        call_ensures(admin::get_mapping, (auth, provider_id, mapping_id), answer),
    ensures
        decided_by_check(auth, answer, (ReadMapping { provider_id, mapping_id })),
{
}

/// Only administrators add a mapping, to the provider they name, as they ask.
pub proof fn law_admin_create_mapping(
    auth: &AuthExtension,
    provider_id: Uuid,
    req: CreateCiOidcMappingRequest,
    answer: Result<Admitted<FindProviderForMapping>, AppError>,
)
    requires
        call_ensures(admin::create_mapping, (auth, provider_id, req), answer),
    ensures
        decided_by_check(auth, answer, (FindProviderForMapping { provider_id, req })),
{
}

/// Only administrators change a mapping, and it is the one they name, as they ask.
pub proof fn law_admin_update_mapping(
    auth: &AuthExtension,
    provider_id: Uuid,
    mapping_id: Uuid,
    req: UpdateCiOidcMappingRequest,
    answer: Result<Admitted<FindMapping>, AppError>,
)
    requires
        call_ensures(admin::update_mapping, (auth, provider_id, mapping_id, req), answer),
    ensures
        decided_by_check(auth, answer, (FindMapping { provider_id, mapping_id, req })),
{
}

/// Only administrators delete a mapping, and it is the one they name.
pub proof fn law_admin_delete_mapping(
    auth: &AuthExtension,
    provider_id: Uuid,
    mapping_id: Uuid,
    answer: Result<Admitted<DeleteMapping>, AppError>,
)
    requires
        call_ensures(admin::delete_mapping, (auth, provider_id, mapping_id), answer),
    ensures
        decided_by_check(auth, answer, (DeleteMapping { provider_id, mapping_id })),
{
}

/// Only administrators toggle a mapping: the one they name, to the value they give.
pub proof fn law_admin_toggle_mapping(
    auth: &AuthExtension,
    provider_id: Uuid,
    mapping_id: Uuid,
    req: CiOidcToggleRequest,
    answer: Result<Admitted<ToggleMapping>, AppError>,
)
    requires
        call_ensures(admin::toggle_mapping, (auth, provider_id, mapping_id, req), answer),
    ensures
        decided_by_check(auth, answer, (ToggleMapping { provider_id, mapping_id, enabled: req.enabled })),
{
}

/// Only administrators add a provider, with what they ask for and the defaults for the rest.
pub proof fn law_admin_create_provider(
    auth: &AuthExtension,
    req: CreateCiOidcProviderRequest,
    answer: Result<Admitted<InsertProvider>, AppError>,
)
    requires
        call_ensures(admin::create_provider, (auth, req), answer),
    ensures
        auth.admin_check matches Err(refusal) ==> (answer matches Err(error) && error@ == refusal@),
        auth.admin_check is Ok ==> answer is Ok && {
            let columns = answer->Ok_0.task().columns;
            &&& columns.name == req.name
            &&& columns.issuer_url == req.issuer_url
            &&& columns.provider_type@ == (match req.provider_type {
                Some(value) => value@,
                None => "generic"@,
            })
            &&& columns.audience@ == (match req.audience {
                Some(value) => value@,
                None => "artifact-keeper"@,
            })
            &&& columns.is_enabled == (match req.is_enabled {
                Some(value) => value,
                None => true,
            })
        },
{
}

/// A change of a provider, from the request to the answer: the provider that is stored and
/// shown afterwards has, field by field, what the request gives, and what it had where the
/// request gives nothing.
pub proof fn law_provider_change_reaches_the_answer(
    auth: &AuthExtension,
    id: Uuid,
    req: UpdateCiOidcProviderRequest,
    existing: CiOidcProvider,
    before: Store,
    after: Store,
    row: Option<CiOidcProviderRow>,
    finding: Result<Admitted<FindProvider>, AppError>,
    writing: Result<Admitted<WriteProvider>, AppError>,
    reading: Result<Admitted<ReadProvider>, AppError>,
    answer: Result<CiOidcProviderResponse, AppError>,
)
    requires
        auth.admin_check is Ok,
        storage::selects_provider(Some(existing), before, id),
        call_ensures(admin::update_provider, (auth, id, req), finding),
        finding matches Ok(step) ==> call_ensures(
            Admitted::<FindProvider>::found,
            (step, Ok(Some(existing))),
            writing,
        ),
        writing matches Ok(step) ==> storage::writes_provider(
            before,
            after,
            step.task().id,
            step.task().columns,
        ),
        writing matches Ok(step) ==> call_ensures(
            Admitted::<WriteProvider>::written,
            (step, Ok(())),
            reading,
        ),
        reading matches Ok(step) ==> storage::selects_counted(row, after, step.task().id),
        reading matches Ok(step) ==> call_ensures(
            Admitted::<ReadProvider>::read,
            (step, Ok(row)),
            answer,
        ),
    ensures
        answer is Ok && {
            let response = answer->Ok_0;
            &&& response.id == id
            &&& response.name == (match req.name {
                Some(value) => value,
                None => existing.name,
            })
            &&& response.provider_type == (match req.provider_type {
                Some(value) => value,
                None => existing.provider_type,
            })
            &&& response.issuer_url == (match req.issuer_url {
                Some(value) => value,
                None => existing.issuer_url,
            })
            &&& response.audience == (match req.audience {
                Some(value) => value,
                None => existing.audience,
            })
            &&& response.is_enabled == (match req.is_enabled {
                Some(value) => value,
                None => existing.is_enabled,
            })
            &&& after.providers[id].name == (match req.name {
                Some(value) => value,
                None => existing.name,
            })
            &&& after.providers[id].provider_type == (match req.provider_type {
                Some(value) => value,
                None => existing.provider_type,
            })
            &&& after.providers[id].issuer_url == (match req.issuer_url {
                Some(value) => value,
                None => existing.issuer_url,
            })
            &&& after.providers[id].audience == (match req.audience {
                Some(value) => value,
                None => existing.audience,
            })
            &&& after.providers[id].is_enabled == (match req.is_enabled {
                Some(value) => value,
                None => existing.is_enabled,
            })
            &&& response.created_at == existing.created_at
            &&& after.providers.remove(id) == before.providers.remove(id)
        },
{
    assert(after.providers.remove(id) =~= before.providers.remove(id));
}

/// A provider that is not stored is neither changed nor shown.
pub proof fn law_missing_provider_is_not_changed(
    state: Admitted<FindProvider>,
    next: Result<Admitted<WriteProvider>, AppError>,
)
    requires
        call_ensures(Admitted::<FindProvider>::found, (state, Ok(None)), next),
    ensures
        next matches Err(AppError::NotFound(message)) && message@
                == "CI OIDC provider not found"@,
{
}

/// A new provider, from the request to the answer: it is stored and shown under the identifier
/// that it received, with what was asked for, the defaults for the rest, and no mappings.
pub proof fn law_new_provider_reaches_the_answer(
    auth: &AuthExtension,
    req: CreateCiOidcProviderRequest,
    id: Uuid,
    before: Store,
    after: Store,
    row: Option<CiOidcProviderRow>,
    inserting: Result<Admitted<InsertProvider>, AppError>,
    reading: Result<Admitted<ReadProvider>, AppError>,
    answer: Result<CiOidcProviderResponse, AppError>,
)
    requires
        auth.admin_check is Ok,
        call_ensures(admin::create_provider, (auth, req), inserting),
        inserting matches Ok(step) ==> storage::inserts_provider(
            before,
            after,
            step.task().columns,
            id,
        ),
        inserting matches Ok(step) ==> call_ensures(
            Admitted::<InsertProvider>::inserted,
            (step, Ok(id)),
            reading,
        ),
        reading matches Ok(step) ==> storage::selects_counted(row, after, step.task().id),
        reading matches Ok(step) ==> call_ensures(
            Admitted::<ReadProvider>::read,
            (step, Ok(row)),
            answer,
        ),
    ensures
        answer is Ok && {
            let response = answer->Ok_0;
            &&& response.id == id
            &&& response.name == req.name
            &&& response.issuer_url == req.issuer_url
            &&& response.provider_type@ == (match req.provider_type {
                Some(value) => value@,
                None => "generic"@,
            })
            &&& response.audience@ == (match req.audience {
                Some(value) => value@,
                None => "artifact-keeper"@,
            })
            &&& response.is_enabled == (match req.is_enabled {
                Some(value) => value,
                None => true,
            })
            &&& response.mapping_count == 0
            &&& after.providers.remove(id) == before.providers
        },
{
    assert(storage::mapping_ids(after, id) =~= Set::<Uuid>::empty());
    assert(after.providers.remove(id) =~= before.providers);
}

/// Toggling a provider, from the request to the answer: the provider is shown with the value
/// that was given, and one that is not stored is reported as not found.
pub proof fn law_toggle_reaches_the_answer(
    auth: &AuthExtension,
    id: Uuid,
    req: CiOidcToggleRequest,
    before: Store,
    after: Store,
    affected: u64,
    row: Option<CiOidcProviderRow>,
    toggling: Result<Admitted<ToggleProvider>, AppError>,
    reading: Result<Admitted<ReadProvider>, AppError>,
    answer: Result<CiOidcProviderResponse, AppError>,
)
    requires
        auth.admin_check is Ok,
        call_ensures(admin::toggle_provider, (auth, id, req), toggling),
        toggling matches Ok(step) ==> storage::sets_provider(
            before,
            after,
            step.task().id,
            step.task().enabled,
            affected,
        ),
        toggling matches Ok(step) ==> call_ensures(
            Admitted::<ToggleProvider>::toggled,
            (step, Ok(affected)),
            reading,
        ),
        reading matches Ok(step) ==> storage::selects_counted(row, after, step.task().id),
        reading matches Ok(step) ==> call_ensures(
            Admitted::<ReadProvider>::read,
            (step, Ok(row)),
            answer,
        ),
    ensures
        if before.providers.contains_key(id) {
            &&& answer matches Ok(response)
            &&& response.id == id
            &&& response.is_enabled == req.enabled
            &&& response.name == before.providers[id].name
            &&& response.provider_type == before.providers[id].provider_type
            &&& response.issuer_url == before.providers[id].issuer_url
            &&& response.audience == before.providers[id].audience
            &&& after.providers[id].is_enabled == req.enabled
        } else {
            reading matches Err(AppError::NotFound(message)) && message@
                == "CI OIDC provider not found"@
        },
{
}

/// A deleted provider is the one that was named, and it is gone.
pub proof fn law_deletion_reaches_the_store(
    auth: &AuthExtension,
    id: Uuid,
    before: Store,
    after: Store,
    affected: u64,
    deleting: Result<Admitted<DeleteProvider>, AppError>,
    answer: Result<(), AppError>,
)
    requires
        auth.admin_check is Ok,
        call_ensures(admin::delete_provider, (auth, id), deleting),
        deleting matches Ok(step) ==> storage::deletes_provider(
            before,
            after,
            step.task().id,
            affected,
        ),
        deleting matches Ok(step) ==> call_ensures(
            Admitted::<DeleteProvider>::deleted,
            (step, Ok(affected)),
            answer,
        ),
    ensures
        !after.providers.contains_key(id),
        answer is Ok <==> before.providers.contains_key(id),
        answer matches Err(error) ==> error matches AppError::NotFound(message) && message@
            == "CI OIDC provider not found"@,
{
}

/// A new mapping, from the request to the answer: it is stored and shown for the provider that
/// was named, with what was asked for and the defaults for the rest.
pub proof fn law_new_mapping_reaches_the_answer(
    auth: &AuthExtension,
    provider_id: Uuid,
    req: CreateCiOidcMappingRequest,
    provider: CiOidcProvider,
    before: Store,
    after: Store,
    row: CiOidcIdentityMapping,
    finding: Result<Admitted<FindProviderForMapping>, AppError>,
    inserting: Result<Admitted<InsertMapping>, AppError>,
    answer: Result<CiOidcMappingResponse, AppError>,
)
    requires
        auth.admin_check is Ok,
        call_ensures(admin::create_mapping, (auth, provider_id, req), finding),
        finding matches Ok(step) ==> call_ensures(
            Admitted::<FindProviderForMapping>::found,
            (step, Ok(Some(provider))),
            inserting,
        ),
        inserting matches Ok(step) ==> storage::inserts_mapping(
            before,
            after,
            step.task().provider_id,
            step.task().columns,
            row,
        ),
        inserting matches Ok(step) ==> call_ensures(
            Admitted::<InsertMapping>::inserted,
            (step, Ok(row)),
            answer,
        ),
    ensures
        answer is Ok && {
            let response = answer->Ok_0;
            &&& response.id == row.id
            &&& response.provider_id == provider_id
            &&& response.name == req.name
            &&& response.priority == (match req.priority {
                Some(value) => value,
                None => 100,
            })
            &&& response.claim_filters == req.claim_filters
            &&& response.role_id == req.role_id
            &&& response.allowed_repo_ids == req.allowed_repo_ids
            &&& response.is_enabled == (match req.is_enabled {
                Some(value) => value,
                None => true,
            })
            &&& shows_fields(response, after.mappings[row.id])
            &&& after.mappings.remove(row.id) == before.mappings
        },
{
    assert(after.mappings.remove(row.id) =~= before.mappings);
}

/// A mapping is only added to a provider that is stored, and mappings are only listed of one.
pub proof fn law_mappings_need_their_provider(
    adding: Admitted<FindProviderForMapping>,
    added: Result<Admitted<InsertMapping>, AppError>,
    listing: Admitted<FindProviderOfMappings>,
    row: Result<Option<CiOidcProvider>, String>,
    listed: Result<Admitted<ListMappings>, AppError>,
)
    requires
        call_ensures(Admitted::<FindProviderForMapping>::found, (adding, row), added),
        call_ensures(Admitted::<FindProviderOfMappings>::found, (listing, row), listed),
    ensures
        match row {
            Ok(Some(_)) => {
                &&& added matches Ok(step) && step.task().provider_id == adding.task().provider_id
                &&& listed matches Ok(step) && step.task().provider_id == listing.task().provider_id
            },
            Ok(None) => {
                &&& added matches Err(AppError::NotFound(message)) && message@
                == "CI OIDC provider not found"@
                &&& listed matches Err(AppError::NotFound(message)) && message@
                == "CI OIDC provider not found"@
            },
            Err(text) => {
                &&& added matches Err(AppError::Database(message)) && message@ == text@
                &&& listed matches Err(AppError::Database(message)) && message@ == text@
            },
        },
{
}

/// A change of a mapping, from the request to the answer: the mapping that is stored and shown
/// afterwards has, field by field, what the request gives, and what it had where the request
/// gives nothing.
pub proof fn law_mapping_change_reaches_the_answer(
    auth: &AuthExtension,
    provider_id: Uuid,
    mapping_id: Uuid,
    req: UpdateCiOidcMappingRequest,
    existing: CiOidcIdentityMapping,
    before: Store,
    after: Store,
    row: CiOidcIdentityMapping,
    finding: Result<Admitted<FindMapping>, AppError>,
    writing: Result<Admitted<WriteMapping>, AppError>,
    answer: Result<CiOidcMappingResponse, AppError>,
)
    requires
        auth.admin_check is Ok,
        storage::selects_mapping(Some(existing), before, provider_id, mapping_id),
        call_ensures(admin::update_mapping, (auth, provider_id, mapping_id, req), finding),
        finding matches Ok(step) ==> call_ensures(
            Admitted::<FindMapping>::found,
            (step, Ok(Some(existing))),
            writing,
        ),
        writing matches Ok(step) ==> storage::writes_mapping(
            before,
            after,
            step.task().provider_id,
            step.task().mapping_id,
            step.task().columns,
            row,
        ),
        writing matches Ok(step) ==> call_ensures(
            Admitted::<WriteMapping>::written,
            (step, Ok(row)),
            answer,
        ),
    ensures
        answer is Ok && {
            let response = answer->Ok_0;
            &&& response.name == (match req.name {
                Some(value) => value,
                None => existing.name,
            })
            &&& response.priority == (match req.priority {
                Some(value) => value,
                None => existing.priority,
            })
            &&& response.claim_filters == (match req.claim_filters {
                Some(value) => value,
                None => existing.claim_filters,
            })
            &&& response.is_enabled == (match req.is_enabled {
                Some(value) => value,
                None => existing.is_enabled,
            })
            &&& response.role_id == (match req.role_id {
                Some(value) => Some(value),
                None => existing.role_id,
            })
            &&& response.allowed_repo_ids == (match req.allowed_repo_ids {
                Some(value) => Some(value),
                None => existing.allowed_repo_ids,
            })
            &&& shows_fields(response, after.mappings[mapping_id])
            &&& response.id == existing.id
            &&& response.provider_id == provider_id
            &&& after.mappings.remove(mapping_id) == before.mappings.remove(mapping_id)
        },
{
    assert(after.mappings.remove(mapping_id) =~= before.mappings.remove(mapping_id));
}

/// A mapping that its provider does not have is not changed.
pub proof fn law_missing_mapping_is_not_changed(
    state: Admitted<FindMapping>,
    next: Result<Admitted<WriteMapping>, AppError>,
)
    requires
        call_ensures(Admitted::<FindMapping>::found, (state, Ok(None)), next),
    ensures
        next matches Err(AppError::NotFound(message)) && message@
                == "CI OIDC identity mapping not found"@,
{
}

/// Toggling a mapping, from the request to the answer: the mapping is shown with the value that
/// was given, and one that its provider does not have is reported as not found.
pub proof fn law_mapping_toggle_reaches_the_answer(
    auth: &AuthExtension,
    provider_id: Uuid,
    mapping_id: Uuid,
    req: CiOidcToggleRequest,
    before: Store,
    after: Store,
    row: Option<CiOidcIdentityMapping>,
    toggling: Result<Admitted<ToggleMapping>, AppError>,
    answer: Result<CiOidcMappingResponse, AppError>,
)
    requires
        auth.admin_check is Ok,
        call_ensures(admin::toggle_mapping, (auth, provider_id, mapping_id, req), toggling),
        toggling matches Ok(step) ==> storage::sets_mapping(
            before,
            after,
            step.task().provider_id,
            step.task().mapping_id,
            step.task().enabled,
            row,
        ),
        toggling matches Ok(step) ==> call_ensures(
            Admitted::<ToggleMapping>::toggled,
            (step, Ok(row)),
            answer,
        ),
    ensures
        if storage::has_mapping(before, provider_id, mapping_id) {
            &&& answer matches Ok(response)
            &&& response.is_enabled == req.enabled
            &&& shows_fields(response, after.mappings[mapping_id])
            &&& response.name == before.mappings[mapping_id].name
            &&& response.claim_filters == before.mappings[mapping_id].claim_filters
            &&& response.role_id == before.mappings[mapping_id].role_id
        } else {
            answer matches Err(AppError::NotFound(message)) && message@
                == "CI OIDC identity mapping not found"@
        },
{
}

/// A deleted mapping is the one that was named, and it is gone.
pub proof fn law_mapping_deletion_reaches_the_store(
    auth: &AuthExtension,
    provider_id: Uuid,
    mapping_id: Uuid,
    before: Store,
    after: Store,
    affected: u64,
    deleting: Result<Admitted<DeleteMapping>, AppError>,
    answer: Result<(), AppError>,
)
    requires
        auth.admin_check is Ok,
        call_ensures(admin::delete_mapping, (auth, provider_id, mapping_id), deleting),
        deleting matches Ok(step) ==> storage::deletes_mapping(
            before,
            after,
            step.task().provider_id,
            step.task().mapping_id,
            affected,
        ),
        deleting matches Ok(step) ==> call_ensures(
            Admitted::<DeleteMapping>::deleted,
            (step, Ok(affected)),
            answer,
        ),
    ensures
        !storage::has_mapping(after, provider_id, mapping_id),
        answer is Ok <==> storage::has_mapping(before, provider_id, mapping_id),
        answer matches Err(error) ==> error matches AppError::NotFound(message) && message@
            == "CI OIDC identity mapping not found"@,
{
}

/// Providers and mappings that were read are answered row by row and field by field, at the
/// endpoints as in the service.
pub proof fn law_reads_reach_the_answer(
    listing: Admitted<ListProviders>,
    rows: Vec<CiOidcProviderRow>,
    list: Result<Vec<CiOidcProviderResponse>, AppError>,
    listing_mappings: Admitted<ListMappings>,
    mapping_rows: Vec<CiOidcIdentityMapping>,
    mapping_list: Result<Vec<CiOidcMappingResponse>, AppError>,
    reading: Admitted<ReadMapping>,
    row: CiOidcIdentityMapping,
    shown: Result<CiOidcMappingResponse, AppError>,
    missing: Result<CiOidcMappingResponse, AppError>,
)
    requires
        call_ensures(Admitted::<ListProviders>::listed, (listing, Ok(rows)), list),
        call_ensures(
            Admitted::<ListMappings>::listed,
            (listing_mappings, Ok(mapping_rows)),
            mapping_list,
        ),
        call_ensures(Admitted::<ReadMapping>::read, (reading, Ok(Some(row))), shown),
        call_ensures(Admitted::<ReadMapping>::read, (reading, Ok(None)), missing),
    ensures
        list matches Ok(list) && list@.len() == rows@.len() && forall|i: int|
            0 <= i < rows@.len() ==> shows_row(#[trigger] list@[i], rows@[i]),
        mapping_list matches Ok(list) && list@.len() == mapping_rows@.len() && forall|i: int|
            0 <= i < mapping_rows@.len() ==> shows_fields(#[trigger] list@[i], mapping_rows@[i]),
        shown matches Ok(given) && shows_fields(given, row),
        missing matches Err(AppError::NotFound(message)) && message@
                == "CI OIDC identity mapping not found"@,
{
}

} // verus!
