//! What the database holds, and what the endpoints make of it.
//!
//! The first half says what each statement reads or changes.  The second half draws the
//! conclusions: what an administrator sees of the stored rows, and what an exchange leaves
//! behind.

use crate::error::{AppError, ErrorValue};
use crate::exchange;
use crate::exchange::{AccessTokens, CiTokenResponse, ProvisionedUser};
use crate::json::JsonValue;
use crate::laws;
use crate::mapping;
use crate::model;
use crate::model::{
    CiOidcIdentityMapping, CiOidcMappingResponse, CiOidcProvider, CiOidcProviderResponse,
    CiOidcProviderRow, CreateCiOidcMappingRequest, CreateCiOidcProviderRequest, MappingColumns,
    ProviderColumns, UpdateCiOidcMappingRequest, UpdateCiOidcProviderRequest,
};
use crate::service;
use crate::uuid::Uuid;
use vstd::prelude::*;

verus! {

/// The stored rows: providers and mappings by their identifiers, the accounts, and the roles
/// that accounts have.
pub struct Store {
    pub providers: Map<Uuid, CiOidcProvider>,
    pub mappings: Map<Uuid, CiOidcIdentityMapping>,
    pub accounts: Set<Uuid>,
    pub roles: Set<(Uuid, Uuid)>,
}

/// The identifiers of a provider's mappings, enabled or not.
pub open spec fn mapping_ids(store: Store, provider_id: Uuid) -> Set<Uuid> {
    store.mappings.dom().filter(|id: Uuid| store.mappings[id].provider_id == provider_id)
}

/// How many mappings a provider has, enabled or not.
pub open spec fn mapping_count(store: Store, provider_id: Uuid) -> nat {
    mapping_ids(store, provider_id).len()
}

/// The columns of a stored provider.
pub open spec fn provider_columns(provider: CiOidcProvider) -> ProviderColumns {
    ProviderColumns {
        name: provider.name,
        provider_type: provider.provider_type,
        issuer_url: provider.issuer_url,
        audience: provider.audience,
        is_enabled: provider.is_enabled,
    }
}

/// The columns of a stored mapping.
pub open spec fn mapping_columns(mapping: CiOidcIdentityMapping) -> MappingColumns {
    MappingColumns {
        name: mapping.name,
        priority: mapping.priority,
        claim_filters: mapping.claim_filters,
        role_id: mapping.role_id,
        allowed_repo_ids: mapping.allowed_repo_ids,
        is_enabled: mapping.is_enabled,
    }
}

/// Whether a row is a stored provider with the number of its mappings.
pub open spec fn counts(row: CiOidcProviderRow, store: Store) -> bool {
    &&& store.providers.contains_key(row.id)
    &&& row.name == store.providers[row.id].name
    &&& row.provider_type == store.providers[row.id].provider_type
    &&& row.issuer_url == store.providers[row.id].issuer_url
    &&& row.audience == store.providers[row.id].audience
    &&& row.is_enabled == store.providers[row.id].is_enabled
    &&& row.created_at == store.providers[row.id].created_at
    &&& row.updated_at == store.providers[row.id].updated_at
    &&& row.mapping_count == mapping_count(store, row.id)
}

/// Reading all providers: each once, the oldest first.
pub open spec fn selects_providers(rows: Seq<CiOidcProviderRow>, store: Store) -> bool {
    &&& forall|i: int| 0 <= i < rows.len() ==> counts(#[trigger] rows[i], store)
    &&& forall|id: Uuid| #[trigger]
        store.providers.contains_key(id) ==> exists|i: int|
            0 <= i < rows.len() && (#[trigger] rows[i]).id == id
    &&& forall|i: int, j: int|
        0 <= i < j < rows.len() ==> (#[trigger] rows[i]).id != (#[trigger] rows[j]).id
            && laws::not_after(rows[i].created_at, rows[j].created_at)
}

/// Reading a provider with the number of its mappings.
pub open spec fn selects_counted(row: Option<CiOidcProviderRow>, store: Store, id: Uuid) -> bool {
    match row {
        Some(row) => row.id == id && counts(row, store),
        None => !store.providers.contains_key(id),
    }
}

/// Reading a provider.
pub open spec fn selects_provider(row: Option<CiOidcProvider>, store: Store, id: Uuid) -> bool {
    row == if store.providers.contains_key(id) {
        Some(store.providers[id])
    } else {
        None
    }
}

/// Whether a mapping is stored for a provider.
pub open spec fn has_mapping(store: Store, provider_id: Uuid, mapping_id: Uuid) -> bool {
    store.mappings.contains_key(mapping_id) && store.mappings[mapping_id].provider_id
        == provider_id
}

/// Reading a mapping of a provider.
pub open spec fn selects_mapping(
    row: Option<CiOidcIdentityMapping>,
    store: Store,
    provider_id: Uuid,
    mapping_id: Uuid,
) -> bool {
    row == if has_mapping(store, provider_id, mapping_id) {
        Some(store.mappings[mapping_id])
    } else {
        None
    }
}

/// Reading all mappings of a provider: each once, in order of precedence.
pub open spec fn selects_mappings(
    rows: Seq<CiOidcIdentityMapping>,
    store: Store,
    provider_id: Uuid,
) -> bool {
    &&& laws::by_precedence(rows)
    &&& forall|i: int|
        0 <= i < rows.len() ==> has_mapping(store, provider_id, (#[trigger] rows[i]).id) && rows[i]
            == store.mappings[rows[i].id]
    &&& forall|id: Uuid| #[trigger]
        has_mapping(store, provider_id, id) ==> exists|i: int|
            0 <= i < rows.len() && (#[trigger] rows[i]).id == id
    &&& forall|i: int, j: int|
        0 <= i < j < rows.len() ==> (#[trigger] rows[i]).id != (#[trigger] rows[j]).id
}

/// Whether two states of the database differ in their providers at most.
pub open spec fn only_providers_differ(before: Store, after: Store) -> bool {
    after == (Store { providers: after.providers, ..before })
}

/// Whether two states of the database differ in their mappings at most.
pub open spec fn only_mappings_differ(before: Store, after: Store) -> bool {
    after == (Store { mappings: after.mappings, ..before })
}

/// Storing a new provider, which receives an identifier that nothing refers to yet.
pub open spec fn inserts_provider(
    before: Store,
    after: Store,
    columns: ProviderColumns,
    id: Uuid,
) -> bool {
    &&& only_providers_differ(before, after)
    &&& !before.providers.contains_key(id)
    &&& forall|m: Uuid| #[trigger]
        before.mappings.contains_key(m) ==> before.mappings[m].provider_id != id
    &&& after.providers == before.providers.insert(id, after.providers[id])
    &&& after.providers[id].id == id
    &&& provider_columns(after.providers[id]) == columns
}

/// Writing the columns of a provider; a provider that is gone stays gone.
pub open spec fn writes_provider(
    before: Store,
    after: Store,
    id: Uuid,
    columns: ProviderColumns,
) -> bool {
    if before.providers.contains_key(id) {
        &&& only_providers_differ(before, after)
        &&& after.providers == before.providers.insert(id, after.providers[id])
        &&& after.providers[id] == (CiOidcProvider {
            updated_at: after.providers[id].updated_at,
            ..laws::provider_with(before.providers[id], columns)
        })
    } else {
        after == before
    }
}

/// Deleting a provider.  Mappings of other providers stay; nothing is added.
pub open spec fn deletes_provider(before: Store, after: Store, id: Uuid, affected: u64) -> bool {
    if before.providers.contains_key(id) {
        &&& affected == 1
        &&& after.providers == before.providers.remove(id)
        &&& after.mappings.submap_of(before.mappings)
        &&& forall|m: Uuid| #[trigger]
            before.mappings.contains_key(m) && before.mappings[m].provider_id != id
                ==> after.mappings.contains_key(m)
        &&& after.accounts == before.accounts
        &&& after.roles == before.roles
    } else {
        affected == 0 && after == before
    }
}

/// Enabling or disabling a provider.
pub open spec fn sets_provider(
    before: Store,
    after: Store,
    id: Uuid,
    enabled: bool,
    affected: u64,
) -> bool {
    if before.providers.contains_key(id) {
        &&& affected == 1
        &&& only_providers_differ(before, after)
        &&& after.providers == before.providers.insert(id, after.providers[id])
        &&& after.providers[id] == (CiOidcProvider {
            is_enabled: enabled,
            updated_at: after.providers[id].updated_at,
            ..before.providers[id]
        })
    } else {
        affected == 0 && after == before
    }
}

/// Storing a new mapping under a new identifier.
pub open spec fn inserts_mapping(
    before: Store,
    after: Store,
    provider_id: Uuid,
    columns: MappingColumns,
    row: CiOidcIdentityMapping,
) -> bool {
    &&& only_mappings_differ(before, after)
    &&& !before.mappings.contains_key(row.id)
    &&& after.mappings == before.mappings.insert(row.id, row)
    &&& row.provider_id == provider_id
    &&& mapping_columns(row) == columns
}

/// Writing the columns of a mapping that is there.
pub open spec fn writes_mapping(
    before: Store,
    after: Store,
    provider_id: Uuid,
    mapping_id: Uuid,
    columns: MappingColumns,
    row: CiOidcIdentityMapping,
) -> bool {
    &&& has_mapping(before, provider_id, mapping_id)
    &&& only_mappings_differ(before, after)
    &&& after.mappings == before.mappings.insert(mapping_id, row)
    &&& row == (CiOidcIdentityMapping {
        updated_at: row.updated_at,
        ..laws::mapping_with(before.mappings[mapping_id], columns)
    })
}

/// Deleting a mapping of a provider.
pub open spec fn deletes_mapping(
    before: Store,
    after: Store,
    provider_id: Uuid,
    mapping_id: Uuid,
    affected: u64,
) -> bool {
    if has_mapping(before, provider_id, mapping_id) {
        affected == 1 && after == (Store { mappings: before.mappings.remove(mapping_id), ..before })
    } else {
        affected == 0 && after == before
    }
}

/// Enabling or disabling a mapping of a provider.
pub open spec fn sets_mapping(
    before: Store,
    after: Store,
    provider_id: Uuid,
    mapping_id: Uuid,
    enabled: bool,
    row: Option<CiOidcIdentityMapping>,
) -> bool {
    if has_mapping(before, provider_id, mapping_id) {
        &&& row matches Some(row)
        &&& only_mappings_differ(before, after)
        &&& after.mappings == before.mappings.insert(mapping_id, row)
        &&& row == (CiOidcIdentityMapping {
            is_enabled: enabled,
            updated_at: row.updated_at,
            ..before.mappings[mapping_id]
        })
    } else {
        row is None && after == before
    }
}

/// Assigning a role to an account that may have it already.  Where the statement is reported
/// as failed, it may have been carried out or not.
pub open spec fn assigns_role(
    before: Store,
    after: Store,
    assignment: Option<(Uuid, Uuid)>,
    reply: Result<(), String>,
) -> bool {
    match assignment {
        Some(pair) => {
            let assigned = Store { roles: before.roles.insert(pair), ..before };
            after == assigned || (reply is Err && after == before)
        },
        None => after == before,
    }
}

/// Whether a response is what the database holds of its provider.
pub open spec fn shown(response: CiOidcProviderResponse, store: Store) -> bool {
    &&& store.providers.contains_key(response.id)
    &&& response.name == store.providers[response.id].name
    &&& response.provider_type == store.providers[response.id].provider_type
    &&& response.issuer_url == store.providers[response.id].issuer_url
    &&& response.audience == store.providers[response.id].audience
    &&& response.is_enabled == store.providers[response.id].is_enabled
    &&& response.created_at == store.providers[response.id].created_at
    &&& response.updated_at == store.providers[response.id].updated_at
    &&& response.mapping_count == mapping_count(store, response.id)
}

/// A provider is shown with its fields and the number of its mappings, enabled or not; one
/// that is not stored is reported as not found.
pub proof fn law_provider_is_shown(
    store: Store,
    id: Uuid,
    row: Option<CiOidcProviderRow>,
    answer: Result<CiOidcProviderResponse, AppError>,
)
    requires
        selects_counted(row, store, id),
        service::shows_provider(Ok(row), answer),
    ensures
        match answer {
            Ok(response) => response.id == id && shown(response, store),
            Err(error) => !store.providers.contains_key(id) && error@
                == service::provider_not_found(),
        },
{
}

/// The list shows every stored provider once, the oldest first.
pub proof fn law_list_shows_every_provider(
    store: Store,
    rows: Vec<CiOidcProviderRow>,
    answer: Result<Vec<CiOidcProviderResponse>, AppError>,
)
    requires
        selects_providers(rows@, store),
        service::lists_providers(Ok(rows), answer),
    ensures
        answer matches Ok(list) && {
            &&& forall|i: int| 0 <= i < list@.len() ==> shown(#[trigger] list@[i], store)
            &&& forall|id: Uuid| #[trigger]
                store.providers.contains_key(id) ==> exists|i: int|
                    0 <= i < list@.len() && (#[trigger] list@[i]).id == id
            &&& forall|i: int, j: int|
                0 <= i < j < list@.len() ==> (#[trigger] list@[i]).id != (#[trigger] list@[j]).id
                    && laws::not_after(list@[i].created_at, list@[j].created_at)
        },
{
    let list = answer->Ok_0;
    assert forall|i: int| 0 <= i < list@.len() implies shown(#[trigger] list@[i], store) by {
        assert(counts(rows@[i], store));
    }
    assert forall|id: Uuid| #[trigger] store.providers.contains_key(id) implies exists|i: int|
        0 <= i < list@.len() && (#[trigger] list@[i]).id == id by {
        let i = choose|i: int| 0 <= i < rows@.len() && (#[trigger] rows@[i]).id == id;
        assert(list@[i].id == id);
    }
    assert forall|i: int, j: int| 0 <= i < j < list@.len() implies (#[trigger] list@[i]).id != (
    #[trigger] list@[j]).id && laws::not_after(list@[i].created_at, list@[j].created_at) by {
        assert(rows@[i].id != rows@[j].id);
    }
}

/// What the list shows of a provider is what it is shown as by itself.
pub proof fn law_list_agrees_with_provider(
    store: Store,
    listed: CiOidcProviderResponse,
    alone: CiOidcProviderResponse,
)
    requires
        shown(listed, store),
        shown(alone, store),
        listed.id == alone.id,
    ensures
        listed == alone,
{
}

/// A new provider is stored under a new identifier and shown as it was asked for, with the
/// defaults for what was not, and without mappings.  All other providers stay as they were.
pub proof fn law_created_provider_is_shown(
    before: Store,
    after: Store,
    req: CreateCiOidcProviderRequest,
    columns: ProviderColumns,
    id: Uuid,
    row: Option<CiOidcProviderRow>,
    answer: Result<CiOidcProviderResponse, AppError>,
)
    requires
        service::new_provider(columns, req),
        inserts_provider(before, after, columns, id),
        selects_counted(row, after, id),
        service::shows_provider(Ok(row), answer),
    ensures
        answer matches Ok(response) && {
            &&& response.id == id
            &&& shown(response, after)
            &&& response.name == req.name
            &&& response.issuer_url == req.issuer_url
            &&& response.provider_type@ == service::text_or(req.provider_type, "generic"@)
            &&& response.audience@ == service::text_or(req.audience, "artifact-keeper"@)
            &&& response.is_enabled == service::chosen_or(req.is_enabled, true)
            &&& response.mapping_count == 0
        },
        !before.providers.contains_key(id),
        after.providers.remove(id) == before.providers,
{
    assert(after.mappings == before.mappings);
    assert(mapping_ids(after, id) =~= Set::<Uuid>::empty());
    assert(after.providers.remove(id) =~= before.providers);
}

/// A changed provider is shown with what was asked for, and with what it had for the rest.
/// Its identifier, its mappings and all other providers stay as they were; a provider that
/// is not stored is reported as not found before anything is written.
pub proof fn law_updated_provider_is_shown(
    before: Store,
    after: Store,
    id: Uuid,
    req: UpdateCiOidcProviderRequest,
    existing: CiOidcProvider,
    row: Option<CiOidcProviderRow>,
    answer: Result<CiOidcProviderResponse, AppError>,
)
    requires
        selects_provider(Some(existing), before, id),
        writes_provider(before, after, id, service::updated_provider(existing, req)),
        selects_counted(row, after, id),
        service::shows_provider(Ok(row), answer),
    ensures
        answer matches Ok(response) && {
            &&& response.id == id
            &&& shown(response, after)
            &&& provider_columns(after.providers[id]) == service::updated_provider(existing, req)
            &&& response.created_at == existing.created_at
            &&& response.mapping_count == mapping_count(before, id)
        },
        after.providers.remove(id) == before.providers.remove(id),
        after.mappings == before.mappings,
{
    assert(after.providers.remove(id) =~= before.providers.remove(id));
}

/// Toggling a provider sets whether it is enabled, whatever it was before, and changes
/// nothing else but the time of the change.  A provider that is not stored is reported as
/// not found, and nothing changes.
pub proof fn law_toggle_sets(
    before: Store,
    after: Store,
    id: Uuid,
    enabled: bool,
    affected: u64,
    toggled: Result<(), AppError>,
    row: Option<CiOidcProviderRow>,
    answer: Result<CiOidcProviderResponse, AppError>,
)
    requires
        sets_provider(before, after, id, enabled, affected),
        service::confirms(Ok(affected), service::provider_not_found(), toggled),
        selects_counted(row, after, id),
        service::shows_provider(Ok(row), answer),
    ensures
        toggled is Ok <==> before.providers.contains_key(id),
        match toggled {
            Ok(()) => {
                &&& answer matches Ok(response) && response.id == id && response.is_enabled
                    == enabled && shown(response, after)
                &&& after.providers[id] == (CiOidcProvider {
                    is_enabled: enabled,
                    updated_at: after.providers[id].updated_at,
                    ..before.providers[id]
                })
                &&& after.providers.remove(id) == before.providers.remove(id)
                &&& after.mappings == before.mappings
            },
            Err(error) => error@ == service::provider_not_found() && after == before,
        },
{
    if toggled is Ok {
        assert(after.providers.remove(id) =~= before.providers.remove(id));
    }
}

/// Toggling a provider twice to the same value comes to the same as toggling it once, up to
/// the time of the change.
pub proof fn law_toggle_twice(
    before: Store,
    once: Store,
    twice: Store,
    id: Uuid,
    enabled: bool,
    first: u64,
    second: u64,
)
    requires
        sets_provider(before, once, id, enabled, first),
        sets_provider(once, twice, id, enabled, second),
    ensures
        first == second,
        twice.providers.remove(id) == once.providers.remove(id),
        once.providers.contains_key(id) ==> twice.providers[id] == (CiOidcProvider {
            updated_at: twice.providers[id].updated_at,
            ..once.providers[id]
        }),
        only_providers_differ(once, twice),
{
    assert(twice.providers.remove(id) =~= once.providers.remove(id));
}

/// Deleting a provider removes it and leaves all other providers and their mappings as they
/// were.  A provider that is not stored is reported as not found, and nothing changes.
pub proof fn law_delete_removes_provider(
    before: Store,
    after: Store,
    id: Uuid,
    affected: u64,
    answer: Result<(), AppError>,
)
    requires
        deletes_provider(before, after, id, affected),
        service::confirms(Ok(affected), service::provider_not_found(), answer),
    ensures
        answer is Ok <==> before.providers.contains_key(id),
        answer matches Err(error) ==> error@ == service::provider_not_found() && after == before,
        !after.providers.contains_key(id),
        after.providers == before.providers.remove(id),
        forall|m: Uuid|
            before.mappings.contains_key(m) && before.mappings[m].provider_id != id
                ==> #[trigger] after.mappings.contains_key(m) && after.mappings[m]
                == before.mappings[m],
{
    if !before.providers.contains_key(id) {
        assert(before.providers.remove(id) =~= before.providers);
    }
}

/// The list of a provider's mappings shows each of them once, in order of precedence.
pub proof fn law_list_shows_every_mapping(
    store: Store,
    provider_id: Uuid,
    rows: Vec<CiOidcIdentityMapping>,
    answer: Result<Vec<CiOidcMappingResponse>, AppError>,
)
    requires
        selects_mappings(rows@, store, provider_id),
        service::lists_mappings(Ok(rows), answer),
    ensures
        answer matches Ok(list) && {
            &&& forall|i: int|
                0 <= i < list@.len() ==> has_mapping(store, provider_id, (#[trigger] list@[i]).id)
                    && list@[i] == model::mapping_response(store.mappings[list@[i].id])
            &&& forall|id: Uuid| #[trigger]
                has_mapping(store, provider_id, id) ==> exists|i: int|
                    0 <= i < list@.len() && (#[trigger] list@[i]).id == id
            &&& forall|i: int, j: int|
                0 <= i < j < list@.len() ==> (#[trigger] list@[i]).id != (#[trigger] list@[j]).id
                    && (list@[i].priority < list@[j].priority || (list@[i].priority
                    == list@[j].priority && laws::not_after(
                    list@[i].created_at,
                    list@[j].created_at,
                )))
        },
{
    let list = answer->Ok_0;
    assert forall|i: int| 0 <= i < list@.len() implies has_mapping(
        store,
        provider_id,
        (#[trigger] list@[i]).id,
    ) && list@[i] == model::mapping_response(store.mappings[list@[i].id]) by {
        assert(has_mapping(store, provider_id, rows@[i].id));
    }
    assert forall|id: Uuid| #[trigger] has_mapping(store, provider_id, id) implies exists|i: int|
        0 <= i < list@.len() && (#[trigger] list@[i]).id == id by {
        let i = choose|i: int| 0 <= i < rows@.len() && (#[trigger] rows@[i]).id == id;
        assert(list@[i].id == id);
    }
    assert forall|i: int, j: int| 0 <= i < j < list@.len() implies (#[trigger] list@[i]).id != (
    #[trigger] list@[j]).id && (list@[i].priority < list@[j].priority || (list@[i].priority
        == list@[j].priority && laws::not_after(list@[i].created_at, list@[j].created_at))) by {
        assert(rows@[i].id != rows@[j].id);
        assert(laws::precedes(rows@[i], rows@[j]));
    }
}

/// A new mapping is stored as it was asked for, with the defaults for what was not, is
/// answered so, and reads back so.  All other mappings stay as they were.
pub proof fn law_created_mapping_is_shown(
    before: Store,
    after: Store,
    provider_id: Uuid,
    req: CreateCiOidcMappingRequest,
    row: CiOidcIdentityMapping,
    answer: Result<CiOidcMappingResponse, AppError>,
    read: Option<CiOidcIdentityMapping>,
    read_answer: Result<CiOidcMappingResponse, AppError>,
)
    requires
        inserts_mapping(before, after, provider_id, service::new_mapping(req), row),
        service::shows_written(Ok(row), answer),
        selects_mapping(read, after, provider_id, row.id),
        service::shows_mapping(Ok(read), read_answer),
    ensures
        answer matches Ok(response) && {
            &&& response.provider_id == provider_id
            &&& response.name == req.name
            &&& response.priority == service::chosen_or(req.priority, 100)
            &&& response.claim_filters == req.claim_filters
            &&& response.role_id == req.role_id
            &&& response.allowed_repo_ids == req.allowed_repo_ids
            &&& response.is_enabled == service::chosen_or(req.is_enabled, true)
        },
        read_answer == answer,
        !before.mappings.contains_key(row.id),
        after.mappings.remove(row.id) == before.mappings,
        after.providers == before.providers,
{
    assert(after.mappings.remove(row.id) =~= before.mappings);
}

/// A new mapping raises the mapping count of its provider by one, and no other.
pub proof fn law_created_mapping_is_counted(
    before: Store,
    after: Store,
    provider_id: Uuid,
    columns: MappingColumns,
    row: CiOidcIdentityMapping,
    other_id: Uuid,
)
    requires
        before.mappings.dom().finite(),
        inserts_mapping(before, after, provider_id, columns, row),
        other_id != provider_id,
    ensures
        mapping_count(after, provider_id) == mapping_count(before, provider_id) + 1,
        mapping_count(after, other_id) == mapping_count(before, other_id),
{
    let old_ids = mapping_ids(before, provider_id);
    let new_ids = mapping_ids(after, provider_id);
    before.mappings.dom().lemma_len_filter(
        |id: Uuid| before.mappings[id].provider_id == provider_id,
    );
    assert(new_ids =~= old_ids.insert(row.id));
    assert(mapping_ids(after, other_id) =~= mapping_ids(before, other_id));
}

/// Deleting a mapping that its provider has lowers the provider's mapping count by one.
pub proof fn law_deleted_mapping_is_not_counted(
    before: Store,
    after: Store,
    provider_id: Uuid,
    mapping_id: Uuid,
    affected: u64,
)
    requires
        before.mappings.dom().finite(),
        deletes_mapping(before, after, provider_id, mapping_id, affected),
        has_mapping(before, provider_id, mapping_id),
    ensures
        mapping_count(after, provider_id) == mapping_count(before, provider_id) - 1,
{
    let old_ids = mapping_ids(before, provider_id);
    before.mappings.dom().lemma_len_filter(
        |id: Uuid| before.mappings[id].provider_id == provider_id,
    );
    assert(mapping_ids(after, provider_id) =~= old_ids.remove(mapping_id));
}

/// The list of a provider's mappings is as long as the provider's mapping count.
pub proof fn law_list_is_as_long_as_count(
    store: Store,
    provider_id: Uuid,
    rows: Vec<CiOidcIdentityMapping>,
    answer: Result<Vec<CiOidcMappingResponse>, AppError>,
)
    requires
        selects_mappings(rows@, store, provider_id),
        service::lists_mappings(Ok(rows), answer),
    ensures
        answer matches Ok(list) && list@.len() == mapping_count(store, provider_id),
{
    let ids = rows@.map_values(|row: CiOidcIdentityMapping| row.id);
    assert forall|i: int, j: int|
        0 <= i < ids.len() && 0 <= j < ids.len() && i != j implies ids[i] != ids[j] by {
        if i < j {
            assert(rows@[i].id != rows@[j].id);
        } else {
            assert(rows@[j].id != rows@[i].id);
        }
    }
    assert forall|id: Uuid| #[trigger]
        ids.to_set().contains(id) <==> mapping_ids(store, provider_id).contains(id) by {
        if ids.to_set().contains(id) {
            let i = choose|i: int| 0 <= i < ids.len() && ids[i] == id;
            assert(has_mapping(store, provider_id, rows@[i].id));
        }
        if mapping_ids(store, provider_id).contains(id) {
            assert(has_mapping(store, provider_id, id));
            let i = choose|i: int| 0 <= i < rows@.len() && (#[trigger] rows@[i]).id == id;
            assert(ids[i] == id);
        }
    }
    assert(ids.to_set() =~= mapping_ids(store, provider_id));
    ids.unique_seq_to_set();
}

/// A changed mapping is answered with what was asked for, and with what it had for the rest,
/// and reads back so.  All other mappings stay as they were.
pub proof fn law_updated_mapping_is_shown(
    before: Store,
    after: Store,
    provider_id: Uuid,
    mapping_id: Uuid,
    req: UpdateCiOidcMappingRequest,
    existing: CiOidcIdentityMapping,
    row: CiOidcIdentityMapping,
    answer: Result<CiOidcMappingResponse, AppError>,
    read: Option<CiOidcIdentityMapping>,
    read_answer: Result<CiOidcMappingResponse, AppError>,
)
    requires
        selects_mapping(Some(existing), before, provider_id, mapping_id),
        writes_mapping(
            before,
            after,
            provider_id,
            mapping_id,
            service::updated_mapping(existing, req),
            row,
        ),
        service::shows_written(Ok(row), answer),
        selects_mapping(read, after, provider_id, mapping_id),
        service::shows_mapping(Ok(read), read_answer),
    ensures
        answer is Ok,
        read_answer == answer,
        mapping_columns(after.mappings[mapping_id]) == service::updated_mapping(existing, req),
        after.mappings[mapping_id].id == existing.id,
        after.mappings[mapping_id].created_at == existing.created_at,
        after.mappings.remove(mapping_id) == before.mappings.remove(mapping_id),
        after.providers == before.providers,
{
    assert(after.mappings.remove(mapping_id) =~= before.mappings.remove(mapping_id));
}

/// Toggling a mapping sets whether it is enabled, whatever it was before, and changes nothing
/// else but the time of the change.  A mapping that the provider does not have is reported as
/// not found, and nothing changes.
pub proof fn law_toggle_sets_mapping(
    before: Store,
    after: Store,
    provider_id: Uuid,
    mapping_id: Uuid,
    enabled: bool,
    row: Option<CiOidcIdentityMapping>,
    answer: Result<CiOidcMappingResponse, AppError>,
)
    requires
        sets_mapping(before, after, provider_id, mapping_id, enabled, row),
        service::shows_mapping(Ok(row), answer),
    ensures
        answer is Ok <==> has_mapping(before, provider_id, mapping_id),
        match answer {
            Ok(response) => {
                &&& response.is_enabled == enabled
                &&& response == model::mapping_response(after.mappings[mapping_id])
                &&& after.mappings[mapping_id] == (CiOidcIdentityMapping {
                    is_enabled: enabled,
                    updated_at: after.mappings[mapping_id].updated_at,
                    ..before.mappings[mapping_id]
                })
                &&& after.mappings.remove(mapping_id) == before.mappings.remove(mapping_id)
            },
            Err(error) => error@ == service::mapping_not_found() && after == before,
        },
{
    if answer is Ok {
        assert(after.mappings.remove(mapping_id) =~= before.mappings.remove(mapping_id));
    }
}

/// Deleting a mapping removes it and nothing else.  A mapping that the provider does not have
/// is reported as not found, and nothing changes.
pub proof fn law_delete_removes_mapping(
    before: Store,
    after: Store,
    provider_id: Uuid,
    mapping_id: Uuid,
    affected: u64,
    answer: Result<(), AppError>,
)
    requires
        deletes_mapping(before, after, provider_id, mapping_id, affected),
        service::confirms(Ok(affected), service::mapping_not_found(), answer),
    ensures
        answer is Ok <==> has_mapping(before, provider_id, mapping_id),
        answer is Ok ==> after.mappings == before.mappings.remove(mapping_id),
        answer matches Err(error) ==> error@ == service::mapping_not_found() && after == before,
        !has_mapping(after, provider_id, mapping_id),
        only_mappings_differ(before, after),
{
}

/// After every exchange that hands out a token, the account has the mapping's role, where the
/// mapping has one, and no other role was given or taken.
pub proof fn law_exchange_assigns_role(
    before: Store,
    after: Store,
    mapping: CiOidcIdentityMapping,
    user: ProvisionedUser,
    tokens: AccessTokens,
    assigned: Result<(), String>,
    answer: Result<CiTokenResponse, AppError>,
)
    requires
        assigns_role(before, after, exchange::assigned_role(mapping, user), assigned),
        exchange::answers(mapping, user, tokens, assigned, answer),
        answer is Ok,
    ensures
        match mapping.role_id {
            Some(role_id) => after.roles == before.roles.insert((user.id, role_id)),
            None => after.roles == before.roles,
        },
        after == (Store { roles: after.roles, ..before }),
{
}

/// An account that has its mapping's role keeps its roles as they are in a further exchange.
pub proof fn law_assigned_role_is_kept(
    before: Store,
    after: Store,
    mapping: CiOidcIdentityMapping,
    user: ProvisionedUser,
    assigned: Result<(), String>,
)
    requires
        assigns_role(before, after, exchange::assigned_role(mapping, user), assigned),
        mapping.role_id matches Some(role_id) ==> before.roles.contains((user.id, role_id)),
    ensures
        after == before,
{
    if let Some(pair) = exchange::assigned_role(mapping, user) {
        assert(before.roles.insert(pair) =~= before.roles);
    }
}

/// Where a role cannot be assigned, the exchange fails with the database's error, hands out no
/// token and leaves the account provisioned.  The next exchange under a mapping with this role
/// that hands out a token leaves the account with the role.
pub proof fn law_failed_role_is_repaired(
    before: Store,
    after: Store,
    mapping: CiOidcIdentityMapping,
    user: ProvisionedUser,
    tokens: AccessTokens,
    failure: String,
    answer: Result<CiTokenResponse, AppError>,
    later: Store,
    repaired: Store,
    later_mapping: CiOidcIdentityMapping,
    later_user: ProvisionedUser,
    later_tokens: AccessTokens,
    later_assigned: Result<(), String>,
    later_answer: Result<CiTokenResponse, AppError>,
)
    requires
        mapping.role_id is Some,
        assigns_role(before, after, exchange::assigned_role(mapping, user), Err(failure)),
        exchange::answers(mapping, user, tokens, Err(failure), answer),
        later_mapping.role_id == mapping.role_id,
        later_user.id == user.id,
        assigns_role(
            later,
            repaired,
            exchange::assigned_role(later_mapping, later_user),
            later_assigned,
        ),
        exchange::answers(later_mapping, later_user, later_tokens, later_assigned, later_answer),
        later_answer is Ok,
    ensures
        answer matches Err(error) && error@ == ErrorValue::Database(failure@),
        after.accounts == before.accounts,
        repaired.roles.contains((user.id, mapping.role_id->Some_0)),
{
}

/// Whether an added row leaves the mapping that a token falls under alone: it is disabled, of
/// another provider, does not accept the claims, or has a higher priority number.
pub open spec fn comes_later(
    row: CiOidcIdentityMapping,
    provider_id: Uuid,
    claims: JsonValue,
    winner: CiOidcIdentityMapping,
) -> bool {
    ||| !row.is_enabled
    ||| row.provider_id != provider_id
    ||| !mapping::mapping_accepts(row, claims)
    ||| row.priority > winner.priority
}

/// Added mappings that do not come first change nothing: a token falls under the same mapping
/// as before.  Left out are stored mappings that accept the token and have both the priority
/// and the age of the one it falls under, since their order is open.
pub proof fn law_added_mappings_change_nothing(
    stored: Set<CiOidcIdentityMapping>,
    added: Set<CiOidcIdentityMapping>,
    provider_id: Uuid,
    rows: Seq<CiOidcIdentityMapping>,
    new_rows: Seq<CiOidcIdentityMapping>,
    claims: JsonValue,
    at: int,
    new_at: int,
)
    requires
        laws::enabled_mappings(rows, stored, provider_id),
        laws::enabled_mappings(new_rows, stored.union(added), provider_id),
        mapping::first_match(rows, claims, at),
        forall|row: CiOidcIdentityMapping| #[trigger]
            added.contains(row) ==> comes_later(row, provider_id, claims, rows[at]),
        forall|row: CiOidcIdentityMapping| #[trigger]
            stored.contains(row) && row != rows[at] && row.provider_id == provider_id
                && row.is_enabled && mapping::mapping_accepts(row, claims) ==> !laws::precedes(
                row,
                rows[at],
            ),
    ensures
        exists|place: int| mapping::first_match(new_rows, claims, place),
        mapping::first_match(new_rows, claims, new_at) ==> new_rows[new_at] == rows[at],
{
    let winner = rows[at];
    assert(rows.contains(winner));
    assert(new_rows.contains(winner));
    let place = choose|i: int| 0 <= i < new_rows.len() && new_rows[i] == winner;
    lemma_some_first_match(new_rows, claims, place);
    if mapping::first_match(new_rows, claims, new_at) {
        let found = new_rows[new_at];
        assert(new_rows.contains(found));
        if place < new_at {
            assert(!mapping::mapping_accepts(new_rows[place], claims));
        }
        if new_at < place {
            assert(laws::precedes(found, winner));
            if added.contains(found) {
                assert(comes_later(found, provider_id, claims, winner));
            }
        }
    }
}

/// Where some mapping accepts the claims, there is a first one.
proof fn lemma_some_first_match(
    mappings: Seq<CiOidcIdentityMapping>,
    claims: JsonValue,
    place: int,
)
    requires
        0 <= place < mappings.len(),
        mapping::mapping_accepts(mappings[place], claims),
    ensures
        exists|at: int| mapping::first_match(mappings, claims, at),
    decreases place,
{
    if exists|i: int| 0 <= i < place && mapping::mapping_accepts(#[trigger] mappings[i], claims) {
        let earlier = choose|i: int|
            0 <= i < place && mapping::mapping_accepts(#[trigger] mappings[i], claims);
        lemma_some_first_match(mappings, claims, earlier);
    } else {
        assert(mapping::first_match(mappings, claims, place));
    }
}

} // verus!
