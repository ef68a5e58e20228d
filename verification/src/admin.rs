//! The configuration endpoints, step by step.
//!
//! Every endpoint first checks that the caller is an administrator.  It then goes through
//! one or more steps, each a database statement.  An [`Admitted`] step can only be had from
//! an endpoint, so no statement is run for anyone else.

use crate::error::{AppError, ErrorValue};
use crate::model::{
    CiOidcIdentityMapping, CiOidcMappingResponse, CiOidcProvider, CiOidcProviderResponse,
    CiOidcProviderRow, CiOidcToggleRequest, CreateCiOidcMappingRequest,
    CreateCiOidcProviderRequest, MappingColumns, ProviderColumns, UpdateCiOidcMappingRequest,
    UpdateCiOidcProviderRequest,
};
use crate::service;
use crate::service::CiOidcService;
use crate::uuid::Uuid;
use vstd::prelude::*;

verus! {

/// What is known of an authenticated caller.
#[derive(Debug)]
pub struct AuthExtension {
    /// What came of the check that the caller is an administrator.
    pub admin_check: Result<(), AppError>,
}

/// Whether a check of the caller is passed on: who passed it passes, and who was refused is
/// refused in the same words.
pub open spec fn passes_on<T>(auth: AuthExtension, answer: Result<T, AppError>) -> bool {
    match auth.admin_check {
        Ok(()) => answer is Ok,
        Err(refusal) => answer matches Err(error) && error@ == refusal@,
    }
}

impl AuthExtension {
    /// Lets administrators pass and refuses everyone else.
    pub fn require_admin(&self) -> (passed: Result<(), AppError>)
        ensures
            passes_on(*self, passed),
    {
        match &self.admin_check {
            Ok(()) => Ok(()),
            Err(refusal) => Err(refusal.clone()),
        }
    }
}

impl Clone for AuthExtension {
    fn clone(&self) -> (copy: AuthExtension)
        ensures
            passes_on(*self, copy.admin_check),
    {
        AuthExtension { admin_check: self.require_admin() }
    }
}

/// Guards every configuration endpoint: administrators pass, everyone else is refused.
pub fn require_admin(auth: &AuthExtension) -> (passed: Result<(), AppError>)
    ensures
        passes_on(*auth, passed),
{
    auth.require_admin()
}

/// A step that an administrator asked for.
pub struct Admitted<T> {
    step: T,
}

impl<T> Admitted<T> {
    /// The step.
    pub closed spec fn task(&self) -> T {
        self.step
    }

    /// The step.
    pub fn step(&self) -> (step: &T)
        ensures
            *step == self.task(),
    {
        &self.step
    }
}

/// Whether an endpoint lets an administrator go on with a step and refuses everyone else.
pub open spec fn admits<T>(
    auth: AuthExtension,
    answer: Result<Admitted<T>, AppError>,
    step: T,
) -> bool {
    &&& passes_on(auth, answer)
    &&& answer matches Ok(admitted) ==> admitted.task() == step
}

fn for_admins<T>(auth: &AuthExtension, step: T) -> (answer: Result<Admitted<T>, AppError>)
    ensures
        admits(*auth, answer, step),
{
    match require_admin(auth) {
        Ok(()) => Ok(Admitted { step }),
        Err(error) => Err(error),
    }
}

/// Read all providers, oldest first, with the number of their mappings.
pub struct ListProviders;

/// Read one provider with the number of its mappings.
pub struct ReadProvider {
    pub id: Uuid,
}

/// Store a new provider.
pub struct InsertProvider {
    pub columns: ProviderColumns,
}

/// Read the provider that is to be changed.
pub struct FindProvider {
    pub id: Uuid,
    pub req: UpdateCiOidcProviderRequest,
}

/// Change a provider.
pub struct WriteProvider {
    pub id: Uuid,
    pub columns: ProviderColumns,
}

/// Delete a provider.
pub struct DeleteProvider {
    pub id: Uuid,
}

/// Enable or disable a provider.
pub struct ToggleProvider {
    pub id: Uuid,
    pub enabled: bool,
}

/// Read the provider whose mappings are asked for.
pub struct FindProviderOfMappings {
    pub provider_id: Uuid,
}

/// Read all mappings of a provider, in order of precedence.
pub struct ListMappings {
    pub provider_id: Uuid,
}

/// Read one mapping of a provider.
pub struct ReadMapping {
    pub provider_id: Uuid,
    pub mapping_id: Uuid,
}

/// Read the provider that is to have a new mapping.
pub struct FindProviderForMapping {
    pub provider_id: Uuid,
    pub req: CreateCiOidcMappingRequest,
}

/// Store a new mapping.
pub struct InsertMapping {
    pub provider_id: Uuid,
    pub columns: MappingColumns,
}

/// Read the mapping that is to be changed.
pub struct FindMapping {
    pub provider_id: Uuid,
    pub mapping_id: Uuid,
    pub req: UpdateCiOidcMappingRequest,
}

/// Change a mapping.
pub struct WriteMapping {
    pub provider_id: Uuid,
    pub mapping_id: Uuid,
    pub columns: MappingColumns,
}

/// Delete a mapping.
pub struct DeleteMapping {
    pub provider_id: Uuid,
    pub mapping_id: Uuid,
}

/// Enable or disable a mapping.
pub struct ToggleMapping {
    pub provider_id: Uuid,
    pub mapping_id: Uuid,
    pub enabled: bool,
}

/// Lists the providers.
pub fn list_providers(auth: &AuthExtension) -> (answer: Result<Admitted<ListProviders>, AppError>)
    ensures
        admits(*auth, answer, ListProviders),
{
    for_admins(auth, ListProviders)
}

/// Shows a provider.
pub fn get_provider(auth: &AuthExtension, id: Uuid) -> (answer: Result<Admitted<ReadProvider>, AppError>)
    ensures
        admits(*auth, answer, (ReadProvider { id })),
{
    for_admins(auth, ReadProvider { id })
}

/// Adds a provider.
pub fn create_provider(auth: &AuthExtension, req: CreateCiOidcProviderRequest) -> (answer: Result<
    Admitted<InsertProvider>,
    AppError,
>)
    ensures
        passes_on(*auth, answer),
        answer matches Ok(admitted) ==> service::new_provider(admitted.task().columns, req),
{
    for_admins(auth, InsertProvider { columns: CiOidcService::create(req) })
}

/// Changes a provider.
pub fn update_provider(auth: &AuthExtension, id: Uuid, req: UpdateCiOidcProviderRequest) -> (answer: Result<Admitted<FindProvider>, AppError>)
    ensures
        admits(*auth, answer, (FindProvider { id, req })),
{
    for_admins(auth, FindProvider { id, req })
}

/// Removes a provider.
pub fn delete_provider(auth: &AuthExtension, id: Uuid) -> (answer: Result<Admitted<DeleteProvider>, AppError>)
    ensures
        admits(*auth, answer, (DeleteProvider { id })),
{
    for_admins(auth, DeleteProvider { id })
}

/// Enables or disables a provider.
pub fn toggle_provider(auth: &AuthExtension, id: Uuid, req: CiOidcToggleRequest) -> (answer: Result<Admitted<ToggleProvider>, AppError>)
    ensures
        admits(*auth, answer, (ToggleProvider { id, enabled: req.enabled })),
{
    for_admins(auth, ToggleProvider { id, enabled: req.enabled })
}

/// Lists the mappings of a provider.
pub fn list_mappings(auth: &AuthExtension, provider_id: Uuid) -> (answer: Result<Admitted<FindProviderOfMappings>, AppError>)
    ensures
        admits(*auth, answer, (FindProviderOfMappings { provider_id })),
{
    for_admins(auth, FindProviderOfMappings { provider_id })
}

/// Shows a mapping.
pub fn get_mapping(auth: &AuthExtension, provider_id: Uuid, mapping_id: Uuid) -> (answer: Result<Admitted<ReadMapping>, AppError>)
    ensures
        admits(*auth, answer, (ReadMapping { provider_id, mapping_id })),
{
    for_admins(auth, ReadMapping { provider_id, mapping_id })
}

/// Adds a mapping to a provider.
pub fn create_mapping(auth: &AuthExtension, provider_id: Uuid, req: CreateCiOidcMappingRequest) -> (answer: Result<Admitted<FindProviderForMapping>, AppError>)
    ensures
        admits(*auth, answer, (FindProviderForMapping { provider_id, req })),
{
    for_admins(auth, FindProviderForMapping { provider_id, req })
}

/// Changes a mapping.
pub fn update_mapping(auth: &AuthExtension, provider_id: Uuid, mapping_id: Uuid, req: UpdateCiOidcMappingRequest) -> (answer: Result<Admitted<FindMapping>, AppError>)
    ensures
        admits(*auth, answer, (FindMapping { provider_id, mapping_id, req })),
{
    for_admins(auth, FindMapping { provider_id, mapping_id, req })
}

/// Removes a mapping.
pub fn delete_mapping(auth: &AuthExtension, provider_id: Uuid, mapping_id: Uuid) -> (answer: Result<Admitted<DeleteMapping>, AppError>)
    ensures
        admits(*auth, answer, (DeleteMapping { provider_id, mapping_id })),
{
    for_admins(auth, DeleteMapping { provider_id, mapping_id })
}

/// Enables or disables a mapping.
pub fn toggle_mapping(auth: &AuthExtension, provider_id: Uuid, mapping_id: Uuid, req: CiOidcToggleRequest) -> (answer: Result<Admitted<ToggleMapping>, AppError>)
    ensures
        admits(*auth, answer, (ToggleMapping { provider_id, mapping_id, enabled: req.enabled })),
{
    for_admins(auth, ToggleMapping { provider_id, mapping_id, enabled: req.enabled })
}

impl Admitted<ListProviders> {
    /// Answers with the providers that were read.
    pub fn listed(self, rows: Result<Vec<CiOidcProviderRow>, String>) -> (next: Result<Vec<CiOidcProviderResponse>, AppError>)
        ensures
            service::lists_providers(rows, next),
    {
        CiOidcService::list(rows)
    }
}

impl Admitted<ReadProvider> {
    /// Answers with the provider that was read.
    pub fn read(self, row: Result<Option<CiOidcProviderRow>, String>) -> (next: Result<CiOidcProviderResponse, AppError>)
        ensures
            service::shows_provider(row, next),
    {
        CiOidcService::get_response(row)
    }
}

impl Admitted<InsertProvider> {
    /// Goes on to show the provider that was stored.
    pub fn inserted(self, id: Result<Uuid, String>) -> (next: Result<Admitted<ReadProvider>, AppError>)
        ensures
            match id {
                Ok(id) => next matches Ok(state) && state.task() == (ReadProvider { id: id }),
                Err(text) => next matches Err(error) && error@ == ErrorValue::Database(text@),
            },
    {
        match CiOidcService::database_reply(id) {
            Ok(id) => Ok(Admitted { step: ReadProvider { id } }),
            Err(error) => Err(error),
        }
    }
}

impl Admitted<FindProvider> {
    /// Goes on to change the provider that was found.
    pub fn found(self, row: Result<Option<CiOidcProvider>, String>) -> (next: Result<Admitted<WriteProvider>, AppError>)
        ensures
            match row {
                Ok(Some(found)) => next matches Ok(state) && state.task() == (WriteProvider {
                    id: self.task().id,
                    columns: service::updated_provider(found, self.task().req),
                }),
                Ok(None) => next matches Err(error) && error@ == service::provider_not_found(),
                Err(text) => next matches Err(error) && error@ == ErrorValue::Database(text@),
            },
    {
        match CiOidcService::get(row) {
            Ok(existing) => Ok(
                Admitted {
                    step: WriteProvider {
                        id: self.step.id,
                        columns: CiOidcService::update(existing, self.step.req),
                    },
                },
            ),
            Err(error) => Err(error),
        }
    }
}

impl Admitted<WriteProvider> {
    /// Goes on to show the provider that was changed.
    pub fn written(self, reply: Result<(), String>) -> (next: Result<Admitted<ReadProvider>, AppError>)
        ensures
            match reply {
                Ok(()) => next matches Ok(state) && state.task() == (ReadProvider { id: self.task().id }),
                Err(text) => next matches Err(error) && error@ == ErrorValue::Database(text@),
            },
    {
        match CiOidcService::database_reply(reply) {
            Ok(()) => Ok(Admitted { step: ReadProvider { id: self.step.id } }),
            Err(error) => Err(error),
        }
    }
}

impl Admitted<DeleteProvider> {
    /// Answers whether there was a provider to delete.
    pub fn deleted(self, affected: Result<u64, String>) -> (next: Result<(), AppError>)
        ensures
            service::confirms(affected, service::provider_not_found(), next),
    {
        CiOidcService::delete(affected)
    }
}

impl Admitted<ToggleProvider> {
    /// Goes on to show the provider, where there was one to enable or disable.
    pub fn toggled(self, affected: Result<u64, String>) -> (next: Result<Admitted<ReadProvider>, AppError>)
        ensures
            match affected {
                Ok(0) => next matches Err(error) && error@ == service::provider_not_found(),
                Ok(_) => next matches Ok(state) && state.task() == (ReadProvider {
                    id: self.task().id,
                }),
                Err(text) => next matches Err(error) && error@ == ErrorValue::Database(text@),
            },
    {
        match CiOidcService::toggle(affected) {
            Ok(()) => Ok(Admitted { step: ReadProvider { id: self.step.id } }),
            Err(error) => Err(error),
        }
    }
}

impl Admitted<FindProviderOfMappings> {
    /// Goes on to read the mappings of the provider that was found.
    pub fn found(self, row: Result<Option<CiOidcProvider>, String>) -> (next: Result<Admitted<ListMappings>, AppError>)
        ensures
            match row {
                Ok(Some(found)) => next matches Ok(state) && state.task() == (ListMappings {
                    provider_id: self.task().provider_id,
                }),
                Ok(None) => next matches Err(error) && error@ == service::provider_not_found(),
                Err(text) => next matches Err(error) && error@ == ErrorValue::Database(text@),
            },
    {
        match CiOidcService::get(row) {
            Ok(_) => Ok(Admitted { step: ListMappings { provider_id: self.step.provider_id } }),
            Err(error) => Err(error),
        }
    }
}

impl Admitted<ListMappings> {
    /// Answers with the mappings that were read, in their order.
    pub fn listed(self, rows: Result<Vec<CiOidcIdentityMapping>, String>) -> (next: Result<Vec<CiOidcMappingResponse>, AppError>)
        ensures
            service::lists_mappings(rows, next),
    {
        CiOidcService::list_mappings(rows)
    }
}

impl Admitted<ReadMapping> {
    /// Answers with the mapping that was read.
    pub fn read(self, row: Result<Option<CiOidcIdentityMapping>, String>) -> (next: Result<CiOidcMappingResponse, AppError>)
        ensures
            service::shows_mapping(row, next),
    {
        CiOidcService::get_mapping(row)
    }
}

impl Admitted<FindProviderForMapping> {
    /// Goes on to store the mapping, where its provider was found.
    pub fn found(self, row: Result<Option<CiOidcProvider>, String>) -> (next: Result<Admitted<InsertMapping>, AppError>)
        ensures
            match row {
                Ok(Some(found)) => next matches Ok(state) && state.task() == (InsertMapping {
                    provider_id: self.task().provider_id,
                    columns: service::new_mapping(self.task().req),
                }),
                Ok(None) => next matches Err(error) && error@ == service::provider_not_found(),
                Err(text) => next matches Err(error) && error@ == ErrorValue::Database(text@),
            },
    {
        match CiOidcService::get(row) {
            Ok(_) => Ok(
                Admitted {
                    step: InsertMapping {
                        provider_id: self.step.provider_id,
                        columns: CiOidcService::create_mapping(self.step.req),
                    },
                },
            ),
            Err(error) => Err(error),
        }
    }
}

impl Admitted<InsertMapping> {
    /// Answers with the mapping that was stored.
    pub fn inserted(self, row: Result<CiOidcIdentityMapping, String>) -> (next: Result<CiOidcMappingResponse, AppError>)
        ensures
            service::shows_written(row, next),
    {
        CiOidcService::written_mapping(row)
    }
}

impl Admitted<FindMapping> {
    /// Goes on to change the mapping that was found.
    pub fn found(self, row: Result<Option<CiOidcIdentityMapping>, String>) -> (next: Result<Admitted<WriteMapping>, AppError>)
        ensures
            match row {
                Ok(Some(found)) => next matches Ok(state) && state.task() == (WriteMapping {
                    provider_id: self.task().provider_id,
                    mapping_id: self.task().mapping_id,
                    columns: service::updated_mapping(found, self.task().req),
                }),
                Ok(None) => next matches Err(error) && error@ == service::mapping_not_found(),
                Err(text) => next matches Err(error) && error@ == ErrorValue::Database(text@),
            },
    {
        match CiOidcService::existing_mapping(row) {
            Ok(existing) => Ok(
                Admitted {
                    step: WriteMapping {
                        provider_id: self.step.provider_id,
                        mapping_id: self.step.mapping_id,
                        columns: CiOidcService::update_mapping(existing, self.step.req),
                    },
                },
            ),
            Err(error) => Err(error),
        }
    }
}

impl Admitted<WriteMapping> {
    /// Answers with the mapping that was changed.
    pub fn written(self, row: Result<CiOidcIdentityMapping, String>) -> (next: Result<CiOidcMappingResponse, AppError>)
        ensures
            service::shows_written(row, next),
    {
        CiOidcService::written_mapping(row)
    }
}

impl Admitted<DeleteMapping> {
    /// Answers whether there was a mapping to delete.
    pub fn deleted(self, affected: Result<u64, String>) -> (next: Result<(), AppError>)
        ensures
            service::confirms(affected, service::mapping_not_found(), next),
    {
        CiOidcService::delete_mapping(affected)
    }
}

impl Admitted<ToggleMapping> {
    /// Answers with the mapping that was enabled or disabled.
    pub fn toggled(self, row: Result<Option<CiOidcIdentityMapping>, String>) -> (next: Result<CiOidcMappingResponse, AppError>)
        ensures
            service::shows_mapping(row, next),
    {
        CiOidcService::toggle_mapping(row)
    }
}

} // verus!
