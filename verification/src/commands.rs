//! The commands that the management service understands.
use crate::interface::DeleteTenantOptions;
use vstd::prelude::*;

verus! {

/// A command to the management service.
///
/// The configurations belong to the service and are carried through unread: `C` for creating a
/// tenant, `D`, `S` and `B` for migrating the databases, the search indexes and the storage buckets
/// of tenants.
#[derive(Debug)]
pub enum ManagementCommand<C, D, S, B> {
    /// Create and initialize the root database
    CreateRoot,
    /// Check the root database is initialized
    CheckRoot,
    /// Create a new tenant
    CreateTenant(C),
    /// Get a specific tenant
    GetTenant(GetTenantCommand),
    /// Delete a tenant
    DeleteTenant(DeleteTenantCommand),
    /// Get a list of tenants
    GetTenants(GetTenantsCommand),
    /// Set the allowed CORS origins for a tenant
    SetTenantAllowedCorsOrigins(SetTenantAllowedCorsOriginsCommand),
    /// Apply database migrations for a collection of tenants
    Migrate(D),
    /// Apply root migrations
    MigrateRoot,
    /// Apply search migrations for a collection of tenants
    MigrateSearch(S),
    /// Apply storage migrations for a collection of tenants
    MigrateStorage(B),
    /// Migrate a tenant from secrets based DB authentication to IAM authentication
    MigrateIAM(MigrateTenantIamCommand),
    /// Get pending migrations for a tenant
    GetTenantPendingMigrations(GetTenantPendingMigrationsCommand),
    /// Get pending search migrations for a tenant
    GetTenantPendingSearchMigrations(GetTenantPendingMigrationsCommand),
    /// Get pending storage migrations for a tenant
    GetTenantPendingStorageMigrations(GetTenantPendingMigrationsCommand),
}

/// Payload for getting a tenant.
#[derive(Debug, PartialEq, Eq)]
pub struct GetTenantCommand {
    pub env: String,
    pub tenant_id: u128,
}

/// Payload for getting the pending migrations of a tenant.
#[derive(Debug, PartialEq, Eq)]
pub struct GetTenantPendingMigrationsCommand {
    pub env: String,
    pub tenant_id: u128,
}

/// Payload for deleting a tenant.
#[derive(Debug, PartialEq, Eq)]
pub struct DeleteTenantCommand {
    pub env: String,
    pub tenant_id: u128,
    pub options: DeleteTenantOptions,
}

/// Payload for setting the allowed CORS origins of a tenant.
#[derive(Debug, PartialEq, Eq)]
pub struct SetTenantAllowedCorsOriginsCommand {
    pub env: String,
    pub tenant_id: u128,
    pub origins: Vec<String>,
}

/// Payload for getting a list of tenants.
#[derive(Debug, PartialEq, Eq)]
pub struct GetTenantsCommand {
    pub env: Option<String>,
}

/// Payload for migrating tenants to IAM authentication.
#[derive(Debug, PartialEq, Eq)]
pub struct MigrateTenantIamCommand {
    pub env: String,
    pub tenant_id: Option<u128>,
}

} // verus!
