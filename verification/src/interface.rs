//! What the management service is asked and what it answers.
//!
//! Tenants are identified by a UUID, which is held as the number made of its 128 bits.
use crate::cli::TenantMigrationService;
use vstd::prelude::*;

verus! {

/// The configuration of a new tenant, carried through unread.
#[verifier::external_type_specification]
#[verifier::external_body]
pub struct ExCreateTenantInput(docbox_management_interface::CreateTenantInput);

/// What `serde_json` makes of a text that describes a new tenant.
pub uninterp spec fn tenant_config(text: Seq<char>) -> Result<
    docbox_management_interface::CreateTenantInput,
    serde_json::Error,
>;

/// Calls `serde_json::from_str` for a `CreateTenantInput` of `docbox_management_interface`.
///
/// Claimed of `serde_json`: the configuration, or the error, is determined by the text. Which texts
/// describe which configuration is left unsaid.
#[verifier::external_body]
pub(crate) fn parse_tenant_config(text: &str) -> (config: Result<
    docbox_management_interface::CreateTenantInput,
    serde_json::Error,
>)
    ensures
        config == tenant_config(text@),
{
    serde_json::from_str(text)
}

/// A command as it is sent to the management service, carried through unread.
#[verifier::external_type_specification]
#[verifier::external_body]
pub struct ExDocboxManagementCommand(docbox_management_interface::DocboxManagementCommand);

/// What `serde_json` makes of a command.
pub uninterp spec fn command_json(
    command: docbox_management_interface::DocboxManagementCommand,
) -> Result<Seq<char>, serde_json::Error>;

/// Calls `serde_json::to_string` on a `DocboxManagementCommand` of `docbox_management_interface`.
///
/// Claimed of `serde_json` and `docbox_management_interface`: a command is always serialised, and
/// the text is determined by the command. Which text it is, is left unsaid.
#[verifier::external_body]
pub(crate) fn serialize_command(
    command: &docbox_management_interface::DocboxManagementCommand,
) -> (text: Result<String, serde_json::Error>)
    ensures
        text is Ok,
        match text {
            Ok(text) => command_json(*command) == Ok::<Seq<char>, serde_json::Error>(text@),
            Err(error) => command_json(*command) == Err::<Seq<char>, serde_json::Error>(error),
        },
{
    serde_json::to_string(command)
}

/// A tenant as the management service knows it.
#[derive(Debug, PartialEq, Eq)]
pub struct ManagedTenant {
    /// Environment for the tenant
    pub env: String,
    /// Unique ID for the tenant
    pub id: u128,
    /// Name for the tenant
    pub name: String,
    /// Name of the tenant database
    pub db_name: String,
    /// Name of the secret with the database credentials, where the tenant uses one
    pub db_secret_name: Option<String>,
    /// Name of the database user, where the tenant uses IAM
    pub db_iam_user_name: Option<String>,
    /// Name of the tenant storage bucket
    pub s3_name: String,
    /// Name of the tenant search index
    pub os_index_name: String,
    /// URL of the queue that events are sent to
    pub event_queue_url: Option<String>,
}

/// A tenant that a migration was run against.
#[derive(Debug, PartialEq, Eq)]
pub struct ManagementTenantTarget {
    /// Unique ID for the tenant
    pub id: u128,
    /// Name for the tenant
    pub name: String,
    /// Environment for the tenant
    pub env: String,
}

/// A tenant that a migration failed for.
#[derive(Debug, PartialEq, Eq)]
pub struct FailedTenantMigration {
    /// The tenant
    pub target: ManagementTenantTarget,
    /// What went wrong
    pub error: String,
}

/// What to delete along with a tenant.
#[derive(Clone, Copy, Debug, PartialEq, Eq, Structural)]
pub struct DeleteTenantOptions {
    /// Whether to delete data stored within the tenant
    pub delete_contents: bool,
    /// Whether to delete the tenant storage bucket itself (requires `delete_contents`)
    pub delete_storage: bool,
    /// Whether to delete the tenant search index itself (requires `delete_contents`)
    pub delete_search: bool,
    /// Whether to delete the tenant database itself (requires `delete_contents`)
    pub delete_database: bool,
    /// Whether to delete the secret at once instead of leaving it recoverable for a while
    pub permanently_delete_secret: bool,
}

/// Input for deleting a tenant.
#[derive(Debug, PartialEq, Eq)]
pub struct DeleteTenantInput {
    /// Environment of the tenant to delete
    pub env: String,
    /// ID of the tenant to delete
    pub tenant_id: u128,
    /// What to delete along with the tenant
    pub options: DeleteTenantOptions,
}

/// Input for listing tenants.
#[derive(Debug, PartialEq, Eq)]
pub struct GetTenantsInput {
    /// Environment to list the tenants of, or all of them
    pub env: Option<String>,
}

/// Input for finding a tenant.
#[derive(Debug, PartialEq, Eq)]
pub struct GetTenantInput {
    /// Environment of the tenant
    pub env: String,
    /// ID of the tenant
    pub tenant_id: u128,
}

/// Input for migrating tenants.
#[derive(Debug, PartialEq, Eq)]
pub struct MigrateTenantInput {
    /// Environment to migrate the tenants of
    pub env: Option<String>,
    /// Tenant to migrate
    pub tenant_id: Option<u128>,
    /// Service to migrate
    pub service: Option<TenantMigrationService>,
    /// Migration to run
    pub name: Option<String>,
    /// Whether to continue past failures
    pub skip_failed: bool,
}

/// Input for setting the allowed CORS origins of a tenant.
#[derive(Debug, PartialEq, Eq)]
pub struct SetTenantAllowedCorsOriginsInput {
    /// Environment of the tenant
    pub env: String,
    /// ID of the tenant
    pub tenant_id: u128,
    /// The allowed origins
    pub origins: Vec<String>,
}

/// Input for migrating tenants from secrets to IAM.
#[derive(Debug, PartialEq, Eq)]
pub struct MigrateTenantIAMInput {
    /// Environment to migrate the tenants of
    pub env: String,
    /// Tenant to migrate
    pub tenant_id: Option<u128>,
}

/// What the management service answers to a request that it carried out.
#[allow(inconsistent_fields)]
#[derive(Debug, PartialEq, Eq)]
pub enum Reply {
    /// The root database was created
    RootCreated,
    /// Whether the root database is initialized
    RootChecked { initialized: bool },
    /// The tenant that was created
    TenantCreated { tenant: ManagedTenant },
    /// The tenant was deleted
    TenantDeleted,
    /// The tenants that were asked for
    Tenants { tenants: Vec<ManagedTenant> },
    /// The tenant that was asked for, if there is one
    Tenant { tenant: Option<ManagedTenant> },
    /// The tenants that migrations were applied to, and those that they failed for
    TenantsMigrated {
        applied_tenants: Vec<ManagementTenantTarget>,
        failed_tenants: Vec<FailedTenantMigration>,
    },
    /// The root database was migrated
    RootMigrated,
    /// The allowed origins were set
    CorsOriginsSet,
    /// The tenants that were migrated to IAM
    TenantsMigratedToIam { applied_tenants: Vec<ManagementTenantTarget> },
}

} // verus!
