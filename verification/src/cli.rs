//! The command line.
use crate::aws_config::{aws_config, aws_config_with_profile, settings_for, AwsSettings};
use crate::lambda_transport::FunctionConfig;
use std::path::PathBuf;
use vstd::prelude::*;

verus! {

/// A path of the file system, carried through unread.
#[verifier::external_type_specification]
#[verifier::external_body]
pub struct ExPathBuf(PathBuf);

/// How results are displayed.
#[derive(Clone, Copy, Debug, PartialEq, Eq, Structural)]
pub enum OutputFormat {
    /// Human readable
    Human,
    /// Machine readable JSON
    Json,
}

/// Which service a migration is for.
#[derive(Clone, Copy, Debug, PartialEq, Eq, Structural)]
pub enum TenantMigrationService {
    Database,
    Search,
    Storage,
}

/// What the user asks for.
#[allow(inconsistent_fields)]
#[derive(Debug, PartialEq, Eq)]
pub enum Commands {
    /// Initialize the root database
    CreateRoot,
    /// Check if the root database is initialized
    CheckRoot,
    /// Create a new tenant
    CreateTenant {
        /// File containing the tenant configuration details
        file: PathBuf,
    },
    /// Delete a tenant
    DeleteTenant {
        /// Environment to target
        env: String,
        /// Specific tenant to delete
        tenant_id: u128,
        /// Whether to delete data stored within the tenant
        delete_contents: Option<bool>,
        /// Whether to delete the tenant database itself (requires `delete_contents`)
        delete_database: Option<bool>,
        /// Whether to delete the tenant search index itself (requires `delete_contents`)
        delete_search: Option<bool>,
        /// Whether to delete the tenant storage bucket itself (requires `delete_contents`)
        delete_storage: Option<bool>,
        /// Whether to delete the secret at once instead of leaving it recoverable for a while
        permanently_delete_secret: Option<bool>,
    },
    /// Get all tenants
    GetTenants {
        /// Environment to filter to
        env: Option<String>,
    },
    /// Get a tenant
    GetTenant {
        /// Environment to target
        env: String,
        /// Specific tenant to get
        tenant_id: u128,
    },
    /// Run a migration
    Migrate {
        /// Environment to target
        env: Option<String>,
        /// Specific tenant to run against
        tenant_id: Option<u128>,
        /// Whether to ignore failures and continue
        skip_failed: bool,
        /// Specific service to target
        service: Option<TenantMigrationService>,
    },
    /// Run a root migration
    MigrateRoot,
    /// Set the allowed CORS origins for a tenant (overrides existing CORS configuration)
    SetAllowedStorageCorsOrigins {
        /// Environment to target
        env: String,
        /// ID of the tenant to target
        tenant_id: u128,
        /// Allowed origins to set
        origin: Vec<String>,
    },
    /// Migrate tenants from secrets to IAM
    MigrateTenantIam {
        /// Environment to target
        env: String,
        /// Specific tenant to run against
        tenant_id: Option<u128>,
    },
}

/// The arguments of the program.
#[derive(Debug, PartialEq, Eq)]
pub struct Args {
    /// What to do
    pub command: Commands,
    /// AWS profile to use
    pub aws_profile: Option<String>,
    /// Name of the management function
    pub function_name: String,
    /// Version or alias of the function
    pub function_qualifier: Option<String>,
    /// Identifier of the tenant in a multi-tenant function
    pub function_tenant_id: Option<String>,
    /// How to display the resulting data
    pub format: OutputFormat,
}

/// What the arguments of the program ask for, sorted by who needs it.
#[derive(Debug, PartialEq, Eq)]
pub struct Setup {
    /// How to reach AWS
    pub aws: AwsSettings,
    /// The function that stands for the management service
    pub function: FunctionConfig,
    /// What to do
    pub command: Commands,
    /// How to display the resulting data
    pub format: OutputFormat,
}

impl Args {
    /// Sorts the arguments by who needs them.
    pub fn into_setup(self) -> (setup: Setup)
        ensures
            settings_for(self.aws_profile, setup.aws),
            setup.function.name == self.function_name,
            setup.function.qualifier == self.function_qualifier,
            setup.function.tenant_id == self.function_tenant_id,
            setup.command == self.command,
            setup.format == self.format,
    {
        let aws = match self.aws_profile {
            Some(profile_name) => aws_config_with_profile(profile_name),
            None => aws_config(),
        };
        Setup {
            aws,
            function: FunctionConfig {
                name: self.function_name,
                qualifier: self.function_qualifier,
                tenant_id: self.function_tenant_id,
            },
            command: self.command,
            format: self.format,
        }
    }
}

/// Each part of a setup is the argument that it comes from.
pub proof fn setup_keeps_every_argument(args: Args, setup: Setup)
    requires
        call_ensures(Args::into_setup, (args,), setup),
    ensures
        setup.command == args.command,
        setup.format == args.format,
        setup.function.name == args.function_name,
        setup.function.qualifier == args.function_qualifier,
        setup.function.tenant_id == args.function_tenant_id,
        setup.aws.profile_name == args.aws_profile,
        setup.aws.fallback_region@ == "ap-southeast-2"@,
{
}

/// A setup tells its arguments: no two different ones have the same.
pub proof fn arguments_are_told_apart(a: Args, b: Args, setup: Setup)
    requires
        call_ensures(Args::into_setup, (a,), setup),
        call_ensures(Args::into_setup, (b,), setup),
    ensures
        a == b,
{
}

} // verus!
