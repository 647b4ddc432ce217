use docbox_lambda_cli::aws_config::{aws_config, aws_config_with_profile, SdkBehavior};
use docbox_lambda_cli::cli::{Args, Commands, OutputFormat, TenantMigrationService};
use docbox_lambda_cli::interface::{
    DeleteTenantInput, DeleteTenantOptions, GetTenantInput, GetTenantsInput, MigrateTenantIAMInput,
    MigrateTenantInput, Reply, SetTenantAllowedCorsOriginsInput,
};
use docbox_lambda_cli::report::Block;
use docbox_lambda_cli::session::{advance, create_tenant, Action, Event, Failure, Request};
use std::path::PathBuf;

type SampleEvent = Event<&'static str, &'static str>;
type SampleAction = Action<&'static str, &'static str>;

fn next_action(event: SampleEvent) -> SampleAction {
    advance(OutputFormat::Human, event)
}

fn request_of(command: Commands) -> Request {
    match next_action(Event::Started(command)) {
        Action::Ask(request) => request,
        other => panic!("not a request: {:?}", other),
    }
}

fn failure_of(event: SampleEvent) -> Failure<&'static str, &'static str> {
    match next_action(event) {
        Action::Fail(failure) => failure,
        other => panic!("not a failure: {:?}", other),
    }
}

#[test]
fn plain_commands_become_requests() {
    assert!(matches!(
        request_of(Commands::CreateRoot),
        Request::CreateRoot
    ));
    assert!(matches!(
        request_of(Commands::CheckRoot),
        Request::CheckRoot
    ));
    assert!(matches!(
        request_of(Commands::MigrateRoot),
        Request::MigrateRoot
    ));
}

#[test]
fn flags_that_are_not_given_are_not_set() {
    let command = Commands::DeleteTenant {
        env: "dev".to_string(),
        tenant_id: 9,
        delete_contents: None,
        delete_database: None,
        delete_search: None,
        delete_storage: None,
        permanently_delete_secret: None,
    };
    match request_of(command) {
        Request::DeleteTenant(input) => assert_eq!(
            input,
            DeleteTenantInput {
                env: "dev".to_string(),
                tenant_id: 9,
                options: DeleteTenantOptions {
                    delete_contents: false,
                    delete_storage: false,
                    delete_search: false,
                    delete_database: false,
                    permanently_delete_secret: false,
                },
            }
        ),
        other => panic!("not a deletion: {:?}", other),
    }
}

#[test]
fn each_flag_sets_its_own_option() {
    let delete = |c: bool, d: bool, i: bool, s: bool, p: bool| {
        let command = Commands::DeleteTenant {
            env: "dev".to_string(),
            tenant_id: 9,
            delete_contents: Some(c),
            delete_database: Some(d),
            delete_search: Some(i),
            delete_storage: Some(s),
            permanently_delete_secret: Some(p),
        };
        match request_of(command) {
            Request::DeleteTenant(input) => input.options,
            other => panic!("not a deletion: {:?}", other),
        }
    };
    assert!(delete(true, false, false, false, false).delete_contents);
    assert!(delete(false, true, false, false, false).delete_database);
    assert!(delete(false, false, true, false, false).delete_search);
    assert!(delete(false, false, false, true, false).delete_storage);
    assert!(delete(false, false, false, false, true).permanently_delete_secret);
    assert!(!delete(false, true, true, true, true).delete_contents);
    assert!(!delete(true, false, true, true, true).delete_database);
    assert!(!delete(true, true, false, true, true).delete_search);
    assert!(!delete(true, true, true, false, true).delete_storage);
    assert!(!delete(true, true, true, true, false).permanently_delete_secret);
}

#[test]
fn tenants_are_asked_for() {
    match request_of(Commands::GetTenants { env: None }) {
        Request::GetTenants(input) => assert_eq!(input, GetTenantsInput { env: None }),
        other => panic!("not a listing: {:?}", other),
    }
    let command = Commands::GetTenant {
        env: "prod".to_string(),
        tenant_id: 5,
    };
    match request_of(command) {
        Request::GetTenant(input) => assert_eq!(
            input,
            GetTenantInput {
                env: "prod".to_string(),
                tenant_id: 5
            }
        ),
        other => panic!("not a lookup: {:?}", other),
    }
}

#[test]
fn migrations_are_not_filtered_by_name() {
    let services = vec![
        None,
        Some(TenantMigrationService::Database),
        Some(TenantMigrationService::Search),
        Some(TenantMigrationService::Storage),
    ];
    for service in services {
        let command = Commands::Migrate {
            env: Some("dev".to_string()),
            tenant_id: Some(3),
            skip_failed: true,
            service,
        };
        match request_of(command) {
            Request::MigrateTenant(input) => assert_eq!(
                input,
                MigrateTenantInput {
                    env: Some("dev".to_string()),
                    tenant_id: Some(3),
                    service,
                    name: None,
                    skip_failed: true,
                }
            ),
            other => panic!("not a migration: {:?}", other),
        }
    }
}

#[test]
fn origins_and_iam_requests() {
    let command = Commands::SetAllowedStorageCorsOrigins {
        env: "dev".to_string(),
        tenant_id: 4,
        origin: vec!["https://a".to_string(), "https://b".to_string()],
    };
    match request_of(command) {
        Request::SetTenantAllowedCorsOrigins(input) => assert_eq!(
            input,
            SetTenantAllowedCorsOriginsInput {
                env: "dev".to_string(),
                tenant_id: 4,
                origins: vec!["https://a".to_string(), "https://b".to_string()],
            }
        ),
        other => panic!("not origins: {:?}", other),
    }
    let command = Commands::MigrateTenantIam {
        env: "dev".to_string(),
        tenant_id: None,
    };
    match request_of(command) {
        Request::MigrateTenantIam(input) => assert_eq!(
            input,
            MigrateTenantIAMInput {
                env: "dev".to_string(),
                tenant_id: None
            }
        ),
        other => panic!("not a migration: {:?}", other),
    }
}

#[test]
fn a_tenant_is_created_from_a_file() {
    let file = PathBuf::from("tenant.json");
    let command = Commands::CreateTenant { file: file.clone() };
    assert!(matches!(
        next_action(Event::Started(command)),
        Action::ReadFile(path) if path == file
    ));
    let text = r#"{
        "id": "00000000-0000-0000-0000-00000000002a",
        "name": "Acme",
        "env": "dev",
        "db_name": "acme-db",
        "db_role_name": "acme-role",
        "db_iam_user": true,
        "storage_bucket_name": "acme-bucket",
        "storage_cors_origins": ["https://a"],
        "search_index_name": "acme-index"
    }"#;
    match next_action(Event::FileRead(Ok(text.to_string()))) {
        Action::Ask(Request::CreateTenant(config)) => {
            assert_eq!(config.id.as_u128(), 42);
            assert_eq!(config.name, "Acme");
            assert_eq!(config.env, "dev");
            assert_eq!(config.db_name, "acme-db");
            assert_eq!(config.db_role_name, "acme-role");
            assert_eq!(config.db_secret_name, None);
            assert!(config.db_iam_user);
            assert_eq!(config.storage_bucket_name, "acme-bucket");
            assert_eq!(config.storage_cors_origins, vec!["https://a"]);
            assert_eq!(config.storage_s3_queue_arn, None);
            assert_eq!(config.search_index_name, "acme-index");
            assert_eq!(config.event_queue_url, None);
        }
        other => panic!("not a creation: {:?}", other),
    }
}

#[test]
fn a_parsed_configuration_is_asked_for() {
    let config = docbox_management_interface::CreateTenantInput {
        id: uuid::Uuid::from_u128(1),
        name: "one".to_string(),
        env: "dev".to_string(),
        db_name: "db".to_string(),
        db_role_name: "role".to_string(),
        db_secret_name: None,
        db_iam_user: false,
        storage_bucket_name: "bucket".to_string(),
        storage_cors_origins: vec![],
        storage_s3_queue_arn: None,
        search_index_name: "index".to_string(),
        event_queue_url: None,
    };
    let action: SampleAction = create_tenant(Ok(config));
    assert!(matches!(
        action,
        Action::Ask(Request::CreateTenant(config)) if config.name == "one"
    ));
    let error = serde_json::from_str::<bool>("?").unwrap_err();
    let action: SampleAction = create_tenant(Err(error));
    assert!(matches!(
        action,
        Action::Fail(Failure::ParseTenantConfig(_))
    ));
}

#[test]
fn a_file_that_describes_no_tenant() {
    for text in vec!["", "{}", "{\"name\": \"Acme\"}"] {
        let failure = failure_of(Event::FileRead(Ok(text.to_string())));
        assert!(matches!(&failure, Failure::ParseTenantConfig(_)));
        assert_eq!(failure.context(), Some("failed to parse tenant config"));
    }
}

#[test]
fn failures_have_their_context() {
    let failure = failure_of(Event::FileRead(Err("denied")));
    assert!(matches!(failure, Failure::ReadTenantFile("denied")));
    assert_eq!(failure.context(), Some("failed to read tenant file"));

    let failure = failure_of(Event::Answered(Err("unreachable")));
    assert!(matches!(failure, Failure::Service("unreachable")));
    assert_eq!(failure.context(), None);

    let failure = failure_of(Event::Answered(Ok(Reply::Tenant { tenant: None })));
    assert!(matches!(failure, Failure::TenantNotFound));
    assert_eq!(failure.context(), Some("tenant not found"));
}

#[test]
fn a_reply_is_printed_in_the_format() {
    match next_action(Event::Answered(Ok(Reply::RootMigrated))) {
        Action::Print(blocks) => {
            assert_eq!(blocks.len(), 1);
            assert!(matches!(&blocks[0], Block::Text(text) if text == "Migrations applied"));
        }
        other => panic!("not output: {:?}", other),
    }
    let event: SampleEvent = Event::Answered(Ok(Reply::RootMigrated));
    match advance(OutputFormat::Json, event) {
        Action::Print(blocks) => {
            assert_eq!(blocks.len(), 1);
            assert!(matches!(&blocks[0], Block::Text(text) if text == "{}"));
        }
        other => panic!("not output: {:?}", other),
    }
}

#[test]
fn arguments_are_sorted() {
    let setup = Args {
        command: Commands::CheckRoot,
        aws_profile: Some("work".to_string()),
        function_name: "management".to_string(),
        function_qualifier: Some("live".to_string()),
        function_tenant_id: None,
        format: OutputFormat::Json,
    }
    .into_setup();
    assert_eq!(setup.aws.profile_name, Some("work".to_string()));
    assert_eq!(setup.aws.fallback_region, "ap-southeast-2");
    assert_eq!(setup.aws.behavior_version, SdkBehavior::V2026_01_12);
    assert_eq!(setup.function.name, "management");
    assert_eq!(setup.function.qualifier, Some("live".to_string()));
    assert_eq!(setup.function.tenant_id, None);
    assert_eq!(setup.command, Commands::CheckRoot);
    assert_eq!(setup.format, OutputFormat::Json);
}

#[test]
fn no_profile_leaves_the_environment_to_decide() {
    let setup = Args {
        command: Commands::CreateRoot,
        aws_profile: None,
        function_name: "management".to_string(),
        function_qualifier: None,
        function_tenant_id: Some("t".to_string()),
        format: OutputFormat::Human,
    }
    .into_setup();
    assert_eq!(setup.aws.profile_name, None);
    assert_eq!(setup.aws.fallback_region, "ap-southeast-2");
    assert_eq!(setup.aws.behavior_version, SdkBehavior::V2026_01_12);
    assert_eq!(setup.function.tenant_id, Some("t".to_string()));
}

#[test]
fn a_profile_changes_only_the_profile_name() {
    let base = aws_config();
    let work = aws_config_with_profile("work".to_string());
    let home = aws_config_with_profile("home".to_string());
    assert_eq!(base.profile_name, None);
    assert_eq!(work.profile_name, Some("work".to_string()));
    assert_eq!(home.profile_name, Some("home".to_string()));
    for settings in vec![base, work, home] {
        assert_eq!(settings.fallback_region, "ap-southeast-2");
        assert_eq!(settings.behavior_version, SdkBehavior::V2026_01_12);
    }
}
