use docbox_lambda_cli::cli::OutputFormat;
use docbox_lambda_cli::interface::{
    FailedTenantMigration, ManagedTenant, ManagementTenantTarget, Reply,
};
use docbox_lambda_cli::report::{failure_report, report, Block};
use docbox_lambda_cli::table::{details_table, outcomes_table, tenants_table};

const ACME: u128 = 0x0123_4567_89ab_cdef_0123_4567_89ab_cdef;

fn sample_tenant(id: u128, name: &str) -> ManagedTenant {
    ManagedTenant {
        env: "Production".to_string(),
        id,
        name: name.to_string(),
        db_name: "acme-db".to_string(),
        db_secret_name: Some("acme/secret".to_string()),
        db_iam_user_name: None,
        s3_name: "acme-bucket".to_string(),
        os_index_name: "acme-index".to_string(),
        event_queue_url: None,
    }
}

fn sample_target(id: u128, name: &str) -> ManagementTenantTarget {
    ManagementTenantTarget {
        id,
        name: name.to_string(),
        env: "dev".to_string(),
    }
}

fn header_of(table: &comfy_table::Table) -> Option<Vec<String>> {
    table
        .header()
        .map(|row| row.cell_iter().map(|cell| cell.content()).collect())
}

fn rows_of(table: &comfy_table::Table) -> Vec<Vec<String>> {
    table
        .row_iter()
        .map(|row| row.cell_iter().map(|cell| cell.content()).collect())
        .collect()
}

fn only_text(output: Result<Option<Vec<Block>>, serde_json::Error>) -> String {
    let mut blocks = output.unwrap().unwrap();
    assert_eq!(blocks.len(), 1);
    match blocks.remove(0) {
        Block::Text(text) => text,
        other => panic!("not a text: {:?}", other),
    }
}

fn only_table(output: Result<Option<Vec<Block>>, serde_json::Error>) -> comfy_table::Table {
    let mut blocks = output.unwrap().unwrap();
    assert_eq!(blocks.len(), 1);
    match blocks.remove(0) {
        Block::Table(table) => table,
        other => panic!("not a table: {:?}", other),
    }
}

#[test]
fn texts_in_the_human_format() {
    let human = OutputFormat::Human;
    assert_eq!(
        only_text(report(human, Reply::RootCreated)),
        "successfully created root"
    );
    assert_eq!(
        only_text(report(human, Reply::RootChecked { initialized: true })),
        "root is initialized"
    );
    assert_eq!(
        only_text(report(human, Reply::RootChecked { initialized: false })),
        "root is not initialized"
    );
    assert_eq!(
        only_text(report(human, Reply::TenantDeleted)),
        "deleted tenant"
    );
    assert_eq!(
        only_text(report(human, Reply::RootMigrated)),
        "Migrations applied"
    );
    assert_eq!(
        only_text(report(human, Reply::CorsOriginsSet)),
        "updated tenant allowed origins"
    );
}

#[test]
fn empty_objects_in_the_json_format() {
    let json = OutputFormat::Json;
    assert_eq!(only_text(report(json, Reply::RootCreated)), "{}");
    assert_eq!(only_text(report(json, Reply::RootMigrated)), "{}");
    assert_eq!(only_text(report(json, Reply::CorsOriginsSet)), "{}");
}

#[test]
fn the_document_of_the_root() {
    let json = OutputFormat::Json;
    assert_eq!(
        only_text(report(json, Reply::RootChecked { initialized: true })),
        "{\n  \"initialized\": true\n}"
    );
    assert_eq!(
        only_text(report(json, Reply::RootChecked { initialized: false })),
        "{\n  \"initialized\": false\n}"
    );
}

#[test]
fn the_document_of_a_deleted_tenant() {
    assert_eq!(
        only_text(report(OutputFormat::Json, Reply::TenantDeleted)),
        "{}"
    );
}

#[test]
fn the_document_of_a_tenant() {
    let expected = vec![
        "{",
        "  \"env\": \"Production\",",
        "  \"id\": \"01234567-89ab-cdef-0123-456789abcdef\",",
        "  \"name\": \"Ac\\\"me\",",
        "  \"db_name\": \"acme-db\",",
        "  \"db_secret_name\": \"acme/secret\",",
        "  \"db_iam_user_name\": null,",
        "  \"s3_name\": \"acme-bucket\",",
        "  \"os_index_name\": \"acme-index\",",
        "  \"event_queue_url\": null",
        "}",
    ]
    .join("\n");
    let created = Reply::TenantCreated {
        tenant: sample_tenant(ACME, "Ac\"me"),
    };
    assert_eq!(only_text(report(OutputFormat::Json, created)), expected);
    let found = Reply::Tenant {
        tenant: Some(sample_tenant(ACME, "Ac\"me")),
    };
    assert_eq!(only_text(report(OutputFormat::Json, found)), expected);
}

#[test]
fn the_document_of_some_tenants() {
    let none = Reply::Tenants { tenants: vec![] };
    assert_eq!(
        only_text(report(OutputFormat::Json, none)),
        "{\n  \"tenants\": []\n}"
    );
    let one = |id: &str, name: &str, comma: &str| {
        vec![
            "    {".to_string(),
            "      \"env\": \"Production\",".to_string(),
            format!("      \"id\": \"{}\",", id),
            format!("      \"name\": \"{}\",", name),
            "      \"db_name\": \"acme-db\",".to_string(),
            "      \"db_secret_name\": \"acme/secret\",".to_string(),
            "      \"db_iam_user_name\": null,".to_string(),
            "      \"s3_name\": \"acme-bucket\",".to_string(),
            "      \"os_index_name\": \"acme-index\",".to_string(),
            "      \"event_queue_url\": null".to_string(),
            format!("    }}{}", comma),
        ]
        .join("\n")
    };
    let some = Reply::Tenants {
        tenants: vec![sample_tenant(ACME, "Acme"), sample_tenant(1, "One")],
    };
    assert_eq!(
        only_text(report(OutputFormat::Json, some)),
        vec![
            "{".to_string(),
            "  \"tenants\": [".to_string(),
            one("01234567-89ab-cdef-0123-456789abcdef", "Acme", ","),
            one("00000000-0000-0000-0000-000000000001", "One", ""),
            "  ]".to_string(),
            "}".to_string(),
        ]
        .join("\n")
    );
}

#[test]
fn the_document_of_a_migration() {
    let reply = Reply::TenantsMigrated {
        applied_tenants: vec![sample_target(1, "one"), sample_target(2, "two")],
        failed_tenants: vec![FailedTenantMigration {
            target: sample_target(3, "three"),
            error: "no\nway".to_string(),
        }],
    };
    let expected = vec![
        "{",
        "  \"applied_tenants\": [",
        "    {",
        "      \"id\": \"00000000-0000-0000-0000-000000000001\",",
        "      \"name\": \"one\",",
        "      \"env\": \"dev\"",
        "    },",
        "    {",
        "      \"id\": \"00000000-0000-0000-0000-000000000002\",",
        "      \"name\": \"two\",",
        "      \"env\": \"dev\"",
        "    }",
        "  ],",
        "  \"failed_tenants\": [",
        "    {",
        "      \"target\": {",
        "        \"id\": \"00000000-0000-0000-0000-000000000003\",",
        "        \"name\": \"three\",",
        "        \"env\": \"dev\"",
        "      },",
        "      \"error\": \"no\\nway\"",
        "    }",
        "  ]",
        "}",
    ]
    .join("\n");
    assert_eq!(only_text(report(OutputFormat::Json, reply)), expected);
}

#[test]
fn the_document_of_a_migration_of_nothing() {
    let reply = Reply::TenantsMigrated {
        applied_tenants: vec![],
        failed_tenants: vec![],
    };
    assert_eq!(
        only_text(report(OutputFormat::Json, reply)),
        "{\n  \"applied_tenants\": [],\n  \"failed_tenants\": []\n}"
    );
}

#[test]
fn the_document_of_an_iam_migration() {
    let reply = Reply::TenantsMigratedToIam {
        applied_tenants: vec![sample_target(10, "ten")],
    };
    let expected = vec![
        "{",
        "  \"applied_tenants\": [",
        "    {",
        "      \"id\": \"00000000-0000-0000-0000-00000000000a\",",
        "      \"name\": \"ten\",",
        "      \"env\": \"dev\"",
        "    }",
        "  ]",
        "}",
    ]
    .join("\n");
    assert_eq!(only_text(report(OutputFormat::Json, reply)), expected);
}

#[test]
fn different_tenants_have_different_documents() {
    let document = |db_secret_name: Option<String>| {
        let mut tenant = sample_tenant(1, "a");
        tenant.db_secret_name = db_secret_name;
        only_text(report(
            OutputFormat::Json,
            Reply::TenantCreated { tenant },
        ))
    };
    let documents = vec![
        document(None),
        document(Some(String::new())),
        document(Some("null".to_string())),
        document(Some("\",\n".to_string())),
    ];
    for i in 0..documents.len() {
        for j in 0..i {
            assert_ne!(documents[i], documents[j]);
        }
    }
}

#[test]
fn a_missing_tenant_has_no_report() {
    let human = report(OutputFormat::Human, Reply::Tenant { tenant: None });
    assert!(human.unwrap().is_none());
    let json = report(OutputFormat::Json, Reply::Tenant { tenant: None });
    assert!(json.unwrap().is_none());
}

#[test]
fn a_created_tenant_is_announced_and_shown() {
    let reply = Reply::TenantCreated {
        tenant: sample_tenant(ACME, "Acme"),
    };
    let blocks = report(OutputFormat::Human, reply).unwrap().unwrap();
    assert_eq!(blocks.len(), 2);
    assert!(matches!(&blocks[0], Block::Text(text) if text == "tenant created successfully"));
    match &blocks[1] {
        Block::Table(table) => {
            assert_eq!(
                rows_of(table),
                vec![vec![
                    "01234567-89ab-cdef-0123-456789abcdef",
                    "Acme",
                    "Production"
                ]]
            );
        }
        other => panic!("not a table: {:?}", other),
    }
}

#[test]
fn tenants_are_listed_in_order() {
    let tenants = vec![sample_tenant(ACME, "Acme"), sample_tenant(0, "Zero")];
    let table = only_table(report(OutputFormat::Human, Reply::Tenants { tenants }));
    assert_eq!(
        header_of(&table),
        Some(vec!["ID".to_string(), "Name".to_string(), "Env".to_string()])
    );
    assert_eq!(
        rows_of(&table),
        vec![
            vec!["01234567-89ab-cdef-0123-456789abcdef", "Acme", "Production"],
            vec!["00000000-0000-0000-0000-000000000000", "Zero", "Production"],
        ]
    );
}

#[test]
fn no_tenants_make_an_empty_table() {
    let table = tenants_table(&vec![]);
    assert_eq!(header_of(&table).unwrap().len(), 3);
    assert!(table.is_empty());
}

#[test]
fn tables_have_the_style_of_the_program() {
    let mut table = tenants_table(&vec![sample_tenant(1, "a")]);
    assert_eq!(table.current_style_as_preset(), "││──╞═╪╡┆╌┼├┤┬┴╭╮╰╯");
    assert!(matches!(
        table.content_arrangement(),
        comfy_table::ContentArrangement::Dynamic
    ));
}

#[test]
fn a_table_is_drawn_with_round_corners() {
    let mut table = outcomes_table(&vec![sample_target(u128::MAX, "Max")], &vec![]);
    table.force_no_tty();
    let expected = vec![
        "╭──────────────────────────────────────┬──────┬─────┬─────────╮",
        "│ ID                                   ┆ Name ┆ Env ┆ Outcome │",
        "╞══════════════════════════════════════╪══════╪═════╪═════════╡",
        "│ ffffffff-ffff-ffff-ffff-ffffffffffff ┆ Max  ┆ dev ┆ Success │",
        "╰──────────────────────────────────────┴──────┴─────┴─────────╯",
    ];
    assert_eq!(table.to_string(), expected.join("\n"));
}

#[test]
fn details_of_a_tenant() {
    let table = details_table(&sample_tenant(ACME, "Acme"));
    assert_eq!(header_of(&table), None);
    assert_eq!(
        rows_of(&table),
        vec![
            vec!["ID", "01234567-89ab-cdef-0123-456789abcdef"],
            vec!["Name", "Acme"],
            vec!["Env", "Production"],
            vec!["DB Name", "acme-db"],
            vec!["DB Secret Name", "acme/secret"],
            vec!["DB IAM User Name", "-- None --"],
            vec!["Storage Bucket Name", "acme-bucket"],
            vec!["Search Index Name", "acme-index"],
            vec!["Event Queue URL", "-- None --"],
        ]
    );
}

#[test]
fn a_found_tenant_is_shown_in_detail() {
    let reply = Reply::Tenant {
        tenant: Some(sample_tenant(7, "Seven")),
    };
    let table = only_table(report(OutputFormat::Human, reply));
    let rows = rows_of(&table);
    assert_eq!(rows.len(), 9);
    assert_eq!(rows[0][1], "00000000-0000-0000-0000-000000000007");
}

#[test]
fn failed_migrations_follow_the_applied_ones() {
    let reply = Reply::TenantsMigrated {
        applied_tenants: vec![sample_target(1, "one"), sample_target(2, "two")],
        failed_tenants: vec![FailedTenantMigration {
            target: sample_target(3, "three"),
            error: "relation\nexists".to_string(),
        }],
    };
    let table = only_table(report(OutputFormat::Human, reply));
    assert_eq!(
        header_of(&table).unwrap(),
        vec!["ID", "Name", "Env", "Outcome"]
    );
    assert_eq!(
        rows_of(&table),
        vec![
            vec!["00000000-0000-0000-0000-000000000001", "one", "dev", "Success"],
            vec!["00000000-0000-0000-0000-000000000002", "two", "dev", "Success"],
            vec![
                "00000000-0000-0000-0000-000000000003",
                "three",
                "dev",
                "Failed: relation\nexists"
            ],
        ]
    );
}

#[test]
fn iam_migrations_are_announced_and_shown() {
    let reply = Reply::TenantsMigratedToIam {
        applied_tenants: vec![sample_target(1, "one")],
    };
    let blocks = report(OutputFormat::Human, reply).unwrap().unwrap();
    assert_eq!(blocks.len(), 2);
    assert!(matches!(
        &blocks[0],
        Block::Text(text) if text == "migrated tenants to IAM based authentication"
    ));
    match &blocks[1] {
        Block::Table(table) => assert_eq!(
            rows_of(table),
            vec![vec!["00000000-0000-0000-0000-000000000001", "one", "dev", "Success"]]
        ),
        other => panic!("not a table: {:?}", other),
    }
}

#[test]
fn different_ids_have_different_rows() {
    let table = tenants_table(&vec![sample_tenant(1, "same"), sample_tenant(2, "same")]);
    let rows = rows_of(&table);
    assert_ne!(rows[0], rows[1]);
}

#[test]
fn a_failure_prints_nothing_for_a_person() {
    assert_eq!(failure_report(OutputFormat::Human, "boom").unwrap(), None);
}

#[test]
fn a_failure_is_an_object_in_the_json_format() {
    assert_eq!(
        failure_report(OutputFormat::Json, "tenant not found").unwrap(),
        Some("{\n  \"error\": \"tenant not found\"\n}".to_string())
    );
}

#[test]
fn the_text_of_a_failure_is_escaped() {
    let text = "\"quoted\" \\ \u{8}\t\n\u{c}\r\u{0}\u{1f}\u{7f} é";
    let expected =
        "{\n  \"error\": \"\\\"quoted\\\" \\\\ \\b\\t\\n\\f\\r\\u0000\\u001f\u{7f} é\"\n}";
    assert_eq!(
        failure_report(OutputFormat::Json, text).unwrap(),
        Some(expected.to_string())
    );
}

#[test]
fn the_document_of_a_failure_reads_back() {
    let text = "a \"b\"\nc\u{1}\\";
    let document = failure_report(OutputFormat::Json, text).unwrap().unwrap();
    let value: serde_json::Value = serde_json::from_str(&document).unwrap();
    assert_eq!(value["error"], serde_json::Value::String(text.to_string()));
}
