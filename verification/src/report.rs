//! What is printed of the outcome of a command.
use crate::cli::OutputFormat;
use crate::documents::{
    deleted_document, deleted_json, iam_document, iam_document_is_unique, iam_json,
    outcomes_document, outcomes_document_is_unique, outcomes_json, root_document,
    root_document_is_unique, root_json, same_failure, same_target, same_tenant,
    tenant_document_is_unique, tenant_json, tenant_object, tenants_document,
    tenants_document_is_unique, tenants_json,
};
use crate::interface::{FailedTenantMigration, ManagedTenant, ManagementTenantTarget, Reply};
use crate::json::{
    has_line, json_member, json_object, json_string, lemma_object_holds_members,
    lemma_objects_are_delimited, lemma_string_members, pretty_object,
};
use crate::table::{
    details_table, details_view, each_outcome_is_its_own, every_tenant_is_listed, outcomes_table,
    outcomes_view, table_header, table_rows, table_view, tenants_table, tenants_view, TableView,
};
use crate::tenant_id::hyphenated;
use vstd::prelude::*;

verus! {

/// A piece of output, followed by a line break.
#[derive(Debug)]
pub enum Block {
    /// A text
    Text(String),
    /// A table
    Table(comfy_table::Table),
}

/// What is shown of a piece of output.
pub enum BlockView {
    /// A text
    Text(Seq<char>),
    /// A table
    Table(TableView),
}

impl View for Block {
    type V = BlockView;

    open spec fn view(&self) -> BlockView {
        match *self {
            Block::Text(text) => BlockView::Text(text@),
            Block::Table(table) => BlockView::Table(table_view(table)),
        }
    }
}

/// What is shown of some pieces of output.
pub open spec fn shown(blocks: Seq<Block>) -> Seq<BlockView> {
    blocks.map_values(|block: Block| block@)
}

/// What a person is shown of a reply. Nothing can be shown of a tenant that was not found.
pub open spec fn human_report(reply: Reply) -> Option<Seq<BlockView>> {
    match reply {
        Reply::RootCreated => Some(seq![BlockView::Text("successfully created root"@)]),
        Reply::RootChecked { initialized: true } => Some(
            seq![BlockView::Text("root is initialized"@)],
        ),
        Reply::RootChecked { initialized: false } => Some(
            seq![BlockView::Text("root is not initialized"@)],
        ),
        Reply::TenantCreated { tenant } => Some(
            seq![
                BlockView::Text("tenant created successfully"@),
                BlockView::Table(tenants_view(seq![tenant])),
            ],
        ),
        Reply::TenantDeleted => Some(seq![BlockView::Text("deleted tenant"@)]),
        Reply::Tenants { tenants } => Some(seq![BlockView::Table(tenants_view(tenants@))]),
        Reply::Tenant { tenant: None } => None,
        Reply::Tenant { tenant: Some(tenant) } => Some(
            seq![BlockView::Table(details_view(tenant))],
        ),
        Reply::TenantsMigrated { applied_tenants, failed_tenants } => Some(
            seq![BlockView::Table(outcomes_view(applied_tenants@, failed_tenants@))],
        ),
        Reply::RootMigrated => Some(seq![BlockView::Text("Migrations applied"@)]),
        Reply::CorsOriginsSet => Some(seq![BlockView::Text("updated tenant allowed origins"@)]),
        Reply::TenantsMigratedToIam { applied_tenants } => Some(
            seq![
                BlockView::Text("migrated tenants to IAM based authentication"@),
                BlockView::Table(outcomes_view(applied_tenants@, Seq::empty())),
            ],
        ),
    }
}

/// What a program is shown of a reply: one JSON document. Nothing can be shown of a tenant that was
/// not found.
pub open spec fn json_report(reply: Reply) -> Option<Seq<char>> {
    match reply {
        Reply::RootCreated | Reply::RootMigrated | Reply::CorsOriginsSet => Some("{}"@),
        Reply::RootChecked { initialized } => Some(root_document(initialized)),
        Reply::TenantCreated { tenant } => Some(tenant_object(tenant, 0)),
        Reply::TenantDeleted => Some(deleted_document()),
        Reply::Tenants { tenants } => Some(tenants_document(tenants@)),
        Reply::Tenant { tenant: None } => None,
        Reply::Tenant { tenant: Some(tenant) } => Some(tenant_object(tenant, 0)),
        Reply::TenantsMigrated { applied_tenants, failed_tenants } => Some(
            outcomes_document(applied_tenants@, failed_tenants@),
        ),
        Reply::TenantsMigratedToIam { applied_tenants } => Some(iam_document(applied_tenants@)),
    }
}

/// What is shown of a reply in a format, or nothing where a tenant was not found.
pub open spec fn report_view(format: OutputFormat, reply: Reply) -> Option<Seq<BlockView>> {
    match format {
        OutputFormat::Human => human_report(reply),
        OutputFormat::Json => match json_report(reply) {
            Some(document) => Some(seq![BlockView::Text(document)]),
            None => None,
        },
    }
}

/// One text.
fn say(text: &str) -> (blocks: Vec<Block>)
    ensures
        shown(blocks@) == seq![BlockView::Text(text@)],
{
    let blocks = vec![Block::Text(text.to_string())];
    assert(shown(blocks@) =~= seq![BlockView::Text(text@)]);
    blocks
}

/// One table.
fn show(table: comfy_table::Table) -> (blocks: Vec<Block>)
    ensures
        shown(blocks@) == seq![BlockView::Table(table_view(table))],
{
    let blocks = vec![Block::Table(table)];
    assert(shown(blocks@) =~= seq![BlockView::Table(table_view(table))]);
    blocks
}

/// A text, then a table.
fn announce(text: &str, table: comfy_table::Table) -> (blocks: Vec<Block>)
    ensures
        shown(blocks@) == seq![BlockView::Text(text@), BlockView::Table(table_view(table))],
{
    let blocks = vec![Block::Text(text.to_string()), Block::Table(table)];
    assert(shown(blocks@) =~= seq![BlockView::Text(text@), BlockView::Table(table_view(table))]);
    blocks
}

/// What a person is shown of a reply, or nothing where a tenant was not found.
fn report_to_person(reply: Reply) -> (output: Option<Vec<Block>>)
    ensures
        output is Some <==> human_report(reply) is Some,
        output is Some ==> shown(output->0@) == human_report(reply)->0,
{
    match reply {
        Reply::RootCreated => Some(say("successfully created root")),
        Reply::RootChecked { initialized } => if initialized {
            Some(say("root is initialized"))
        } else {
            Some(say("root is not initialized"))
        },
        Reply::TenantCreated { tenant } => {
            let tenants = vec![tenant];
            assert(tenants@ =~= seq![tenant]);
            Some(announce("tenant created successfully", tenants_table(&tenants)))
        },
        Reply::TenantDeleted => Some(say("deleted tenant")),
        Reply::Tenants { tenants } => Some(show(tenants_table(&tenants))),
        Reply::Tenant { tenant: None } => None,
        Reply::Tenant { tenant: Some(tenant) } => Some(show(details_table(&tenant))),
        Reply::TenantsMigrated { applied_tenants, failed_tenants } => {
            Some(show(outcomes_table(&applied_tenants, &failed_tenants)))
        },
        Reply::RootMigrated => Some(say("Migrations applied")),
        Reply::CorsOriginsSet => Some(say("updated tenant allowed origins")),
        Reply::TenantsMigratedToIam { applied_tenants } => {
            let table = outcomes_table(&applied_tenants, &Vec::new());
            Some(announce("migrated tenants to IAM based authentication", table))
        },
    }
}

/// What a program is shown of a reply, or nothing where a tenant was not found.
fn report_to_program(reply: Reply) -> (output: Result<Option<String>, serde_json::Error>)
    ensures
        output is Ok,
        output->Ok_0 is Some <==> json_report(reply) is Some,
        output->Ok_0 is Some ==> output->Ok_0->0@ == json_report(reply)->0,
{
    let document = match reply {
        Reply::RootCreated | Reply::RootMigrated | Reply::CorsOriginsSet => Ok("{}".to_string()),
        Reply::RootChecked { initialized } => root_json(initialized),
        Reply::TenantCreated { tenant } => tenant_json(&tenant),
        Reply::TenantDeleted => deleted_json(),
        Reply::Tenants { tenants } => tenants_json(&tenants),
        Reply::Tenant { tenant: None } => {
            return Ok(None);
        },
        Reply::Tenant { tenant: Some(tenant) } => tenant_json(&tenant),
        Reply::TenantsMigrated { applied_tenants, failed_tenants } => {
            outcomes_json(&applied_tenants, &failed_tenants)
        },
        Reply::TenantsMigratedToIam { applied_tenants } => iam_json(&applied_tenants),
    };
    match document {
        Ok(text) => Ok(Some(text)),
        Err(error) => Err(error),
    }
}

/// What is printed of a reply in a format, or nothing where a tenant was not found.
pub fn report(format: OutputFormat, reply: Reply) -> (output: Result<
    Option<Vec<Block>>,
    serde_json::Error,
>)
    ensures
        output is Ok,
        output->Ok_0 is Some <==> report_view(format, reply) is Some,
        output->Ok_0 is Some ==> shown(output->Ok_0->0@) == report_view(format, reply)->0,
{
    match format {
        OutputFormat::Human => Ok(report_to_person(reply)),
        OutputFormat::Json => match report_to_program(reply) {
            Ok(Some(document)) => Ok(Some(say(document.as_str()))),
            Ok(None) => Ok(None),
            Err(error) => Err(error),
        },
    }
}

/// The document of a failure.
pub open spec fn failure_document(error: Seq<char>) -> Seq<char> {
    json_object(seq![json_member("error"@, json_string(error))], 0)
}

/// What is printed of a failure: nothing in the human format, where the program ends with the error
/// itself, and an object with the text of the error in the JSON format.
pub fn failure_report(format: OutputFormat, error: &str) -> (output: Result<
    Option<String>,
    serde_json::Error,
>)
    ensures
        output is Ok,
        format == OutputFormat::Human ==> output->Ok_0 is None,
        format == OutputFormat::Json ==> output->Ok_0 is Some && output->Ok_0->0@
            == failure_document(error@),
{
    match format {
        OutputFormat::Human => Ok(None),
        OutputFormat::Json => match pretty_object("error", error) {
            Ok(text) => Ok(Some(text)),
            Err(error) => Err(error),
        },
    }
}

/// In the JSON format what is printed is one object, never a table.
pub proof fn json_output_is_one_object(reply: Reply)
    ensures
        report_view(OutputFormat::Json, reply) matches Some(blocks) ==> {
            &&& blocks.len() == 1
            &&& blocks[0] matches BlockView::Text(text)
            &&& text.len() >= 2
            &&& text[0] == '{'
            &&& text.last() == '}'
        },
{
    reveal_strlit("{}");
}

/// Whether a reply can be shown does not depend on the format: only a tenant that was not found
/// cannot.
pub proof fn only_a_missing_tenant_fails(format: OutputFormat, reply: Reply)
    ensures
        report_view(format, reply) is None <==> reply == (Reply::Tenant { tenant: None }),
{
}

/// The document that is printed of a failure determines the text of the error.
pub proof fn failure_document_is_unique(a: Seq<char>, b: Seq<char>)
    requires
        failure_document(a) == failure_document(b),
    ensures
        a == b,
{
    let (x, y) = (json_member("error"@, json_string(a)), json_member("error"@, json_string(b)));
    lemma_string_members("error"@, a, b);
    lemma_objects_are_delimited(seq![x], seq![y], 0);
    assert(seq![x][0] == seq![y][0]);
}

/// A piece of output is what it is viewed as.
proof fn lemma_block_is_as_viewed(blocks: Seq<Block>)
    ensures
        shown(blocks).len() == blocks.len(),
        forall|i: int| 0 <= i < blocks.len() ==> shown(blocks)[i] == (#[trigger] blocks[i])@,
{
}

/// A person who asked for tenants is shown one table, with a row for each of them in their order.
pub proof fn person_is_shown_every_tenant(
    tenants: Vec<ManagedTenant>,
    output: Result<Option<Vec<Block>>, serde_json::Error>,
)
    requires
        call_ensures(report, (OutputFormat::Human, Reply::Tenants { tenants }), output),
    ensures
        output is Ok && output->Ok_0 is Some,
        output->Ok_0->0@.len() == 1,
        output->Ok_0->0@[0] matches Block::Table(table) && {
            &&& table_header(table) == Some(seq!["ID"@, "Name"@, "Env"@])
            &&& table_rows(table).len() == tenants@.len()
            &&& forall|i: int|
                0 <= i < tenants@.len() ==> #[trigger] table_rows(table)[i] == seq![
                    hyphenated(tenants@[i].id),
                    tenants@[i].name@,
                    tenants@[i].env@,
                ]
        },
{
    let blocks = output->Ok_0->0@;
    lemma_block_is_as_viewed(blocks);
    every_tenant_is_listed(tenants@);
    assert(blocks[0]@ == BlockView::Table(tenants_view(tenants@)));
    let rows = tenants_view(tenants@).rows;
    assert forall|i: int| 0 <= i < tenants@.len() implies #[trigger] rows[i] == seq![
        hyphenated(tenants@[i].id),
        tenants@[i].name@,
        tenants@[i].env@,
    ] by {
        assert(rows[i] =~= seq![
            hyphenated(tenants@[i].id),
            tenants@[i].name@,
            tenants@[i].env@,
        ]);
    }
}

/// A person who created a tenant is told so, and shown that tenant and no other.
pub proof fn person_is_shown_the_new_tenant(
    tenant: ManagedTenant,
    output: Result<Option<Vec<Block>>, serde_json::Error>,
)
    requires
        call_ensures(report, (OutputFormat::Human, Reply::TenantCreated { tenant }), output),
    ensures
        output is Ok && output->Ok_0 is Some,
        output->Ok_0->0@.len() == 2,
        output->Ok_0->0@[0] matches Block::Text(text) && text@ == "tenant created successfully"@,
        output->Ok_0->0@[1] matches Block::Table(table) && {
            &&& table_header(table) == Some(seq!["ID"@, "Name"@, "Env"@])
            &&& table_rows(table).len() == 1
            &&& table_rows(table)[0] == seq![hyphenated(tenant.id), tenant.name@, tenant.env@]
        },
{
    let blocks = output->Ok_0->0@;
    lemma_block_is_as_viewed(blocks);
    every_tenant_is_listed(seq![tenant]);
    assert(blocks[0]@ is Text);
    assert(blocks[1]@ == BlockView::Table(tenants_view(seq![tenant])));
    assert(seq![tenant][0] == tenant);
    assert(tenants_view(seq![tenant]).rows[0] =~= seq![
        hyphenated(tenant.id),
        tenant.name@,
        tenant.env@,
    ]);
}

/// A person who asked for a tenant is shown its details, and nothing where there is no such tenant.
pub proof fn person_is_shown_the_tenant(
    tenant: Option<ManagedTenant>,
    output: Result<Option<Vec<Block>>, serde_json::Error>,
)
    requires
        call_ensures(report, (OutputFormat::Human, Reply::Tenant { tenant }), output),
    ensures
        output is Ok,
        output->Ok_0 is Some <==> tenant is Some,
        tenant matches Some(tenant) ==> output->Ok_0->0@.len() == 1 && (
        output->Ok_0->0@[0] matches Block::Table(table) && table_header(table) is None
            && table_rows(table) == details_view(tenant).rows),
{
    if tenant is Some {
        lemma_block_is_as_viewed(output->Ok_0->0@);
        assert(output->Ok_0->0@[0]@ is Table);
    }
}

/// A person who ran a migration is shown one table, with a row for each tenant and its own outcome.
pub proof fn person_is_shown_every_outcome(
    applied_tenants: Vec<ManagementTenantTarget>,
    failed_tenants: Vec<FailedTenantMigration>,
    output: Result<Option<Vec<Block>>, serde_json::Error>,
)
    requires
        call_ensures(
            report,
            (OutputFormat::Human, Reply::TenantsMigrated { applied_tenants, failed_tenants }),
            output,
        ),
    ensures
        output is Ok && output->Ok_0 is Some,
        output->Ok_0->0@.len() == 1,
        output->Ok_0->0@[0] matches Block::Table(table) && {
            &&& table_header(table) == Some(seq!["ID"@, "Name"@, "Env"@, "Outcome"@])
            &&& table_rows(table).len() == applied_tenants@.len() + failed_tenants@.len()
            &&& forall|i: int|
                0 <= i < applied_tenants@.len() ==> #[trigger] table_rows(table)[i] == seq![
                    hyphenated(applied_tenants@[i].id),
                    applied_tenants@[i].name@,
                    applied_tenants@[i].env@,
                    "Success"@,
                ]
            &&& forall|i: int|
                0 <= i < failed_tenants@.len() ==> #[trigger] table_rows(
                    table,
                )[applied_tenants@.len() + i] == seq![
                    hyphenated(failed_tenants@[i].target.id),
                    failed_tenants@[i].target.name@,
                    failed_tenants@[i].target.env@,
                    "Failed: "@ + failed_tenants@[i].error@,
                ]
        },
{
    let blocks = output->Ok_0->0@;
    lemma_block_is_as_viewed(blocks);
    each_outcome_is_its_own(applied_tenants@, failed_tenants@);
    assert(blocks[0]@ == BlockView::Table(outcomes_view(applied_tenants@, failed_tenants@)));
}

/// A person who migrated tenants to IAM is told so, and shown each of them as migrated.
pub proof fn person_is_shown_iam_migrations(
    applied_tenants: Vec<ManagementTenantTarget>,
    output: Result<Option<Vec<Block>>, serde_json::Error>,
)
    requires
        call_ensures(
            report,
            (OutputFormat::Human, Reply::TenantsMigratedToIam { applied_tenants }),
            output,
        ),
    ensures
        output is Ok && output->Ok_0 is Some,
        output->Ok_0->0@.len() == 2,
        output->Ok_0->0@[0] matches Block::Text(text) && text@
            == "migrated tenants to IAM based authentication"@,
        output->Ok_0->0@[1] matches Block::Table(table) && {
            &&& table_header(table) == Some(seq!["ID"@, "Name"@, "Env"@, "Outcome"@])
            &&& table_rows(table).len() == applied_tenants@.len()
            &&& forall|i: int|
                0 <= i < applied_tenants@.len() ==> #[trigger] table_rows(table)[i] == seq![
                    hyphenated(applied_tenants@[i].id),
                    applied_tenants@[i].name@,
                    applied_tenants@[i].env@,
                    "Success"@,
                ]
        },
{
    let blocks = output->Ok_0->0@;
    lemma_block_is_as_viewed(blocks);
    each_outcome_is_its_own(applied_tenants@, Seq::empty());
    assert(blocks[0]@ is Text);
    assert(blocks[1]@ == BlockView::Table(outcomes_view(applied_tenants@, Seq::empty())));
}

/// A person is told in one text what was done where there is nothing else to show, and whether the
/// root database is initialized.
pub proof fn person_is_told_what_was_done(
    reply: Reply,
    output: Result<Option<Vec<Block>>, serde_json::Error>,
)
    requires
        call_ensures(report, (OutputFormat::Human, reply), output),
        reply is RootCreated || reply is RootChecked || reply is TenantDeleted || reply
            is RootMigrated || reply is CorsOriginsSet,
    ensures
        output is Ok && output->Ok_0 is Some,
        output->Ok_0->0@.len() == 1,
        output->Ok_0->0@[0] matches Block::Text(text) && {
            &&& reply is RootCreated ==> text@ == "successfully created root"@
            &&& reply == (Reply::RootChecked { initialized: true }) ==> text@
                == "root is initialized"@
            &&& reply == (Reply::RootChecked { initialized: false }) ==> text@
                == "root is not initialized"@
            &&& reply is TenantDeleted ==> text@ == "deleted tenant"@
            &&& reply is RootMigrated ==> text@ == "Migrations applied"@
            &&& reply is CorsOriginsSet ==> text@ == "updated tenant allowed origins"@
        },
{
    let blocks = output->Ok_0->0@;
    lemma_block_is_as_viewed(blocks);
    assert(blocks[0]@ is Text);
}

/// A program is shown one text, the document of what the reply holds, or nothing where a tenant was
/// not found: an empty object where the reply only says that something was done, and the same for a
/// tenant that was created as for one that was asked for.
pub proof fn program_is_shown_the_reply(
    reply: Reply,
    output: Result<Option<Vec<Block>>, serde_json::Error>,
)
    requires
        call_ensures(report, (OutputFormat::Json, reply), output),
    ensures
        output is Ok,
        output->Ok_0 is Some <==> reply != (Reply::Tenant { tenant: None }),
        output->Ok_0 is Some ==> output->Ok_0->0@.len() == 1 && (
        output->Ok_0->0@[0] matches Block::Text(text) && {
            &&& reply is RootCreated || reply is RootMigrated || reply is CorsOriginsSet || reply
                is TenantDeleted ==> text@ == seq!['{', '}']
            &&& reply matches Reply::RootChecked { initialized } ==> text@ == root_document(
                initialized,
            )
            &&& reply matches Reply::TenantCreated { tenant } ==> text@ == tenant_object(tenant, 0)
            &&& reply matches Reply::Tenant { tenant } ==> text@ == tenant_object(tenant->0, 0)
            &&& reply matches Reply::Tenants { tenants } ==> text@ == tenants_document(tenants@)
            &&& reply matches Reply::TenantsMigrated { applied_tenants, failed_tenants } ==> text@
                == outcomes_document(applied_tenants@, failed_tenants@)
            &&& reply matches Reply::TenantsMigratedToIam { applied_tenants } ==> text@
                == iam_document(applied_tenants@)
        }),
{
    reveal_strlit("{}");
    assert("{}"@ =~= seq!['{', '}']);
    if output->Ok_0 is Some {
        let blocks = output->Ok_0->0@;
        lemma_block_is_as_viewed(blocks);
        assert(blocks[0]@ is Text);
    }
}

/// Two replies of a kind that a program is shown the same of tell the same.
pub proof fn program_tells_replies_apart(a: Reply, b: Reply)
    requires
        report_view(OutputFormat::Json, a) == report_view(OutputFormat::Json, b),
    ensures
        a is RootChecked && b is RootChecked ==> a->initialized == b->initialized,
        a is TenantCreated && b is TenantCreated ==> same_tenant(
            a->TenantCreated_tenant,
            b->TenantCreated_tenant,
        ),
        a is Tenant && b is Tenant ==> {
            &&& a->Tenant_tenant is Some <==> b->Tenant_tenant is Some
            &&& a->Tenant_tenant is Some ==> same_tenant(a->Tenant_tenant->0, b->Tenant_tenant->0)
        },
        a is Tenants && b is Tenants ==> {
            &&& a->tenants@.len() == b->tenants@.len()
            &&& forall|i: int|
                0 <= i < a->tenants@.len() ==> same_tenant(#[trigger] a->tenants@[i], b->tenants@[i])
        },
        a is TenantsMigrated && b is TenantsMigrated ==> {
            let (x, y) = (a->TenantsMigrated_applied_tenants@, b->TenantsMigrated_applied_tenants@);
            &&& x.len() == y.len()
            &&& forall|i: int| 0 <= i < x.len() ==> same_target(#[trigger] x[i], y[i])
            &&& a->failed_tenants@.len() == b->failed_tenants@.len()
            &&& forall|i: int|
                0 <= i < a->failed_tenants@.len() ==> same_failure(
                    #[trigger] a->failed_tenants@[i],
                    b->failed_tenants@[i],
                )
        },
        a is TenantsMigratedToIam && b is TenantsMigratedToIam ==> {
            let x = a->TenantsMigratedToIam_applied_tenants@;
            let y = b->TenantsMigratedToIam_applied_tenants@;
            &&& x.len() == y.len()
            &&& forall|i: int| 0 <= i < x.len() ==> same_target(#[trigger] x[i], y[i])
        },
{
    let (x, y) = (report_view(OutputFormat::Json, a), report_view(OutputFormat::Json, b));
    if x is Some && y is Some {
        assert(x->0[0] == y->0[0]);
    }
    match (a, b) {
        (Reply::RootChecked { initialized: i }, Reply::RootChecked { initialized: j }) => {
            root_document_is_unique(i, j);
        },
        (Reply::TenantCreated { tenant: t }, Reply::TenantCreated { tenant: u }) => {
            tenant_document_is_unique(t, u);
        },
        (Reply::Tenant { tenant: Some(t) }, Reply::Tenant { tenant: Some(u) }) => {
            tenant_document_is_unique(t, u);
        },
        (Reply::Tenants { tenants: t }, Reply::Tenants { tenants: u }) => {
            tenants_document_is_unique(t@, u@);
        },
        (
            Reply::TenantsMigrated { applied_tenants: t, failed_tenants: f },
            Reply::TenantsMigrated { applied_tenants: u, failed_tenants: g },
        ) => {
            outcomes_document_is_unique(t@, f@, u@, g@);
        },
        (
            Reply::TenantsMigratedToIam { applied_tenants: t },
            Reply::TenantsMigratedToIam { applied_tenants: u },
        ) => {
            iam_document_is_unique(t@, u@);
        },
        _ => {},
    }
}

/// A failure is printed for programs only, and what is printed holds its text as the error.
pub proof fn failure_is_told_to_programs(
    format: OutputFormat,
    error: &str,
    output: Result<Option<String>, serde_json::Error>,
)
    requires
        call_ensures(failure_report, (format, error), output),
    ensures
        output is Ok,
        output->Ok_0 is Some <==> format == OutputFormat::Json,
        output->Ok_0 matches Some(text) ==> {
            &&& text@[0] == '{' && text@.last() == '}'
            &&& has_line(text@, 1, json_member("error"@, json_string(error@)))
        },
{
    let members = seq![json_member("error"@, json_string(error@))];
    lemma_object_holds_members(members, 0);
    assert(has_line(failure_document(error@), 1, members[0]));
}

} // verus!
