//! Tables of text, as they are shown to a person.
use crate::interface::{FailedTenantMigration, ManagedTenant, ManagementTenantTarget};
use crate::tenant_id::{hyphenated, tenant_id_text, tenant_id_text_is_unique};
use vstd::prelude::*;

verus! {

/// The table of the `comfy_table` crate.
#[verifier::external_type_specification]
#[verifier::external_body]
pub struct ExTable(comfy_table::Table);

/// How a table spreads its content over its columns.
#[derive(Clone, Copy, PartialEq, Eq, Structural, Debug)]
pub enum Arrangement {
    Disabled,
    Dynamic,
    DynamicFullWidth,
}

/// The texts of the cells of the header of a table.
pub uninterp spec fn table_header(table: comfy_table::Table) -> Option<Seq<Seq<char>>>;

/// The texts of the cells of each row of a table, from top to bottom and from left to right.
pub uninterp spec fn table_rows(table: comfy_table::Table) -> Seq<Seq<Seq<char>>>;

/// The character that each component of a table is drawn with, a space where it is not drawn.
pub uninterp spec fn table_style(table: comfy_table::Table) -> Seq<char>;

/// How a table spreads its content.
pub uninterp spec fn table_arrangement(table: comfy_table::Table) -> Arrangement;

/// The texts of some cells.
pub open spec fn texts(cells: Seq<String>) -> Seq<Seq<char>> {
    cells.map_values(|cell: String| cell@)
}

/// A style after a preset was loaded: it has the preset's characters, and keeps its own beyond them.
pub open spec fn with_preset(style: Seq<char>, preset: Seq<char>) -> Seq<char> {
    Seq::new(
        style.len(),
        |i: int|
            if i < preset.len() {
                preset[i]
            } else {
                style[i]
            },
    )
}

/// A style after a modifier was applied: a space of the modifier leaves the style's character.
pub open spec fn with_modifier(style: Seq<char>, modifier: Seq<char>) -> Seq<char> {
    Seq::new(
        style.len(),
        |i: int|
            if i < modifier.len() && modifier[i] != ' ' {
                modifier[i]
            } else {
                style[i]
            },
    )
}

/// Calls `comfy_table::Table::new`.
///
/// Claimed of `comfy_table`: a new table has no header and no rows, its content is not arranged,
/// and it is drawn in ASCII characters.
#[verifier::external_body]
fn empty_table() -> (table: comfy_table::Table)
    ensures
        table_header(table) is None,
        table_rows(table) == Seq::<Seq<Seq<char>>>::empty(),
        table_style(table) == "||--+==+|-+||++++++"@,
        table_arrangement(table) == Arrangement::Disabled,
{
    comfy_table::Table::new()
}

/// Reads `comfy_table::presets::UTF8_FULL`, a preset that draws every component.
#[verifier::external_body]
fn utf8_full() -> (preset: &'static str)
    ensures
        preset@ == "││──╞═╪╡┆╌┼├┤┬┴┌┐└┘"@,
{
    comfy_table::presets::UTF8_FULL
}

/// Calls `load_preset` of `comfy_table::Table`.
///
/// Claimed of `comfy_table`: each component takes the preset's character, where the preset is long
/// enough, and nothing else of the table changes.
#[verifier::external_body]
fn load_preset(table: &mut comfy_table::Table, preset: &str)
    ensures
        table_header(*final(table)) == table_header(*old(table)),
        table_rows(*final(table)) == table_rows(*old(table)),
        table_style(*final(table)) == with_preset(table_style(*old(table)), preset@),
        table_arrangement(*final(table)) == table_arrangement(*old(table)),
{
    table.load_preset(preset);
}

/// Reads `comfy_table::modifiers::UTF8_ROUND_CORNERS`, a modifier of the four corners.
#[verifier::external_body]
fn utf8_round_corners() -> (modifier: &'static str)
    ensures
        modifier@ == "               ╭╮╰╯"@,
{
    comfy_table::modifiers::UTF8_ROUND_CORNERS
}

/// Calls `apply_modifier` of `comfy_table::Table`.
///
/// Claimed of `comfy_table`: each component takes the modifier's character, unless that is a space
/// or the modifier is too short, and nothing else of the table changes.
#[verifier::external_body]
fn apply_modifier(table: &mut comfy_table::Table, modifier: &str)
    ensures
        table_header(*final(table)) == table_header(*old(table)),
        table_rows(*final(table)) == table_rows(*old(table)),
        table_style(*final(table)) == with_modifier(table_style(*old(table)), modifier@),
        table_arrangement(*final(table)) == table_arrangement(*old(table)),
{
    table.apply_modifier(modifier);
}

/// Calls `set_content_arrangement` of `comfy_table::Table`.
///
/// Claimed of `comfy_table`: the table takes the arrangement, and nothing else of it changes.
#[verifier::external_body]
fn set_content_arrangement(table: &mut comfy_table::Table, arrangement: Arrangement)
    ensures
        table_header(*final(table)) == table_header(*old(table)),
        table_rows(*final(table)) == table_rows(*old(table)),
        table_style(*final(table)) == table_style(*old(table)),
        table_arrangement(*final(table)) == arrangement,
{
    table.set_content_arrangement(match arrangement {
        Arrangement::Disabled => comfy_table::ContentArrangement::Disabled,
        Arrangement::Dynamic => comfy_table::ContentArrangement::Dynamic,
        Arrangement::DynamicFullWidth => comfy_table::ContentArrangement::DynamicFullWidth,
    });
}

/// Calls `set_header` of `comfy_table::Table`.
///
/// Claimed of `comfy_table`: the titles become the header, and nothing else of the table changes.
#[verifier::external_body]
fn set_header(table: &mut comfy_table::Table, titles: Vec<&str>)
    ensures
        table_header(*final(table)) == Some(titles@.map_values(|title: &str| title@)),
        table_rows(*final(table)) == table_rows(*old(table)),
        table_style(*final(table)) == table_style(*old(table)),
        table_arrangement(*final(table)) == table_arrangement(*old(table)),
{
    table.set_header(titles);
}

/// Calls `add_row` of `comfy_table::Table`.
///
/// Claimed of `comfy_table`: the cells become the last row, and nothing else of the table changes.
#[verifier::external_body]
fn add_row(table: &mut comfy_table::Table, cells: Vec<String>)
    ensures
        table_header(*final(table)) == table_header(*old(table)),
        table_rows(*final(table)) == table_rows(*old(table)).push(texts(cells@)),
        table_style(*final(table)) == table_style(*old(table)),
        table_arrangement(*final(table)) == table_arrangement(*old(table)),
{
    table.add_row(cells);
}

/// What is shown of a table.
pub struct TableView {
    /// The texts of the header
    pub header: Option<Seq<Seq<char>>>,
    /// The texts of the rows
    pub rows: Seq<Seq<Seq<char>>>,
    /// The characters that the table is drawn with
    pub style: Seq<char>,
    /// How the content is spread
    pub arrangement: Arrangement,
}

/// What is shown of `table`.
pub open spec fn table_view(table: comfy_table::Table) -> TableView {
    TableView {
        header: table_header(table),
        rows: table_rows(table),
        style: table_style(table),
        arrangement: table_arrangement(table),
    }
}

/// A table in the style of this program: drawn in full with round corners, and fitted to the width
/// of the terminal.
pub open spec fn styled(header: Option<Seq<Seq<char>>>, rows: Seq<Seq<Seq<char>>>) -> TableView {
    TableView { header, rows, style: "││──╞═╪╡┆╌┼├┤┬┴╭╮╰╯"@, arrangement: Arrangement::Dynamic }
}

/// The row of a tenant in a list of tenants.
pub open spec fn tenant_row(tenant: ManagedTenant) -> Seq<Seq<char>> {
    seq![hyphenated(tenant.id), tenant.name@, tenant.env@]
}

/// The table of a list of tenants.
pub open spec fn tenants_view(tenants: Seq<ManagedTenant>) -> TableView {
    styled(
        Some(seq!["ID"@, "Name"@, "Env"@]),
        tenants.map_values(|tenant: ManagedTenant| tenant_row(tenant)),
    )
}

/// The row of a tenant with the outcome of its migration.
pub open spec fn outcome_row(target: ManagementTenantTarget, outcome: Seq<char>) -> Seq<Seq<char>> {
    seq![hyphenated(target.id), target.name@, target.env@, outcome]
}

/// The row of a tenant that was migrated.
pub open spec fn applied_row(target: ManagementTenantTarget) -> Seq<Seq<char>> {
    outcome_row(target, "Success"@)
}

/// The row of a tenant that was not migrated.
pub open spec fn failed_row(failed: FailedTenantMigration) -> Seq<Seq<char>> {
    outcome_row(failed.target, "Failed: "@ + failed.error@)
}

/// The table of the outcomes of a migration: the tenants that were migrated, then the others.
pub open spec fn outcomes_view(
    applied: Seq<ManagementTenantTarget>,
    failed: Seq<FailedTenantMigration>,
) -> TableView {
    styled(
        Some(seq!["ID"@, "Name"@, "Env"@, "Outcome"@]),
        applied.map_values(|target: ManagementTenantTarget| applied_row(target))
            + failed.map_values(|failed: FailedTenantMigration| failed_row(failed)),
    )
}

/// The text for a value that may be missing.
pub open spec fn text_or_none(value: Option<String>) -> Seq<char> {
    match value {
        Some(text) => text@,
        None => "-- None --"@,
    }
}

/// The table of the details of a tenant.
pub open spec fn details_view(tenant: ManagedTenant) -> TableView {
    styled(
        None,
        seq![
            seq!["ID"@, hyphenated(tenant.id)],
            seq!["Name"@, tenant.name@],
            seq!["Env"@, tenant.env@],
            seq!["DB Name"@, tenant.db_name@],
            seq!["DB Secret Name"@, text_or_none(tenant.db_secret_name)],
            seq!["DB IAM User Name"@, text_or_none(tenant.db_iam_user_name)],
            seq!["Storage Bucket Name"@, tenant.s3_name@],
            seq!["Search Index Name"@, tenant.os_index_name@],
            seq!["Event Queue URL"@, text_or_none(tenant.event_queue_url)],
        ],
    )
}

/// A table in the style of this program, with nothing in it.
fn styled_table() -> (table: comfy_table::Table)
    ensures
        table_view(table) == styled(None, Seq::empty()),
{
    let mut table = empty_table();
    load_preset(&mut table, utf8_full());
    apply_modifier(&mut table, utf8_round_corners());
    set_content_arrangement(&mut table, Arrangement::Dynamic);
    proof {
        reveal_strlit("||--+==+|-+||++++++");
        reveal_strlit("││──╞═╪╡┆╌┼├┤┬┴┌┐└┘");
        reveal_strlit("               ╭╮╰╯");
        reveal_strlit("││──╞═╪╡┆╌┼├┤┬┴╭╮╰╯");
        assert(table_style(table) =~= "││──╞═╪╡┆╌┼├┤┬┴╭╮╰╯"@);
    }
    table
}

/// The table of a list of tenants.
pub fn tenants_table(tenants: &Vec<ManagedTenant>) -> (table: comfy_table::Table)
    ensures
        table_view(table) == tenants_view(tenants@),
{
    let mut table = styled_table();
    set_header(&mut table, vec!["ID", "Name", "Env"]);
    let ghost header = table_header(table);
    assert(header->0 =~= seq!["ID"@, "Name"@, "Env"@]);
    let ghost rows = tenants_view(tenants@).rows;
    assert(rows.take(0) =~= Seq::empty());
    for i in 0..tenants.len()
        invariant
            rows == tenants_view(tenants@).rows,
            table_view(table) == styled(header, rows.take(i as int)),
    {
        let tenant = &tenants[i];
        let cells = vec![tenant_id_text(tenant.id), tenant.name.clone(), tenant.env.clone()];
        assert(texts(cells@) =~= tenant_row(*tenant));
        add_row(&mut table, cells);
        assert(rows.take(i + 1) =~= rows.take(i as int).push(tenant_row(*tenant)));
    }
    assert(rows.take(tenants.len() as int) =~= rows);
    table
}

/// The cells of a tenant with the outcome of its migration.
fn outcome_cells(target: &ManagementTenantTarget, outcome: String) -> (cells: Vec<String>)
    ensures
        texts(cells@) == outcome_row(*target, outcome@),
{
    let cells = vec![
        tenant_id_text(target.id),
        target.name.clone(),
        target.env.clone(),
        outcome,
    ];
    assert(texts(cells@) =~= outcome_row(*target, outcome@));
    cells
}

/// The table of the outcomes of a migration: the tenants that were migrated, then the others.
pub fn outcomes_table(
    applied: &Vec<ManagementTenantTarget>,
    failed: &Vec<FailedTenantMigration>,
) -> (table: comfy_table::Table)
    ensures
        table_view(table) == outcomes_view(applied@, failed@),
{
    let mut table = styled_table();
    set_header(&mut table, vec!["ID", "Name", "Env", "Outcome"]);
    let ghost header = table_header(table);
    assert(header->0 =~= seq!["ID"@, "Name"@, "Env"@, "Outcome"@]);
    let ghost rows = outcomes_view(applied@, failed@).rows;
    assert(rows.take(0) =~= Seq::empty());
    for i in 0..applied.len()
        invariant
            rows == outcomes_view(applied@, failed@).rows,
            table_view(table) == styled(header, rows.take(i as int)),
    {
        let cells = outcome_cells(&applied[i], "Success".to_string());
        add_row(&mut table, cells);
        assert(rows.take(i + 1) =~= rows.take(i as int).push(applied_row(applied@[i as int])));
    }
    for i in 0..failed.len()
        invariant
            rows == outcomes_view(applied@, failed@).rows,
            table_view(table) == styled(header, rows.take(applied@.len() + i)),
    {
        let outcome = "Failed: ".to_string().concat(failed[i].error.as_str());
        let cells = outcome_cells(&failed[i].target, outcome);
        add_row(&mut table, cells);
        let ghost n = applied@.len() + i;
        assert(rows.take(n + 1) =~= rows.take(n).push(failed_row(failed@[i as int])));
    }
    assert(rows.take((applied@.len() + failed@.len()) as int) =~= rows);
    table
}

/// The text for a value that may be missing.
fn value_or_none(value: &Option<String>) -> (text: String)
    ensures
        text@ == text_or_none(*value),
{
    match value {
        Some(text) => text.clone(),
        None => "-- None --".to_string(),
    }
}

/// Adds a row with a name and a value.
fn add_detail(table: &mut comfy_table::Table, name: &str, value: String)
    ensures
        table_header(*final(table)) == table_header(*old(table)),
        table_rows(*final(table)) == table_rows(*old(table)).push(seq![name@, value@]),
        table_style(*final(table)) == table_style(*old(table)),
        table_arrangement(*final(table)) == table_arrangement(*old(table)),
{
    let cells = vec![name.to_string(), value];
    assert(texts(cells@) =~= seq![name@, value@]);
    add_row(table, cells);
}

/// The table of the details of a tenant.
pub fn details_table(tenant: &ManagedTenant) -> (table: comfy_table::Table)
    ensures
        table_view(table) == details_view(*tenant),
{
    let mut table = styled_table();
    add_detail(&mut table, "ID", tenant_id_text(tenant.id));
    add_detail(&mut table, "Name", tenant.name.clone());
    add_detail(&mut table, "Env", tenant.env.clone());
    add_detail(&mut table, "DB Name", tenant.db_name.clone());
    add_detail(&mut table, "DB Secret Name", value_or_none(&tenant.db_secret_name));
    add_detail(&mut table, "DB IAM User Name", value_or_none(&tenant.db_iam_user_name));
    add_detail(&mut table, "Storage Bucket Name", tenant.s3_name.clone());
    add_detail(&mut table, "Search Index Name", tenant.os_index_name.clone());
    add_detail(&mut table, "Event Queue URL", value_or_none(&tenant.event_queue_url));
    assert(table_rows(table) =~= details_view(*tenant).rows);
    table
}

/// Every tenant has its row, in the order of the list, with its identifier, name and environment
/// under these titles, and tenants with different identifiers have different rows.
pub proof fn every_tenant_is_listed(tenants: Seq<ManagedTenant>)
    ensures
        tenants_view(tenants).header == Some(seq!["ID"@, "Name"@, "Env"@]),
        tenants_view(tenants).rows.len() == tenants.len(),
        forall|i: int|
            #![trigger tenants[i]]
            #![trigger tenants_view(tenants).rows[i]]
            0 <= i < tenants.len() ==> {
                &&& tenants_view(tenants).rows[i] == tenant_row(tenants[i])
                &&& tenants_view(tenants).rows[i].len() == 3
                &&& tenants_view(tenants).rows[i][0] == hyphenated(tenants[i].id)
                &&& tenants_view(tenants).rows[i][1] == tenants[i].name@
                &&& tenants_view(tenants).rows[i][2] == tenants[i].env@
            },
        forall|i: int, j: int|
            0 <= i < tenants.len() && 0 <= j < tenants.len() && (#[trigger] tenants[i]).id != (
            #[trigger] tenants[j]).id ==> tenants_view(tenants).rows[i] != tenants_view(
                tenants,
            ).rows[j],
{
    let rows = tenants_view(tenants).rows;
    assert forall|i: int, j: int|
        0 <= i < tenants.len() && 0 <= j < tenants.len() && (#[trigger] tenants[i]).id != (
        #[trigger] tenants[j]).id implies rows[i] != rows[j] by {
        assert(rows[i][0] == hyphenated(tenants[i].id));
        assert(rows[j][0] == hyphenated(tenants[j].id));
        if rows[i] == rows[j] {
            tenant_id_text_is_unique(tenants[i].id, tenants[j].id);
        }
    }
}

/// The outcome of a migration is told from the table: the rows of the tenants that were migrated
/// come first, each says that it succeeded, and no other row says so.
pub proof fn outcomes_are_told_apart(
    applied: Seq<ManagementTenantTarget>,
    failed: Seq<FailedTenantMigration>,
)
    ensures
        outcomes_view(applied, failed).rows.len() == applied.len() + failed.len(),
        forall|i: int|
            0 <= i < applied.len() + failed.len() ==> (
            #[trigger] outcomes_view(applied, failed).rows[i][3] == "Success"@ <==> i
                < applied.len()),
{
    let rows = outcomes_view(applied, failed).rows;
    assert forall|i: int| 0 <= i < applied.len() + failed.len() implies (
    #[trigger] rows[i][3] == "Success"@ <==> i < applied.len()) by {
        if i < applied.len() {
            assert(rows[i] == applied_row(applied[i]));
        } else {
            reveal_strlit("Success");
            reveal_strlit("Failed: ");
            assert(rows[i] == failed_row(failed[i - applied.len()]));
            assert(rows[i][3][0] == 'F');
        }
    }
}

/// Every row of a table with a header has a cell for each title.
pub proof fn rows_fit_their_header(
    tenants: Seq<ManagedTenant>,
    applied: Seq<ManagementTenantTarget>,
    failed: Seq<FailedTenantMigration>,
)
    ensures
        forall|i: int|
            0 <= i < tenants_view(tenants).rows.len() ==> (
            #[trigger] tenants_view(tenants).rows[i]).len() == tenants_view(
                tenants,
            ).header->0.len(),
        forall|i: int|
            0 <= i < outcomes_view(applied, failed).rows.len() ==> (
            #[trigger] outcomes_view(applied, failed).rows[i]).len() == outcomes_view(
                applied,
                failed,
            ).header->0.len(),
{
}

/// Every tenant that a migration was run against has its own row with its own outcome: those that
/// were migrated come first, in their order, and then the others, each with what went wrong for it.
/// Failures with different errors have different outcomes.
pub proof fn each_outcome_is_its_own(
    applied: Seq<ManagementTenantTarget>,
    failed: Seq<FailedTenantMigration>,
)
    ensures
        outcomes_view(applied, failed).header == Some(seq!["ID"@, "Name"@, "Env"@, "Outcome"@]),
        outcomes_view(applied, failed).rows.len() == applied.len() + failed.len(),
        forall|i: int|
            0 <= i < applied.len() ==> #[trigger] outcomes_view(applied, failed).rows[i] == seq![
                hyphenated(applied[i].id),
                applied[i].name@,
                applied[i].env@,
                "Success"@,
            ],
        forall|i: int|
            0 <= i < failed.len() ==> #[trigger] outcomes_view(applied, failed).rows[applied.len()
                + i] == seq![
                hyphenated(failed[i].target.id),
                failed[i].target.name@,
                failed[i].target.env@,
                "Failed: "@ + failed[i].error@,
            ],
        forall|i: int, j: int|
            0 <= i < failed.len() && 0 <= j < failed.len() && (#[trigger] failed[i]).error@ != (
            #[trigger] failed[j]).error@ ==> outcomes_view(applied, failed).rows[applied.len()
                + i][3] != outcomes_view(applied, failed).rows[applied.len() + j][3],
{
    let rows = outcomes_view(applied, failed).rows;
    assert forall|i: int| 0 <= i < failed.len() implies #[trigger] rows[applied.len() + i] == seq![
        hyphenated(failed[i].target.id),
        failed[i].target.name@,
        failed[i].target.env@,
        "Failed: "@ + failed[i].error@,
    ] by {
        assert(rows[applied.len() + i] == failed_row(failed[i]));
    }
    assert forall|i: int, j: int|
        0 <= i < failed.len() && 0 <= j < failed.len() && (#[trigger] failed[i]).error@ != (
        #[trigger] failed[j]).error@ implies rows[applied.len() + i][3] != rows[applied.len()
        + j][3] by {
        let (x, y) = ("Failed: "@ + failed[i].error@, "Failed: "@ + failed[j].error@);
        assert(rows[applied.len() + i][3] == x);
        assert(rows[applied.len() + j][3] == y);
        let n = "Failed: "@.len() as int;
        assert(failed[i].error@ =~= x.subrange(n, x.len() as int));
        assert(failed[j].error@ =~= y.subrange(n, y.len() as int));
    }
}

/// The details of a tenant are nine named values, each that of the field with its name: a value that
/// is there is shown as it is, and one that is missing as such.
pub proof fn details_name_each_field(tenant: ManagedTenant)
    ensures
        details_view(tenant).header is None,
        details_view(tenant).rows.len() == 9,
        forall|i: int|
            0 <= i < 9 ==> (#[trigger] details_view(tenant).rows[i]).len() == 2,
        details_view(tenant).rows[0] == seq!["ID"@, hyphenated(tenant.id)],
        details_view(tenant).rows[1] == seq!["Name"@, tenant.name@],
        details_view(tenant).rows[2] == seq!["Env"@, tenant.env@],
        details_view(tenant).rows[3] == seq!["DB Name"@, tenant.db_name@],
        details_view(tenant).rows[4][0] == "DB Secret Name"@,
        tenant.db_secret_name is Some ==> details_view(tenant).rows[4][1]
            == tenant.db_secret_name->0@,
        tenant.db_secret_name is None ==> details_view(tenant).rows[4][1] == "-- None --"@,
        details_view(tenant).rows[5][0] == "DB IAM User Name"@,
        tenant.db_iam_user_name is Some ==> details_view(tenant).rows[5][1]
            == tenant.db_iam_user_name->0@,
        tenant.db_iam_user_name is None ==> details_view(tenant).rows[5][1] == "-- None --"@,
        details_view(tenant).rows[6] == seq!["Storage Bucket Name"@, tenant.s3_name@],
        details_view(tenant).rows[7] == seq!["Search Index Name"@, tenant.os_index_name@],
        details_view(tenant).rows[8][0] == "Event Queue URL"@,
        tenant.event_queue_url is Some ==> details_view(tenant).rows[8][1]
            == tenant.event_queue_url->0@,
        tenant.event_queue_url is None ==> details_view(tenant).rows[8][1] == "-- None --"@,
{
}

/// Whether two values that may be missing are shown alike: they have the same text, or one is missing
/// and the other reads as one that is.
pub open spec fn shown_alike(a: Option<String>, b: Option<String>) -> bool {
    match (a, b) {
        (Some(x), Some(y)) => x@ == y@,
        (Some(x), None) => x@ == "-- None --"@,
        (None, Some(y)) => y@ == "-- None --"@,
        (None, None) => true,
    }
}

/// The details tell the tenant: two tenants have the same table if and only if they agree in every
/// field, up to the text for a value that is missing.
pub proof fn details_tell_the_tenant(a: ManagedTenant, b: ManagedTenant)
    ensures
        details_view(a) == details_view(b) <==> {
            &&& a.id == b.id
            &&& a.name@ == b.name@
            &&& a.env@ == b.env@
            &&& a.db_name@ == b.db_name@
            &&& shown_alike(a.db_secret_name, b.db_secret_name)
            &&& shown_alike(a.db_iam_user_name, b.db_iam_user_name)
            &&& a.s3_name@ == b.s3_name@
            &&& a.os_index_name@ == b.os_index_name@
            &&& shown_alike(a.event_queue_url, b.event_queue_url)
        },
{
    let (x, y) = (details_view(a).rows, details_view(b).rows);
    details_name_each_field(a);
    details_name_each_field(b);
    if details_view(a) == details_view(b) {
        assert(x[0][1] == y[0][1] && x[1][1] == y[1][1] && x[2][1] == y[2][1]);
        assert(x[3][1] == y[3][1] && x[4][1] == y[4][1] && x[5][1] == y[5][1]);
        assert(x[6][1] == y[6][1] && x[7][1] == y[7][1] && x[8][1] == y[8][1]);
        tenant_id_text_is_unique(a.id, b.id);
    }
}

/// Every table is drawn alike: in full, with round corners, and fitted to the width of the terminal.
pub proof fn tables_are_drawn_alike(
    tenant: ManagedTenant,
    tenants: Seq<ManagedTenant>,
    applied: Seq<ManagementTenantTarget>,
    failed: Seq<FailedTenantMigration>,
)
    ensures
        details_view(tenant).style == "││──╞═╪╡┆╌┼├┤┬┴╭╮╰╯"@,
        details_view(tenant).style == tenants_view(tenants).style,
        details_view(tenant).style == outcomes_view(applied, failed).style,
        details_view(tenant).arrangement == Arrangement::Dynamic,
        tenants_view(tenants).arrangement == Arrangement::Dynamic,
        outcomes_view(applied, failed).arrangement == Arrangement::Dynamic,
{
}

/// The tables are what is viewed of them: header, rows, style and arrangement.
pub proof fn tables_are_as_viewed(
    tenants: Vec<ManagedTenant>,
    applied: Vec<ManagementTenantTarget>,
    failed: Vec<FailedTenantMigration>,
    tenant: ManagedTenant,
    table: comfy_table::Table,
    view: TableView,
)
    requires
        view == tenants_view(tenants@) && call_ensures(tenants_table, (&tenants,), table) || view
            == outcomes_view(applied@, failed@) && call_ensures(
            outcomes_table,
            (&applied, &failed),
            table,
        ) || view == details_view(tenant) && call_ensures(details_table, (&tenant,), table),
    ensures
        table_header(table) == view.header,
        table_rows(table) == view.rows,
        table_style(table) == view.style,
        table_arrangement(table) == view.arrangement,
{
}

} // verus!
