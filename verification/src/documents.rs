//! Replies of the management service as JSON documents.
use crate::interface::{FailedTenantMigration, ManagedTenant, ManagementTenantTarget};
use crate::json::{
    delimited, has_line, json_bool, json_lines, json_list, json_member, json_object, json_string,
    json_string_or_null, lemma_list_grows, lemma_list_holds_values, lemma_listed_lines,
    lemma_lists_are_delimited, lemma_members_are_delimited, lemma_object_holds_members,
    lemma_objects_are_delimited, lemma_optional_members, lemma_string_members, new_line,
    optional_text,
};
use crate::tenant_id::{hyphenated, tenant_id_text_is_unique};
use docbox_management_interface as service;
use uuid::Uuid;
use vstd::prelude::*;

verus! {

/// The document of whether the root database is initialized.
pub open spec fn root_document(initialized: bool) -> Seq<char> {
    json_object(seq![json_member("initialized"@, json_bool(initialized))], 0)
}

/// The members of a tenant.
pub open spec fn tenant_members(tenant: ManagedTenant) -> Seq<Seq<char>> {
    seq![
        json_member("env"@, json_string(tenant.env@)),
        json_member("id"@, json_string(hyphenated(tenant.id))),
        json_member("name"@, json_string(tenant.name@)),
        json_member("db_name"@, json_string(tenant.db_name@)),
        json_member("db_secret_name"@, json_string_or_null(tenant.db_secret_name)),
        json_member("db_iam_user_name"@, json_string_or_null(tenant.db_iam_user_name)),
        json_member("s3_name"@, json_string(tenant.s3_name@)),
        json_member("os_index_name"@, json_string(tenant.os_index_name@)),
        json_member("event_queue_url"@, json_string_or_null(tenant.event_queue_url)),
    ]
}

/// A tenant, as an object that begins at a depth.
pub open spec fn tenant_object(tenant: ManagedTenant, depth: nat) -> Seq<char> {
    json_object(tenant_members(tenant), depth)
}

/// The document of a list of tenants.
pub open spec fn tenants_document(tenants: Seq<ManagedTenant>) -> Seq<char> {
    json_object(seq![json_member("tenants"@, json_list(tenant_objects(tenants), 1))], 0)
}

/// The members of a tenant that a migration was run against.
pub open spec fn target_members(target: ManagementTenantTarget) -> Seq<Seq<char>> {
    seq![
        json_member("id"@, json_string(hyphenated(target.id))),
        json_member("name"@, json_string(target.name@)),
        json_member("env"@, json_string(target.env@)),
    ]
}

/// A tenant that a migration was run against, as an object that begins at a depth.
pub open spec fn target_object(target: ManagementTenantTarget, depth: nat) -> Seq<char> {
    json_object(target_members(target), depth)
}

/// The members of a tenant that a migration failed for, as an object that begins at a depth.
pub open spec fn failed_members(failed: FailedTenantMigration, depth: nat) -> Seq<Seq<char>> {
    seq![
        json_member("target"@, target_object(failed.target, depth + 1)),
        json_member("error"@, json_string(failed.error@)),
    ]
}

/// A tenant that a migration failed for, as an object that begins at a depth.
pub open spec fn failed_object(failed: FailedTenantMigration, depth: nat) -> Seq<char> {
    json_object(failed_members(failed, depth), depth)
}

/// The objects of a list of tenants.
pub open spec fn tenant_objects(tenants: Seq<ManagedTenant>) -> Seq<Seq<char>> {
    tenants.map_values(|tenant: ManagedTenant| tenant_object(tenant, 2))
}

/// The objects of a list of tenants that were migrated.
pub open spec fn target_objects(targets: Seq<ManagementTenantTarget>) -> Seq<Seq<char>> {
    targets.map_values(|target: ManagementTenantTarget| target_object(target, 2))
}

/// The objects of a list of tenants that were not migrated.
pub open spec fn failed_objects(failed: Seq<FailedTenantMigration>) -> Seq<Seq<char>> {
    failed.map_values(|failed: FailedTenantMigration| failed_object(failed, 2))
}

/// The member that lists the tenants that were migrated.
pub open spec fn applied_member(applied: Seq<ManagementTenantTarget>) -> Seq<char> {
    json_member("applied_tenants"@, json_list(target_objects(applied), 1))
}

/// The member that lists the tenants that were not migrated.
pub open spec fn failed_member(failed: Seq<FailedTenantMigration>) -> Seq<char> {
    json_member("failed_tenants"@, json_list(failed_objects(failed), 1))
}

/// The document of the outcomes of a migration.
pub open spec fn outcomes_document(
    applied: Seq<ManagementTenantTarget>,
    failed: Seq<FailedTenantMigration>,
) -> Seq<char> {
    json_object(seq![applied_member(applied), failed_member(failed)], 0)
}

/// The document of the tenants that were migrated to IAM.
pub open spec fn iam_document(applied: Seq<ManagementTenantTarget>) -> Seq<char> {
    json_object(seq![applied_member(applied)], 0)
}

/// The document of a tenant that was deleted.
pub open spec fn deleted_document() -> Seq<char> {
    json_object(Seq::empty(), 0)
}

/// Calls `serde_json::to_string_pretty` on a `CheckRootOutput`.
///
/// Claimed of `serde_json` and `docbox_management_interface`: it is always serialised, as an object
/// with its one field.
#[verifier::external_body]
pub(crate) fn root_json(initialized: bool) -> (text: Result<String, serde_json::Error>)
    ensures
        text is Ok,
        text->Ok_0@ == root_document(initialized),
{
    serde_json::to_string_pretty(&service::CheckRootOutput { initialized })
}

/// Calls `serde_json::to_string_pretty` on a `ManagedTenant`.
///
/// Claimed of `serde_json`, `docbox_management_interface` and `uuid`: it is always serialised, as an
/// object with its fields in the order in which they are declared, where a UUID is a string in
/// hyphenated form and a missing value is null.
#[verifier::external_body]
pub(crate) fn tenant_json(tenant: &ManagedTenant) -> (text: Result<String, serde_json::Error>)
    ensures
        text is Ok,
        text->Ok_0@ == tenant_object(*tenant, 0),
{
    serde_json::to_string_pretty(&service::ManagedTenant {
        env: tenant.env.clone(),
        id: Uuid::from_u128(tenant.id),
        name: tenant.name.clone(),
        db_name: tenant.db_name.clone(),
        db_secret_name: tenant.db_secret_name.clone(),
        db_iam_user_name: tenant.db_iam_user_name.clone(),
        s3_name: tenant.s3_name.clone(),
        os_index_name: tenant.os_index_name.clone(),
        event_queue_url: tenant.event_queue_url.clone(),
    })
}

/// Calls `serde_json::to_string_pretty` on a `DeleteTenantOutput`.
///
/// Claimed of `serde_json` and `docbox_management_interface`: it is always serialised, as an object
/// without fields.
#[verifier::external_body]
pub(crate) fn deleted_json() -> (text: Result<String, serde_json::Error>)
    ensures
        text is Ok,
        text->Ok_0@ == deleted_document(),
{
    serde_json::to_string_pretty(&service::DeleteTenantOutput {})
}

/// Calls `serde_json::to_string_pretty` on a `GetTenantsOutput`.
///
/// Claimed of `serde_json`, `docbox_management_interface` and `uuid`: it is always serialised, as an
/// object with a list of its tenants in their order.
#[verifier::external_body]
pub(crate) fn tenants_json(tenants: &Vec<ManagedTenant>) -> (text: Result<
    String,
    serde_json::Error,
>)
    ensures
        text is Ok,
        text->Ok_0@ == tenants_document(tenants@),
{
    let tenants = tenants.iter().map(|tenant| service::ManagedTenant {
        env: tenant.env.clone(),
        id: Uuid::from_u128(tenant.id),
        name: tenant.name.clone(),
        db_name: tenant.db_name.clone(),
        db_secret_name: tenant.db_secret_name.clone(),
        db_iam_user_name: tenant.db_iam_user_name.clone(),
        s3_name: tenant.s3_name.clone(),
        os_index_name: tenant.os_index_name.clone(),
        event_queue_url: tenant.event_queue_url.clone(),
    });
    serde_json::to_string_pretty(&service::GetTenantsOutput { tenants: tenants.collect() })
}

/// Calls `serde_json::to_string_pretty` on a `MigrateTenantOutput`.
///
/// Claimed of `serde_json`, `docbox_management_interface` and `uuid`: it is always serialised, as an
/// object with a list of the tenants that were migrated and one of those that were not.
#[verifier::external_body]
pub(crate) fn outcomes_json(
    applied: &Vec<ManagementTenantTarget>,
    failed: &Vec<FailedTenantMigration>,
) -> (text: Result<String, serde_json::Error>)
    ensures
        text is Ok,
        text->Ok_0@ == outcomes_document(applied@, failed@),
{
    let applied_tenants = applied.iter().map(|target| service::ManagementTenantTarget {
        id: Uuid::from_u128(target.id),
        name: target.name.clone(),
        env: target.env.clone(),
    }).collect();
    let failed_tenants = failed.iter().map(|failed| service::FailedTenantMigration {
        target: service::ManagementTenantTarget {
            id: Uuid::from_u128(failed.target.id),
            name: failed.target.name.clone(),
            env: failed.target.env.clone(),
        },
        error: failed.error.clone(),
    }).collect();
    serde_json::to_string_pretty(&service::MigrateTenantOutput { applied_tenants, failed_tenants })
}

/// Calls `serde_json::to_string_pretty` on a `MigrateTenantIAMOutput`.
///
/// Claimed of `serde_json`, `docbox_management_interface` and `uuid`: it is always serialised, as an
/// object with a list of the tenants that were migrated.
#[verifier::external_body]
pub(crate) fn iam_json(applied: &Vec<ManagementTenantTarget>) -> (text: Result<
    String,
    serde_json::Error,
>)
    ensures
        text is Ok,
        text->Ok_0@ == iam_document(applied@),
{
    let applied_tenants = applied.iter().map(|target| service::ManagementTenantTarget {
        id: Uuid::from_u128(target.id),
        name: target.name.clone(),
        env: target.env.clone(),
    }).collect();
    serde_json::to_string_pretty(&service::MigrateTenantIAMOutput { applied_tenants })
}

/// Whether two tenants agree in everything that is told of them.
pub open spec fn same_tenant(a: ManagedTenant, b: ManagedTenant) -> bool {
    &&& a.env@ == b.env@
    &&& a.id == b.id
    &&& a.name@ == b.name@
    &&& a.db_name@ == b.db_name@
    &&& optional_text(a.db_secret_name) == optional_text(b.db_secret_name)
    &&& optional_text(a.db_iam_user_name) == optional_text(b.db_iam_user_name)
    &&& a.s3_name@ == b.s3_name@
    &&& a.os_index_name@ == b.os_index_name@
    &&& optional_text(a.event_queue_url) == optional_text(b.event_queue_url)
}

/// Whether two targets agree in everything that is told of them.
pub open spec fn same_target(a: ManagementTenantTarget, b: ManagementTenantTarget) -> bool {
    &&& a.id == b.id
    &&& a.name@ == b.name@
    &&& a.env@ == b.env@
}

/// Whether two failures agree in everything that is told of them.
pub open spec fn same_failure(a: FailedTenantMigration, b: FailedTenantMigration) -> bool {
    &&& same_target(a.target, b.target)
    &&& a.error@ == b.error@
}

/// Two identifiers as members with the same key are delimited, and equal only where they are.
proof fn lemma_id_members(key: Seq<char>, a: u128, b: u128)
    ensures
        delimited(
            json_member(key, json_string(hyphenated(a))),
            json_member(key, json_string(hyphenated(b))),
        ),
        json_member(key, json_string(hyphenated(a))) == json_member(
            key,
            json_string(hyphenated(b)),
        ) ==> a == b,
{
    lemma_string_members(key, hyphenated(a), hyphenated(b));
    if hyphenated(a) == hyphenated(b) {
        tenant_id_text_is_unique(a, b);
    }
}

/// Two tenants are delimited, and equal only for the same tenant.
proof fn lemma_tenants_are_delimited(a: ManagedTenant, b: ManagedTenant, depth: nat)
    ensures
        delimited(tenant_object(a, depth), tenant_object(b, depth)),
        tenant_object(a, depth) == tenant_object(b, depth) ==> same_tenant(a, b),
{
    let (x, y) = (tenant_members(a), tenant_members(b));
    lemma_string_members("env"@, a.env@, b.env@);
    lemma_id_members("id"@, a.id, b.id);
    lemma_string_members("name"@, a.name@, b.name@);
    lemma_string_members("db_name"@, a.db_name@, b.db_name@);
    lemma_optional_members("db_secret_name"@, a.db_secret_name, b.db_secret_name);
    lemma_optional_members("db_iam_user_name"@, a.db_iam_user_name, b.db_iam_user_name);
    lemma_string_members("s3_name"@, a.s3_name@, b.s3_name@);
    lemma_string_members("os_index_name"@, a.os_index_name@, b.os_index_name@);
    lemma_optional_members("event_queue_url"@, a.event_queue_url, b.event_queue_url);
    lemma_objects_are_delimited(x, y, depth);
    if tenant_object(a, depth) == tenant_object(b, depth) {
        assert(x[0] == y[0] && x[1] == y[1] && x[2] == y[2] && x[3] == y[3] && x[4] == y[4]);
        assert(x[5] == y[5] && x[6] == y[6] && x[7] == y[7] && x[8] == y[8]);
    }
}

/// Two targets are delimited, and equal only for the same target.
proof fn lemma_targets_are_delimited(
    a: ManagementTenantTarget,
    b: ManagementTenantTarget,
    depth: nat,
)
    ensures
        delimited(target_object(a, depth), target_object(b, depth)),
        target_object(a, depth) == target_object(b, depth) ==> same_target(a, b),
{
    let (x, y) = (target_members(a), target_members(b));
    lemma_id_members("id"@, a.id, b.id);
    lemma_string_members("name"@, a.name@, b.name@);
    lemma_string_members("env"@, a.env@, b.env@);
    lemma_objects_are_delimited(x, y, depth);
    if target_object(a, depth) == target_object(b, depth) {
        assert(x[0] == y[0] && x[1] == y[1] && x[2] == y[2]);
    }
}

/// Two failures are delimited, and equal only for the same failure.
proof fn lemma_failures_are_delimited(
    a: FailedTenantMigration,
    b: FailedTenantMigration,
    depth: nat,
)
    ensures
        delimited(failed_object(a, depth), failed_object(b, depth)),
        failed_object(a, depth) == failed_object(b, depth) ==> same_failure(a, b),
{
    let (x, y) = (failed_members(a, depth), failed_members(b, depth));
    lemma_targets_are_delimited(a.target, b.target, depth + 1);
    lemma_members_are_delimited(
        "target"@,
        target_object(a.target, depth + 1),
        target_object(b.target, depth + 1),
    );
    lemma_string_members("error"@, a.error@, b.error@);
    lemma_objects_are_delimited(x, y, depth);
    if failed_object(a, depth) == failed_object(b, depth) {
        assert(x[0] == y[0] && x[1] == y[1]);
    }
}

/// The members that list migrated tenants are delimited, and equal only for the same tenants.
proof fn lemma_applied_members(a: Seq<ManagementTenantTarget>, b: Seq<ManagementTenantTarget>)
    ensures
        delimited(applied_member(a), applied_member(b)),
        applied_member(a) == applied_member(b) ==> {
            &&& a.len() == b.len()
            &&& forall|i: int| 0 <= i < a.len() ==> same_target(#[trigger] a[i], b[i])
        },
{
    let (x, y) = (target_objects(a), target_objects(b));
    assert forall|i: int| 0 <= i < x.len() && i < y.len() implies delimited(
        #[trigger] x[i],
        y[i],
    ) by {
        lemma_targets_are_delimited(a[i], b[i], 2);
    }
    lemma_lists_are_delimited(x, y, 1);
    lemma_members_are_delimited("applied_tenants"@, json_list(x, 1), json_list(y, 1));
    if applied_member(a) == applied_member(b) {
        assert(a.len() == x.len() && b.len() == y.len());
        assert forall|i: int| 0 <= i < a.len() implies same_target(#[trigger] a[i], b[i]) by {
            assert(x[i] == y[i]);
            lemma_targets_are_delimited(a[i], b[i], 2);
        }
    }
}

/// The members that list failures are delimited, and equal only for the same failures.
proof fn lemma_failed_members(a: Seq<FailedTenantMigration>, b: Seq<FailedTenantMigration>)
    ensures
        delimited(failed_member(a), failed_member(b)),
        failed_member(a) == failed_member(b) ==> {
            &&& a.len() == b.len()
            &&& forall|i: int| 0 <= i < a.len() ==> same_failure(#[trigger] a[i], b[i])
        },
{
    let (x, y) = (failed_objects(a), failed_objects(b));
    assert forall|i: int| 0 <= i < x.len() && i < y.len() implies delimited(
        #[trigger] x[i],
        y[i],
    ) by {
        lemma_failures_are_delimited(a[i], b[i], 2);
    }
    lemma_lists_are_delimited(x, y, 1);
    lemma_members_are_delimited("failed_tenants"@, json_list(x, 1), json_list(y, 1));
    if failed_member(a) == failed_member(b) {
        assert(a.len() == x.len() && b.len() == y.len());
        assert forall|i: int| 0 <= i < a.len() implies same_failure(#[trigger] a[i], b[i]) by {
            assert(x[i] == y[i]);
            lemma_failures_are_delimited(a[i], b[i], 2);
        }
    }
}

/// The document of whether the root database is initialized tells which.
pub proof fn root_document_is_unique(a: bool, b: bool)
    requires
        root_document(a) == root_document(b),
    ensures
        a == b,
{
    reveal_strlit("true");
    reveal_strlit("false");
    let (x, y) = (json_bool(a), json_bool(b));
    if a != b {
        assert("true"@[0] != "false"@[0]);
        assert(x[0] != y[0]);
    }
    lemma_members_are_delimited("initialized"@, x, y);
    let (u, v) = (json_member("initialized"@, x), json_member("initialized"@, y));
    lemma_objects_are_delimited(seq![u], seq![v], 0);
    assert(seq![u][0] == seq![v][0]);
}

/// The document of a tenant tells everything that is known of the tenant.
pub proof fn tenant_document_is_unique(a: ManagedTenant, b: ManagedTenant)
    requires
        tenant_object(a, 0) == tenant_object(b, 0),
    ensures
        same_tenant(a, b),
{
    lemma_tenants_are_delimited(a, b, 0);
}

/// The document of a list of tenants tells how many there are, and everything that is known of each.
pub proof fn tenants_document_is_unique(a: Seq<ManagedTenant>, b: Seq<ManagedTenant>)
    requires
        tenants_document(a) == tenants_document(b),
    ensures
        a.len() == b.len(),
        forall|i: int| 0 <= i < a.len() ==> same_tenant(#[trigger] a[i], b[i]),
{
    let (x, y) = (tenant_objects(a), tenant_objects(b));
    assert forall|i: int| 0 <= i < x.len() && i < y.len() implies delimited(
        #[trigger] x[i],
        y[i],
    ) by {
        lemma_tenants_are_delimited(a[i], b[i], 2);
    }
    lemma_lists_are_delimited(x, y, 1);
    lemma_members_are_delimited("tenants"@, json_list(x, 1), json_list(y, 1));
    let u = json_member("tenants"@, json_list(x, 1));
    let v = json_member("tenants"@, json_list(y, 1));
    lemma_objects_are_delimited(seq![u], seq![v], 0);
    assert(seq![u][0] == seq![v][0]);
    assert(a.len() == x.len() && b.len() == y.len());
    assert forall|i: int| 0 <= i < a.len() implies same_tenant(#[trigger] a[i], b[i]) by {
        assert(x[i] == y[i]);
        lemma_tenants_are_delimited(a[i], b[i], 2);
    }
}

/// The document of the outcomes of a migration tells which tenants were migrated, and of the others
/// why they were not.
pub proof fn outcomes_document_is_unique(
    applied_a: Seq<ManagementTenantTarget>,
    failed_a: Seq<FailedTenantMigration>,
    applied_b: Seq<ManagementTenantTarget>,
    failed_b: Seq<FailedTenantMigration>,
)
    requires
        outcomes_document(applied_a, failed_a) == outcomes_document(applied_b, failed_b),
    ensures
        applied_a.len() == applied_b.len(),
        forall|i: int|
            0 <= i < applied_a.len() ==> same_target(#[trigger] applied_a[i], applied_b[i]),
        failed_a.len() == failed_b.len(),
        forall|i: int|
            0 <= i < failed_a.len() ==> same_failure(#[trigger] failed_a[i], failed_b[i]),
{
    lemma_applied_members(applied_a, applied_b);
    lemma_failed_members(failed_a, failed_b);
    let x = seq![applied_member(applied_a), failed_member(failed_a)];
    let y = seq![applied_member(applied_b), failed_member(failed_b)];
    lemma_objects_are_delimited(x, y, 0);
    assert(x[0] == y[0] && x[1] == y[1]);
}

/// The document of the tenants that were migrated to IAM tells which they are.
pub proof fn iam_document_is_unique(
    a: Seq<ManagementTenantTarget>,
    b: Seq<ManagementTenantTarget>,
)
    requires
        iam_document(a) == iam_document(b),
    ensures
        a.len() == b.len(),
        forall|i: int| 0 <= i < a.len() ==> same_target(#[trigger] a[i], b[i]),
{
    lemma_applied_members(a, b);
    let (x, y) = (seq![applied_member(a)], seq![applied_member(b)]);
    lemma_objects_are_delimited(x, y, 0);
    assert(x[0] == y[0]);
}

/// The document of whether the root database is initialized holds that truth value under its key.
pub proof fn root_document_tells_its_value(initialized: bool)
    ensures
        initialized ==> has_line(root_document(initialized), 1, json_member("initialized"@, "true"@)),
        !initialized ==> has_line(
            root_document(initialized),
            1,
            json_member("initialized"@, "false"@),
        ),
{
    let members = seq![json_member("initialized"@, json_bool(initialized))];
    lemma_object_holds_members(members, 0);
    assert(has_line(root_document(initialized), 1, members[0]));
}

/// A tenant's object holds each field of the tenant under the key with its name: a text as a string,
/// and a value that is missing as null.
pub proof fn tenant_object_names_each_field(tenant: ManagedTenant, depth: nat)
    ensures
        ({
            let object = tenant_object(tenant, depth);
            let line = depth + 1;
            &&& has_line(object, line, json_member("env"@, json_string(tenant.env@)))
            &&& has_line(object, line, json_member("id"@, json_string(hyphenated(tenant.id))))
            &&& has_line(object, line, json_member("name"@, json_string(tenant.name@)))
            &&& has_line(object, line, json_member("db_name"@, json_string(tenant.db_name@)))
            &&& tenant.db_secret_name matches Some(text) ==> has_line(
                object,
                line,
                json_member("db_secret_name"@, json_string(text@)),
            )
            &&& tenant.db_secret_name is None ==> has_line(
                object,
                line,
                json_member("db_secret_name"@, "null"@),
            )
            &&& tenant.db_iam_user_name matches Some(text) ==> has_line(
                object,
                line,
                json_member("db_iam_user_name"@, json_string(text@)),
            )
            &&& tenant.db_iam_user_name is None ==> has_line(
                object,
                line,
                json_member("db_iam_user_name"@, "null"@),
            )
            &&& has_line(object, line, json_member("s3_name"@, json_string(tenant.s3_name@)))
            &&& has_line(
                object,
                line,
                json_member("os_index_name"@, json_string(tenant.os_index_name@)),
            )
            &&& tenant.event_queue_url matches Some(text) ==> has_line(
                object,
                line,
                json_member("event_queue_url"@, json_string(text@)),
            )
            &&& tenant.event_queue_url is None ==> has_line(
                object,
                line,
                json_member("event_queue_url"@, "null"@),
            )
        }),
{
    let members = tenant_members(tenant);
    let (object, line) = (tenant_object(tenant, depth), depth + 1);
    lemma_object_holds_members(members, depth);
    assert(has_line(object, line, members[0]) && has_line(object, line, members[1]));
    assert(has_line(object, line, members[2]) && has_line(object, line, members[3]));
    assert(has_line(object, line, members[4]) && has_line(object, line, members[5]));
    assert(has_line(object, line, members[6]) && has_line(object, line, members[7]));
    assert(has_line(object, line, members[8]));
}

/// A target's object holds each field of the target under the key with its name.
pub proof fn target_object_names_each_field(target: ManagementTenantTarget, depth: nat)
    ensures
        ({
            let object = target_object(target, depth);
            let line = depth + 1;
            &&& has_line(object, line, json_member("id"@, json_string(hyphenated(target.id))))
            &&& has_line(object, line, json_member("name"@, json_string(target.name@)))
            &&& has_line(object, line, json_member("env"@, json_string(target.env@)))
        }),
{
    let members = target_members(target);
    let (object, line) = (target_object(target, depth), depth + 1);
    lemma_object_holds_members(members, depth);
    assert(has_line(object, line, members[0]) && has_line(object, line, members[1]));
    assert(has_line(object, line, members[2]));
}

/// A failure's object holds its own target and its own error under their keys.
pub proof fn failed_object_names_each_field(failed: FailedTenantMigration, depth: nat)
    ensures
        ({
            let object = failed_object(failed, depth);
            let line = depth + 1;
            &&& has_line(object, line, json_member("target"@, target_object(failed.target, line)))
            &&& has_line(object, line, json_member("error"@, json_string(failed.error@)))
        }),
{
    let members = failed_members(failed, depth);
    let (object, line) = (failed_object(failed, depth), depth + 1);
    lemma_object_holds_members(members, depth);
    assert(has_line(object, line, members[0]) && has_line(object, line, members[1]));
}

/// The documents hold every tenant that they are of, and under the key of its list an empty list where
/// there is none.
pub proof fn documents_hold_every_tenant(
    tenants: Seq<ManagedTenant>,
    applied: Seq<ManagementTenantTarget>,
    failed: Seq<FailedTenantMigration>,
)
    ensures
        forall|i: int|
            0 <= i < tenants.len() ==> has_line(
                tenants_document(tenants),
                2,
                tenant_object(#[trigger] tenants[i], 2),
            ),
        forall|i: int|
            0 <= i < applied.len() ==> has_line(
                iam_document(applied),
                2,
                target_object(#[trigger] applied[i], 2),
            ) && has_line(outcomes_document(applied, failed), 2, target_object(applied[i], 2)),
        forall|i: int|
            0 <= i < failed.len() ==> has_line(
                outcomes_document(applied, failed),
                2,
                failed_object(#[trigger] failed[i], 2),
            ),
        tenants.len() == 0 ==> has_line(
            tenants_document(tenants),
            1,
            json_member("tenants"@, seq!['[', ']']),
        ),
        applied.len() == 0 ==> has_line(
            outcomes_document(applied, failed),
            1,
            json_member("applied_tenants"@, seq!['[', ']']),
        ) && has_line(iam_document(applied), 1, json_member("applied_tenants"@, seq!['[', ']'])),
        failed.len() == 0 ==> has_line(
            outcomes_document(applied, failed),
            1,
            json_member("failed_tenants"@, seq!['[', ']']),
        ),
{
    let (x, y, z) = (tenant_objects(tenants), target_objects(applied), failed_objects(failed));
    let (u, v, w) = (json_list(x, 1), json_list(y, 1), json_list(z, 1));
    let member = json_member("tenants"@, u);
    lemma_object_holds_members(seq![member], 0);
    assert(has_line(tenants_document(tenants), 1, seq![member][0]));
    let members = seq![applied_member(applied), failed_member(failed)];
    lemma_object_holds_members(members, 0);
    assert(has_line(outcomes_document(applied, failed), 1, members[0]));
    assert(has_line(outcomes_document(applied, failed), 1, members[1]));
    lemma_object_holds_members(seq![applied_member(applied)], 0);
    assert(has_line(iam_document(applied), 1, seq![applied_member(applied)][0]));
    lemma_list_holds_values(x, 1);
    lemma_list_holds_values(y, 1);
    lemma_list_holds_values(z, 1);
    assert forall|i: int| 0 <= i < tenants.len() implies has_line(
        tenants_document(tenants),
        2,
        tenant_object(#[trigger] tenants[i], 2),
    ) by {
        assert(has_line(u, 2, x[i]));
        lemma_listed_lines(tenants_document(tenants), "tenants"@, u, 2, x[i]);
    }
    assert forall|i: int| 0 <= i < applied.len() implies has_line(
        iam_document(applied),
        2,
        target_object(#[trigger] applied[i], 2),
    ) && has_line(outcomes_document(applied, failed), 2, target_object(applied[i], 2)) by {
        assert(has_line(v, 2, y[i]));
        lemma_listed_lines(iam_document(applied), "applied_tenants"@, v, 2, y[i]);
        lemma_listed_lines(outcomes_document(applied, failed), "applied_tenants"@, v, 2, y[i]);
    }
    assert forall|i: int| 0 <= i < failed.len() implies has_line(
        outcomes_document(applied, failed),
        2,
        failed_object(#[trigger] failed[i], 2),
    ) by {
        assert(has_line(w, 2, z[i]));
        lemma_listed_lines(outcomes_document(applied, failed), "failed_tenants"@, w, 2, z[i]);
    }
}

/// A list in a document stands under its own key, and its items are those of the reply in their order.
pub proof fn lists_stand_under_their_keys(
    tenants: Seq<ManagedTenant>,
    applied: Seq<ManagementTenantTarget>,
    failed: Seq<FailedTenantMigration>,
    items: Seq<Seq<char>>,
)
    ensures
        items.len() == tenants.len() && (forall|i: int|
            0 <= i < items.len() ==> #[trigger] items[i] == tenant_object(tenants[i], 2))
            ==> has_line(
            tenants_document(tenants),
            1,
            json_member("tenants"@, json_list(items, 1)),
        ),
        items.len() == applied.len() && (forall|i: int|
            0 <= i < items.len() ==> #[trigger] items[i] == target_object(applied[i], 2)) ==> {
            let member = json_member("applied_tenants"@, json_list(items, 1));
            &&& has_line(outcomes_document(applied, failed), 1, member)
            &&& has_line(iam_document(applied), 1, member)
        },
        items.len() == failed.len() && (forall|i: int|
            0 <= i < items.len() ==> #[trigger] items[i] == failed_object(failed[i], 2)) ==> {
            let member = json_member("failed_tenants"@, json_list(items, 1));
            has_line(outcomes_document(applied, failed), 1, member)
        },
{
    let member = json_member("tenants"@, json_list(tenant_objects(tenants), 1));
    lemma_object_holds_members(seq![member], 0);
    assert(has_line(tenants_document(tenants), 1, seq![member][0]));
    let members = seq![applied_member(applied), failed_member(failed)];
    lemma_object_holds_members(members, 0);
    assert(has_line(outcomes_document(applied, failed), 1, members[0]));
    assert(has_line(outcomes_document(applied, failed), 1, members[1]));
    lemma_object_holds_members(seq![applied_member(applied)], 0);
    assert(has_line(iam_document(applied), 1, seq![applied_member(applied)][0]));
    if items.len() == tenants.len() && (forall|i: int|
        0 <= i < items.len() ==> #[trigger] items[i] == tenant_object(tenants[i], 2)) {
        assert(items =~= tenant_objects(tenants));
    }
    if items.len() == applied.len() && (forall|i: int|
        0 <= i < items.len() ==> #[trigger] items[i] == target_object(applied[i], 2)) {
        assert(items =~= target_objects(applied));
    }
    if items.len() == failed.len() && (forall|i: int|
        0 <= i < items.len() ==> #[trigger] items[i] == failed_object(failed[i], 2)) {
        assert(items =~= failed_objects(failed));
    }
}

/// Whether one document is another with an item more at the end of a list, which is followed by a
/// text.
pub open spec fn lists_one_more(
    document: Seq<char>,
    longer: Seq<char>,
    item: Seq<char>,
    rest: Seq<char>,
) -> bool {
    exists|before: Seq<char>|
        document == #[trigger] (before + (new_line(1) + rest)) && longer == before + (seq![',']
            + new_line(2) + item) + (new_line(1) + rest)
}

/// Where the list of a member grows, so does the document.
proof fn lemma_document_grows(
    head: Seq<char>,
    key: Seq<char>,
    values: Seq<Seq<char>>,
    value: Seq<char>,
    tail: Seq<char>,
)
    requires
        values.len() > 0,
    ensures
        lists_one_more(
            head + json_member(key, json_list(values, 1)) + tail,
            head + json_member(key, json_list(values.push(value), 1)) + tail,
            value,
            seq![']'] + tail,
        ),
{
    let body = lemma_list_grows(values, value, 1);
    let before = head + json_string(key) + seq![':', ' '] + body;
    let rest = seq![']'] + tail;
    assert(head + json_member(key, json_list(values, 1)) + tail =~= before + (new_line(1) + rest));
    assert(head + json_member(key, json_list(values.push(value), 1)) + tail =~= before + (seq![',']
        + new_line(2) + value) + (new_line(1) + rest));
}

/// The document of a list of tenants that is followed by another is that of the list with the other
/// put in at its end.
pub proof fn tenants_are_told_in_order(tenants: Seq<ManagedTenant>, tenant: ManagedTenant)
    requires
        tenants.len() > 0,
    ensures
        lists_one_more(
            tenants_document(tenants),
            tenants_document(tenants.push(tenant)),
            tenant_object(tenant, 2),
            seq![']', '\n', '}'],
        ),
{
    let values = tenant_objects(tenants);
    let more = tenant_objects(tenants.push(tenant));
    let value = tenant_object(tenant, 2);
    let (head, tail) = (seq!['{'] + new_line(1), new_line(0) + seq!['}']);
    assert(more =~= values.push(value));
    lemma_document_grows(head, "tenants"@, values, value, tail);
    let m = json_member("tenants"@, json_list(values, 1));
    let n = json_member("tenants"@, json_list(more, 1));
    assert(tenants_document(tenants) =~= head + m + tail);
    assert(tenants_document(tenants.push(tenant)) =~= head + n + tail);
    assert(seq![']'] + tail =~= seq![']', '\n', '}']);
}

/// The document of tenants that were migrated to IAM and another is that of the former with the
/// other put in at the end of the list.
pub proof fn iam_migrations_are_told_in_order(
    applied: Seq<ManagementTenantTarget>,
    target: ManagementTenantTarget,
)
    requires
        applied.len() > 0,
    ensures
        lists_one_more(
            iam_document(applied),
            iam_document(applied.push(target)),
            target_object(target, 2),
            seq![']', '\n', '}'],
        ),
{
    let values = target_objects(applied);
    let more = target_objects(applied.push(target));
    let value = target_object(target, 2);
    let (head, tail) = (seq!['{'] + new_line(1), new_line(0) + seq!['}']);
    assert(more =~= values.push(value));
    lemma_document_grows(head, "applied_tenants"@, values, value, tail);
    assert(iam_document(applied) =~= head + applied_member(applied) + tail);
    assert(iam_document(applied.push(target)) =~= head + applied_member(applied.push(target)) + tail);
    assert(seq![']'] + tail =~= seq![']', '\n', '}']);
}

/// The document of the outcomes of a migration with one tenant more that was migrated is that of the
/// others with this one put in at the end of a list.
pub proof fn migrated_tenants_are_told_in_order(
    applied: Seq<ManagementTenantTarget>,
    failed: Seq<FailedTenantMigration>,
    target: ManagementTenantTarget,
)
    requires
        applied.len() > 0,
    ensures
        exists|rest: Seq<char>|
            rest.len() > 0 && rest[0] == ']' && #[trigger] lists_one_more(
                outcomes_document(applied, failed),
                outcomes_document(applied.push(target), failed),
                target_object(target, 2),
                rest,
            ),
{
    let (values, value) = (target_objects(applied), target_object(target, 2));
    let more = applied.push(target);
    assert(target_objects(more) =~= values.push(value));
    lemma_two_members(applied, failed);
    lemma_two_members(more, failed);
    let head = seq!['{'] + new_line(1);
    let tail = seq![','] + new_line(1) + failed_member(failed) + new_line(0) + seq!['}'];
    lemma_document_grows(head, "applied_tenants"@, values, value, tail);
    assert(outcomes_document(applied, failed) =~= head + applied_member(applied) + tail);
    assert(outcomes_document(more, failed) =~= head + applied_member(more) + tail);
    assert((seq![']'] + tail)[0] == ']');
}

/// The document of the outcomes of a migration with one tenant more that was not migrated is that of
/// the others with this one put in at the end of the last list.
pub proof fn failures_are_told_in_order(
    applied: Seq<ManagementTenantTarget>,
    failed: Seq<FailedTenantMigration>,
    failure: FailedTenantMigration,
)
    requires
        failed.len() > 0,
    ensures
        lists_one_more(
            outcomes_document(applied, failed),
            outcomes_document(applied, failed.push(failure)),
            failed_object(failure, 2),
            seq![']', '\n', '}'],
        ),
{
    let (values, value) = (failed_objects(failed), failed_object(failure, 2));
    let more = failed.push(failure);
    assert(failed_objects(more) =~= values.push(value));
    lemma_two_members(applied, failed);
    lemma_two_members(applied, more);
    let head = seq!['{'] + new_line(1) + applied_member(applied) + seq![','] + new_line(1);
    let tail = new_line(0) + seq!['}'];
    lemma_document_grows(head, "failed_tenants"@, values, value, tail);
    assert(outcomes_document(applied, failed) =~= head + failed_member(failed) + tail);
    assert(outcomes_document(applied, more) =~= head + failed_member(more) + tail);
    assert(seq![']'] + tail =~= seq![']', '\n', '}']);
}

/// The document of the outcomes of a migration, with its two members side by side.
proof fn lemma_two_members(
    applied: Seq<ManagementTenantTarget>,
    failed: Seq<FailedTenantMigration>,
)
    ensures
        outcomes_document(applied, failed) == seq!['{'] + new_line(1) + applied_member(applied)
            + seq![','] + new_line(1) + failed_member(failed) + new_line(0) + seq!['}'],
{
    let members = seq![applied_member(applied), failed_member(failed)];
    reveal_with_fuel(json_lines, 3);
    assert(members.drop_last() =~= seq![applied_member(applied)]);
    assert(outcomes_document(applied, failed) =~= seq!['{'] + new_line(1) + applied_member(applied)
        + seq![','] + new_line(1) + failed_member(failed) + new_line(0) + seq!['}']);
}

} // verus!
