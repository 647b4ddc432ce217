//! How a command is carried out.
//!
//! Carrying out a command is a series of a few steps with the outside: a file may be read, the
//! management service is asked, and its reply is printed. What happens between the steps is decided
//! by [`advance`].
//!
//! The outside has errors of its own, which are carried through unread: `R` for reading a file and
//! `S` for asking the management service.
use crate::cli::{Commands, OutputFormat};
use crate::interface::{
    parse_tenant_config, tenant_config, DeleteTenantInput, DeleteTenantOptions, GetTenantInput,
    GetTenantsInput, MigrateTenantIAMInput, MigrateTenantInput, Reply,
    SetTenantAllowedCorsOriginsInput,
};
use crate::report::{report, report_view, shown, Block};
use docbox_management_interface::CreateTenantInput;
use std::path::PathBuf;
use vstd::prelude::*;

verus! {

/// What the outside reports.
#[derive(Debug)]
pub enum Event<R, S> {
    /// The user asks for a command
    Started(Commands),
    /// The file was read
    FileRead(Result<String, R>),
    /// The management service answered
    Answered(Result<Reply, S>),
}

/// Why a command was not carried out.
#[derive(Debug)]
pub enum Failure<R, S> {
    /// The file could not be read
    ReadTenantFile(R),
    /// The text of the file does not describe a tenant
    ParseTenantConfig(serde_json::Error),
    /// The management service failed, or could not be reached
    Service(S),
    /// There is no such tenant
    TenantNotFound,
    /// The reply could not be serialised
    SerializeReply(serde_json::Error),
}

/// A request to the management service.
#[derive(Debug)]
pub enum Request {
    CreateRoot,
    CheckRoot,
    CreateTenant(CreateTenantInput),
    DeleteTenant(DeleteTenantInput),
    GetTenants(GetTenantsInput),
    GetTenant(GetTenantInput),
    MigrateTenant(MigrateTenantInput),
    MigrateRoot,
    SetTenantAllowedCorsOrigins(SetTenantAllowedCorsOriginsInput),
    MigrateTenantIam(MigrateTenantIAMInput),
}

/// What the outside is to do next.
#[derive(Debug)]
pub enum Action<R, S> {
    /// Read the file
    ReadFile(PathBuf),
    /// Ask the management service
    Ask(Request),
    /// Print the output, and end
    Print(Vec<Block>),
    /// End with the failure
    Fail(Failure<R, S>),
}

impl<R, S> Failure<R, S> {
    /// What is displayed of the failure ahead of its cause, where anything is.
    pub open spec fn text(self) -> Option<Seq<char>> {
        match self {
            Failure::ReadTenantFile(_) => Some("failed to read tenant file"@),
            Failure::ParseTenantConfig(_) => Some("failed to parse tenant config"@),
            Failure::Service(_) | Failure::SerializeReply(_) => None,
            Failure::TenantNotFound => Some("tenant not found"@),
        }
    }

    /// What is displayed of the failure ahead of its cause, where anything is.
    pub fn context(&self) -> (context: Option<&'static str>)
        ensures
            context is Some <==> self.text() is Some,
            context is Some ==> context->0@ == self.text()->0,
    {
        match self {
            Failure::ReadTenantFile(_) => Some("failed to read tenant file"),
            Failure::ParseTenantConfig(_) => Some("failed to parse tenant config"),
            Failure::Service(_) | Failure::SerializeReply(_) => None,
            Failure::TenantNotFound => Some("tenant not found"),
        }
    }
}

/// Whether a flag is set. One that was not given is not.
pub open spec fn is_set(flag: Option<bool>) -> bool {
    flag == Some(true)
}

/// What a command begins with: a new tenant with reading the file that describes it, and anything
/// else with asking the management service for what the user gave.
pub open spec fn first_action<R, S>(command: Commands) -> Action<R, S> {
    match command {
        Commands::CreateRoot => Action::Ask(Request::CreateRoot),
        Commands::CheckRoot => Action::Ask(Request::CheckRoot),
        Commands::CreateTenant { file } => Action::ReadFile(file),
        Commands::DeleteTenant {
            env,
            tenant_id,
            delete_contents,
            delete_database,
            delete_search,
            delete_storage,
            permanently_delete_secret,
        } => Action::Ask(
            Request::DeleteTenant(
                DeleteTenantInput {
                    env,
                    tenant_id,
                    options: DeleteTenantOptions {
                        delete_contents: is_set(delete_contents),
                        delete_storage: is_set(delete_storage),
                        delete_search: is_set(delete_search),
                        delete_database: is_set(delete_database),
                        permanently_delete_secret: is_set(permanently_delete_secret),
                    },
                },
            ),
        ),
        Commands::GetTenants { env } => Action::Ask(Request::GetTenants(GetTenantsInput { env })),
        Commands::GetTenant { env, tenant_id } => Action::Ask(
            Request::GetTenant(GetTenantInput { env, tenant_id }),
        ),
        Commands::Migrate { env, tenant_id, skip_failed, service } => Action::Ask(
            Request::MigrateTenant(
                MigrateTenantInput { env, tenant_id, service, name: None, skip_failed },
            ),
        ),
        Commands::MigrateRoot => Action::Ask(Request::MigrateRoot),
        Commands::SetAllowedStorageCorsOrigins { env, tenant_id, origin } => Action::Ask(
            Request::SetTenantAllowedCorsOrigins(
                SetTenantAllowedCorsOriginsInput { env, tenant_id, origins: origin },
            ),
        ),
        Commands::MigrateTenantIam { env, tenant_id } => Action::Ask(
            Request::MigrateTenantIam(MigrateTenantIAMInput { env, tenant_id }),
        ),
    }
}

/// Whether `action` is what follows the attempt to parse the configuration of a new tenant.
pub open spec fn follows_config<R, S>(
    config: Result<CreateTenantInput, serde_json::Error>,
    action: Action<R, S>,
) -> bool {
    match config {
        Ok(config) => action == Action::<R, S>::Ask(Request::CreateTenant(config)),
        Err(error) => action == Action::<R, S>::Fail(Failure::ParseTenantConfig(error)),
    }
}

/// Whether `action` is what follows `event`.
pub open spec fn step<R, S>(
    format: OutputFormat,
    event: Event<R, S>,
    action: Action<R, S>,
) -> bool {
    match event {
        Event::Started(command) => action == first_action::<R, S>(command),
        Event::FileRead(Ok(text)) => follows_config(tenant_config(text@), action),
        Event::FileRead(Err(error)) => action == Action::<R, S>::Fail(
            Failure::ReadTenantFile(error),
        ),
        Event::Answered(Ok(reply)) => match report_view(format, reply) {
            Some(output) => action matches Action::Print(blocks) && shown(blocks@) == output,
            None => action == Action::<R, S>::Fail(Failure::TenantNotFound),
        },
        Event::Answered(Err(error)) => action == Action::<R, S>::Fail(
            Failure::Service(error),
        ),
    }
}

/// Whether a flag is set. One that was not given is not.
fn flag_is_set(flag: Option<bool>) -> (set: bool)
    ensures
        set == is_set(flag),
{
    match flag {
        Some(set) => set,
        None => false,
    }
}

/// Decides what a command begins with.
fn start<R, S>(command: Commands) -> (action: Action<R, S>)
    ensures
        action == first_action::<R, S>(command),
{
    match command {
        Commands::CreateRoot => Action::Ask(Request::CreateRoot),
        Commands::CheckRoot => Action::Ask(Request::CheckRoot),
        Commands::CreateTenant { file } => Action::ReadFile(file),
        Commands::DeleteTenant {
            env,
            tenant_id,
            delete_contents,
            delete_database,
            delete_search,
            delete_storage,
            permanently_delete_secret,
        } => {
            let options = DeleteTenantOptions {
                delete_contents: flag_is_set(delete_contents),
                delete_storage: flag_is_set(delete_storage),
                delete_search: flag_is_set(delete_search),
                delete_database: flag_is_set(delete_database),
                permanently_delete_secret: flag_is_set(permanently_delete_secret),
            };
            Action::Ask(Request::DeleteTenant(DeleteTenantInput { env, tenant_id, options }))
        },
        Commands::GetTenants { env } => Action::Ask(Request::GetTenants(GetTenantsInput { env })),
        Commands::GetTenant { env, tenant_id } => {
            Action::Ask(Request::GetTenant(GetTenantInput { env, tenant_id }))
        },
        Commands::Migrate { env, tenant_id, skip_failed, service } => {
            let input = MigrateTenantInput { env, tenant_id, service, name: None, skip_failed };
            Action::Ask(Request::MigrateTenant(input))
        },
        Commands::MigrateRoot => Action::Ask(Request::MigrateRoot),
        Commands::SetAllowedStorageCorsOrigins { env, tenant_id, origin } => {
            let input = SetTenantAllowedCorsOriginsInput { env, tenant_id, origins: origin };
            Action::Ask(Request::SetTenantAllowedCorsOrigins(input))
        },
        Commands::MigrateTenantIam { env, tenant_id } => {
            Action::Ask(Request::MigrateTenantIam(MigrateTenantIAMInput { env, tenant_id }))
        },
    }
}

/// Decides what follows the attempt to parse the configuration of a new tenant.
pub fn create_tenant<R, S>(config: Result<CreateTenantInput, serde_json::Error>) -> (action: Action<
    R,
    S,
>)
    ensures
        follows_config(config, action),
{
    match config {
        Ok(config) => Action::Ask(Request::CreateTenant(config)),
        Err(error) => Action::Fail(Failure::ParseTenantConfig(error)),
    }
}

/// Decides what follows `event`.
pub fn advance<R, S>(format: OutputFormat, event: Event<R, S>) -> (action: Action<
    R,
    S,
>)
    ensures
        step(format, event, action),
{
    match event {
        Event::Started(command) => start(command),
        Event::FileRead(Ok(text)) => create_tenant(parse_tenant_config(text.as_str())),
        Event::FileRead(Err(error)) => Action::Fail(Failure::ReadTenantFile(error)),
        Event::Answered(Ok(reply)) => match report(format, reply) {
            Ok(Some(blocks)) => Action::Print(blocks),
            Ok(None) => Action::Fail(Failure::TenantNotFound),
            Err(error) => Action::Fail(Failure::SerializeReply(error)),
        },
        Event::Answered(Err(error)) => Action::Fail(Failure::Service(error)),
    }
}

/// Whether `reply` is a reply to `request`.
pub open spec fn replies_to(reply: Reply, request: Request) -> bool {
    match request {
        Request::CreateRoot => reply is RootCreated,
        Request::CheckRoot => reply is RootChecked,
        Request::CreateTenant(_) => reply is TenantCreated,
        Request::DeleteTenant(_) => reply is TenantDeleted,
        Request::GetTenants(_) => reply is Tenants,
        Request::GetTenant(_) => reply is Tenant,
        Request::MigrateTenant(_) => reply is TenantsMigrated,
        Request::MigrateRoot => reply is RootMigrated,
        Request::SetTenantAllowedCorsOrigins(_) => reply is CorsOriginsSet,
        Request::MigrateTenantIam(_) => reply is TenantsMigratedToIam,
    }
}

/// Whether `event` reports how `action` went.
pub open spec fn answers<R, S>(
    event: Event<R, S>,
    action: Action<R, S>,
) -> bool {
    match action {
        Action::ReadFile(_) => event is FileRead,
        Action::Ask(request) => {
            &&& event matches Event::Answered(answer)
            &&& answer matches Ok(reply) ==> replies_to(reply, request)
        },
        Action::Print(_) | Action::Fail(_) => false,
    }
}

/// Whether `events` and `actions` alternate as in carrying out `command`, which need not be
/// finished.
pub open spec fn is_session<R, S>(
    format: OutputFormat,
    command: Commands,
    events: Seq<Event<R, S>>,
    actions: Seq<Action<R, S>>,
) -> bool {
    &&& events.len() == actions.len() > 0
    &&& events[0] == Event::<R, S>::Started(command)
    &&& forall|i: int| 0 <= i < events.len() ==> step(format, events[i], #[trigger] actions[i])
    &&& forall|i: int|
        0 <= i < events.len() - 1 ==> answers(events[i + 1], #[trigger] actions[i])
}

/// A command takes at most three steps, the management service is asked at most once, and its answer
/// ends the session.
pub proof fn service_is_asked_at_most_once<R, S>(
    format: OutputFormat,
    command: Commands,
    events: Seq<Event<R, S>>,
    actions: Seq<Action<R, S>>,
)
    requires
        is_session(format, command, events, actions),
    ensures
        events.len() <= 3,
        command !is CreateTenant ==> events.len() <= 2,
        events.last() is Answered ==> actions.last() is Print || actions.last() is Fail,
        forall|i: int| 0 <= i < actions.len() && actions[i] is Ask ==> i == if command
            is CreateTenant {
            1int
        } else {
            0int
        },
{
    assert(step(format, events[0], actions[0]));
    if events.len() > 1 {
        assert(answers(events[1], actions[0]));
        assert(step(format, events[1], actions[1]));
    }
    if events.len() > 2 {
        assert(answers(events[2], actions[1]));
        assert(step(format, events[2], actions[2]));
    }
    if events.len() > 3 {
        assert(answers(events[3], actions[2]));
    }
}

/// Output is printed only of a reply of the management service, which was asked for it: what is
/// printed is what is to be shown of that reply.
pub proof fn output_is_of_the_reply<R, S>(
    format: OutputFormat,
    command: Commands,
    events: Seq<Event<R, S>>,
    actions: Seq<Action<R, S>>,
    blocks: Vec<Block>,
)
    requires
        is_session(format, command, events, actions),
        actions.last() == Action::<R, S>::Print(blocks),
    ensures
        events.len() >= 2,
        actions[actions.len() - 2] matches Action::Ask(request) && {
            &&& events.last() matches Event::Answered(Ok(reply))
            &&& replies_to(reply, request)
            &&& report_view(format, reply) == Some(shown(blocks@))
        },
{
    let n = events.len() - 1;
    assert(step(format, events[n], actions[n]));
    if n > 0 {
        assert(answers(events[n], actions[n - 1]));
    }
}

/// That a tenant was not found is a failure of getting a tenant, and of nothing else.
pub proof fn only_getting_a_tenant_misses_one<R, S>(
    format: OutputFormat,
    command: Commands,
    events: Seq<Event<R, S>>,
    actions: Seq<Action<R, S>>,
)
    requires
        is_session(format, command, events, actions),
        actions.last() == Action::<R, S>::Fail(Failure::TenantNotFound),
    ensures
        command is GetTenant,
        events.last() == Event::<R, S>::Answered(Ok(Reply::Tenant { tenant: None })),
{
    service_is_asked_at_most_once(format, command, events, actions);
    let n = events.len() - 1;
    assert(step(format, events[0], actions[0]));
    assert(step(format, events[n], actions[n]));
    if n > 0 {
        assert(answers(events[n], actions[n - 1]));
        assert(step(format, events[n - 1], actions[n - 1]));
    }
    if n > 1 {
        assert(answers(events[n - 1], actions[n - 2]));
    }
}

/// The management service is never asked for a tenant whose configuration cannot be read or parsed.
pub proof fn unreadable_tenant_is_not_created<R, S>(
    format: OutputFormat,
    command: Commands,
    events: Seq<Event<R, S>>,
    actions: Seq<Action<R, S>>,
)
    requires
        is_session(format, command, events, actions),
        events.len() > 1,
        match events[1] {
            Event::FileRead(Ok(text)) => tenant_config(text@) is Err,
            Event::FileRead(Err(_)) => true,
            _ => false,
        },
    ensures
        events.len() == 2,
        actions[0] is ReadFile,
        actions[1] is Fail,
{
    assert(step(format, events[0], actions[0]));
    assert(answers(events[1], actions[0]));
    assert(step(format, events[1], actions[1]));
    if events.len() > 2 {
        assert(answers(events[2], actions[1]));
    }
}

/// A tenant is deleted along with exactly what the user flagged: each option is set if and only if
/// its own flag was given as true, whatever the other flags are.
pub proof fn deletion_is_what_was_flagged<R, S>(
    format: OutputFormat,
    command: Commands,
    action: Action<R, S>,
)
    requires
        call_ensures(advance::<R, S>, (format, Event::Started(command)), action),
        command is DeleteTenant,
    ensures
        action matches Action::Ask(Request::DeleteTenant(input)) && {
            &&& input.env == command->DeleteTenant_env
            &&& input.tenant_id == command->DeleteTenant_tenant_id
            &&& input.options.delete_contents <==> command->delete_contents == Some(true)
            &&& input.options.delete_database <==> command->delete_database == Some(true)
            &&& input.options.delete_search <==> command->delete_search == Some(true)
            &&& input.options.delete_storage <==> command->delete_storage == Some(true)
            &&& input.options.permanently_delete_secret <==> command->permanently_delete_secret
                == Some(true)
        },
{
}

/// Asking for tenants asks for those of the environment that the user gave, or for all of them where
/// the user gave none; asking for one tenant asks for the one that the user gave.
pub proof fn lookup_is_for_what_was_given<R, S>(
    format: OutputFormat,
    command: Commands,
    action: Action<R, S>,
)
    requires
        call_ensures(advance::<R, S>, (format, Event::Started(command)), action),
    ensures
        command is GetTenants ==> {
            &&& action matches Action::Ask(Request::GetTenants(input))
            &&& input.env == command->GetTenants_env
        },
        command is GetTenant ==> {
            &&& action matches Action::Ask(Request::GetTenant(input))
            &&& input.env == command->GetTenant_env
            &&& input.tenant_id == command->GetTenant_tenant_id
        },
{
}

/// A migration covers the environment, the tenant and the service that the user gave, each
/// unrestricted where the user gave none; it is never restricted to one migration by name, and goes
/// on past failures if and only if the user asked for that.
pub proof fn migration_covers_what_was_given<R, S>(
    format: OutputFormat,
    command: Commands,
    action: Action<R, S>,
)
    requires
        call_ensures(advance::<R, S>, (format, Event::Started(command)), action),
    ensures
        command is Migrate ==> {
            &&& action matches Action::Ask(Request::MigrateTenant(input))
            &&& input.env == command->Migrate_env
            &&& input.tenant_id == command->Migrate_tenant_id
            &&& input.service == command->service
            &&& input.skip_failed == command->skip_failed
            &&& input.name is None
        },
        command is MigrateTenantIam ==> {
            &&& action matches Action::Ask(Request::MigrateTenantIam(input))
            &&& input.env == command->MigrateTenantIam_env
            &&& input.tenant_id == command->MigrateTenantIam_tenant_id
        },
{
}

/// The origins that are set are those that the user gave, all of them and in their order, for the
/// tenant that the user gave.
pub proof fn origins_are_what_was_given<R, S>(
    format: OutputFormat,
    command: Commands,
    action: Action<R, S>,
)
    requires
        call_ensures(advance::<R, S>, (format, Event::Started(command)), action),
        command is SetAllowedStorageCorsOrigins,
    ensures
        action matches Action::Ask(Request::SetTenantAllowedCorsOrigins(input)) && {
            &&& input.env == command->SetAllowedStorageCorsOrigins_env
            &&& input.tenant_id == command->SetAllowedStorageCorsOrigins_tenant_id
            &&& input.origins@.len() == command->origin@.len()
            &&& forall|i: int|
                0 <= i < input.origins@.len() ==> #[trigger] input.origins@[i]
                    == command->origin@[i]
        },
{
}

/// A command on the root database asks for that and nothing else, and a new tenant begins with the
/// file that the user gave.
pub proof fn other_commands_begin_as_given<R, S>(
    format: OutputFormat,
    command: Commands,
    action: Action<R, S>,
)
    requires
        call_ensures(advance::<R, S>, (format, Event::Started(command)), action),
    ensures
        command is CreateRoot <==> action matches Action::Ask(Request::CreateRoot),
        command is CheckRoot <==> action matches Action::Ask(Request::CheckRoot),
        command is MigrateRoot <==> action matches Action::Ask(Request::MigrateRoot),
        command is CreateTenant <==> action is ReadFile,
        command is CreateTenant ==> action->ReadFile_0 == command->file,
{
}

/// What a command begins with tells the command: no two different ones begin alike, but for flags of
/// a deletion that were given as false or not at all.
pub proof fn commands_are_told_apart<R, S>(
    format: OutputFormat,
    a: Commands,
    b: Commands,
    action: Action<R, S>,
)
    requires
        call_ensures(advance::<R, S>, (format, Event::Started(a)), action),
        call_ensures(advance::<R, S>, (format, Event::Started(b)), action),
    ensures
        a !is DeleteTenant || b !is DeleteTenant ==> a == b,
        a is DeleteTenant && b is DeleteTenant ==> {
            &&& a->DeleteTenant_env == b->DeleteTenant_env
            &&& a->DeleteTenant_tenant_id == b->DeleteTenant_tenant_id
            &&& a->delete_contents == Some(true) <==> b->delete_contents == Some(true)
            &&& a->delete_database == Some(true) <==> b->delete_database == Some(true)
            &&& a->delete_search == Some(true) <==> b->delete_search == Some(true)
            &&& a->delete_storage == Some(true) <==> b->delete_storage == Some(true)
            &&& a->permanently_delete_secret == Some(true) <==> b->permanently_delete_secret
                == Some(true)
        },
{
}

/// The tenant that is created is the one that the file describes; a file that could not be read, a
/// text that describes no tenant and a service that fails each end the session with their own error.
pub proof fn outcomes_are_handed_on<R, S>(
    format: OutputFormat,
    text: String,
    read_error: R,
    service_error: S,
    a: Action<R, S>,
    b: Action<R, S>,
    c: Action<R, S>,
)
    requires
        call_ensures(advance::<R, S>, (format, Event::FileRead(Ok(text))), a),
        call_ensures(advance::<R, S>, (format, Event::FileRead(Err(read_error))), b),
        call_ensures(advance::<R, S>, (format, Event::Answered(Err(service_error))), c),
    ensures
        tenant_config(text@) matches Ok(config) ==> {
            &&& a matches Action::Ask(Request::CreateTenant(input))
            &&& input == config
        },
        tenant_config(text@) matches Err(error) ==> {
            &&& a matches Action::Fail(Failure::ParseTenantConfig(reported))
            &&& reported == error
        },
        b matches Action::Fail(Failure::ReadTenantFile(reported)) && reported == read_error,
        c matches Action::Fail(Failure::Service(reported)) && reported == service_error,
{
}

/// A configuration that was parsed is the one that the service is asked to create, and one that was
/// not ends the session with its own error.
pub proof fn parsed_tenant_is_the_one_created<R, S>(
    config: Result<CreateTenantInput, serde_json::Error>,
    action: Action<R, S>,
)
    requires
        call_ensures(create_tenant::<R, S>, (config,), action),
    ensures
        config matches Ok(config) ==> {
            &&& action matches Action::Ask(Request::CreateTenant(input))
            &&& input == config
        },
        config matches Err(error) ==> {
            &&& action matches Action::Fail(Failure::ParseTenantConfig(reported))
            &&& reported == error
        },
{
}

/// What the service answers is printed in the format that was chosen, whatever the answer, unless it
/// is that there is no such tenant: then the session fails with that.
pub proof fn answer_is_printed<R, S>(format: OutputFormat, reply: Reply, action: Action<R, S>)
    requires
        call_ensures(advance::<R, S>, (format, Event::Answered(Ok(reply))), action),
    ensures
        action is Fail <==> reply == (Reply::Tenant { tenant: None }),
        action is Fail ==> action->Fail_0 is TenantNotFound,
        action !is Fail ==> {
            &&& action matches Action::Print(blocks)
            &&& report_view(format, reply) == Some(shown(blocks@))
        },
{
}

/// A failure of reading or parsing the tenant, and a tenant that was not found, are named ahead of
/// their cause; a failure of the service or of the output is displayed as it is.
pub proof fn failures_are_named<R, S>(failure: Failure<R, S>, context: Option<&'static str>)
    requires
        call_ensures(Failure::<R, S>::context, (&failure,), context),
    ensures
        context is None <==> failure is Service || failure is SerializeReply,
        failure is ReadTenantFile ==> context->0@ == "failed to read tenant file"@,
        failure is ParseTenantConfig ==> context->0@ == "failed to parse tenant config"@,
        failure is TenantNotFound ==> context->0@ == "tenant not found"@,
{
}

} // verus!
