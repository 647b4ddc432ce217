//! Requests to the management service through a Lambda function.
//!
//! A request is an exchange of a few steps with the outside: the command is serialised, the
//! function is invoked with it, and its reply is parsed. What the function is invoked with is
//! decided by [`FunctionConfig::invocation_of`], and what happens from then on by [`advance`].
use crate::interface::{command_json, serialize_command};
use crate::json::{custom_error, custom_json_error};
use docbox_management_interface::DocboxManagementCommand;
use vstd::prelude::*;
use vstd::std_specs::convert::FromSpecImpl;
use vstd::utf8::{decode_utf8, valid_utf8};

verus! {

/// The function that stands for the management service.
#[derive(Debug, PartialEq, Eq)]
pub struct FunctionConfig {
    /// Name of the function
    pub name: String,
    /// Version or alias of the function
    pub qualifier: Option<String>,
    /// Identifier of the tenant in a multi-tenant function
    pub tenant_id: Option<String>,
}

/// An error of the transport itself, or one that the function reports.
#[derive(Debug)]
pub enum LambdaManagementError {
    /// The request could not be serialised
    SerializeRequest(serde_json::Error),
    /// The function could not be invoked, for the given reason
    InvokeLambda(String),
    /// The response could not be parsed
    ParseResponse(serde_json::Error),
    /// The function failed in a way that it did not handle: the kind of failure and the payload
    UnknownFunctionError(String, String),
    /// The service reports an error
    Service(String),
    /// The service reports an error of an unknown type
    Unknown(String),
    /// The response has no payload
    MissingResponse,
}

/// Why a request to the management service was not carried out.
#[derive(Debug)]
pub enum ManagementError {
    /// The service does not support the operation
    UnsupportedOperation,
    /// The service could not serialise its response
    SerializeResponse(serde_json::Error),
    /// Any other error
    Service(LambdaManagementError),
}

impl From<LambdaManagementError> for ManagementError {
    fn from(value: LambdaManagementError) -> (error: ManagementError) {
        ManagementError::Service(value)
    }
}

impl FromSpecImpl<LambdaManagementError> for ManagementError {
    open spec fn obeys_from_spec() -> bool {
        true
    }

    open spec fn from_spec(value: LambdaManagementError) -> ManagementError {
        ManagementError::Service(value)
    }
}

impl LambdaManagementError {
    /// What is displayed of the error.
    pub open spec fn text(self) -> Seq<char> {
        match self {
            LambdaManagementError::SerializeRequest(_) => "failed to serialize request"@,
            LambdaManagementError::InvokeLambda(reason) => "failed to invoke lambda: "@ + reason@,
            LambdaManagementError::ParseResponse(_) => "failed to parse response from server"@,
            LambdaManagementError::UnknownFunctionError(kind, payload) => {
                "unknown function error ("@ + kind@ + "): "@ + payload@
            },
            LambdaManagementError::Service(message) => "service error: "@ + message@,
            LambdaManagementError::Unknown(_) => "unknown error type"@,
            LambdaManagementError::MissingResponse => "missing response payload"@,
        }
    }

    /// What is displayed of the error.
    pub fn message(&self) -> (text: String)
        ensures
            text@ == self.text(),
    {
        match self {
            LambdaManagementError::SerializeRequest(_) => "failed to serialize request".to_string(),
            LambdaManagementError::InvokeLambda(reason) => {
                "failed to invoke lambda: ".to_string().concat(reason.as_str())
            },
            LambdaManagementError::ParseResponse(_) => {
                "failed to parse response from server".to_string()
            },
            LambdaManagementError::UnknownFunctionError(kind, payload) => {
                "unknown function error (".to_string().concat(kind.as_str()).concat("): ").concat(
                    payload.as_str(),
                )
            },
            LambdaManagementError::Service(message) => {
                "service error: ".to_string().concat(message.as_str())
            },
            LambdaManagementError::Unknown(_) => "unknown error type".to_string(),
            LambdaManagementError::MissingResponse => "missing response payload".to_string(),
        }
    }
}

/// Whether a text reads as given.
fn reads(text: &String, word: &str) -> (same: bool)
    ensures
        same == (text@ == word@),
{
    *text == word.to_string()
}

/// What the function says of an error that it handled.
#[derive(Debug, PartialEq, Eq)]
pub struct Diagnostic {
    /// The type of the error
    pub error_type: String,
    /// The message of the error
    pub error_message: String,
}

impl Diagnostic {
    /// The error that the diagnostic stands for.
    pub open spec fn error(self) -> ManagementError {
        if self.error_type@ == "SERVICE_ERROR"@ {
            ManagementError::Service(LambdaManagementError::Service(self.error_message))
        } else if self.error_type@ == "UNSUPPORTED_OPERATION"@ {
            ManagementError::UnsupportedOperation
        } else if self.error_type@ == "SERIALIZE_RESPONSE"@ {
            ManagementError::SerializeResponse(custom_json_error(self.error_message@))
        } else {
            ManagementError::Service(LambdaManagementError::Unknown(self.error_message))
        }
    }

    /// The error that the diagnostic stands for.
    pub fn into_error(self) -> (error: ManagementError)
        ensures
            error == self.error(),
    {
        if reads(&self.error_type, "SERVICE_ERROR") {
            ManagementError::from(LambdaManagementError::Service(self.error_message))
        } else if reads(&self.error_type, "UNSUPPORTED_OPERATION") {
            ManagementError::UnsupportedOperation
        } else if reads(&self.error_type, "SERIALIZE_RESPONSE") {
            ManagementError::SerializeResponse(custom_error(self.error_message))
        } else {
            ManagementError::from(LambdaManagementError::Unknown(self.error_message))
        }
    }
}

/// The text that std decodes bytes to where it replaces what is not UTF-8.
pub uninterp spec fn lossy_utf8(bytes: Seq<u8>) -> Seq<char>;

/// Calls `String::from_utf8_lossy`.
///
/// Claimed of std: the text is determined by the bytes, and is what the bytes encode where they are
/// valid UTF-8. What stands in the place of invalid bytes is left unsaid.
#[verifier::external_body]
fn from_utf8_lossy(bytes: &Vec<u8>) -> (text: String)
    ensures
        text@ == lossy_utf8(bytes@),
        valid_utf8(bytes@) ==> text@ == decode_utf8(bytes@),
{
    String::from_utf8_lossy(bytes).to_string()
}

/// An invocation of the function.
#[derive(Debug, PartialEq, Eq)]
pub struct Invocation {
    /// What the function is handed
    pub payload: String,
    /// Name of the function
    pub function_name: String,
    /// Version or alias of the function
    pub qualifier: Option<String>,
    /// Identifier of the tenant in a multi-tenant function
    pub tenant_id: Option<String>,
}

/// What came back from an invocation of the function.
#[derive(Debug, PartialEq, Eq)]
pub struct InvokeOutput {
    /// The kind of failure, where the function failed
    pub function_error: Option<String>,
    /// What the function handed back
    pub payload: Option<Vec<u8>>,
}

/// What the outside reports of an invocation that is to end in a `T`.
#[derive(Debug)]
pub enum ExchangeEvent<T> {
    /// The function was invoked; the error is the displayed reason why it was not
    Invoked(Result<InvokeOutput, String>),
    /// The payload was parsed as a diagnostic
    DiagnosticParsed(Result<Diagnostic, serde_json::Error>),
    /// The payload was parsed as the response
    ResponseParsed(Result<T, serde_json::Error>),
}

/// What the outside is to do next of an invocation that is to end in a `T`.
#[derive(Debug)]
pub enum ExchangeAction<T> {
    /// Parse the bytes as a diagnostic
    ParseDiagnostic(Vec<u8>),
    /// Parse the bytes as the response
    ParseResponse(Vec<u8>),
    /// Nothing more: this is the outcome
    Finish(Result<T, ManagementError>),
}

/// The error for a function that failed in a way that it did not handle.
pub fn unknown_function_error(function_error: String, payload_utf8: String) -> (error:
    ManagementError)
    ensures
        error == ManagementError::Service(
            LambdaManagementError::UnknownFunctionError(function_error, payload_utf8),
        ),
{
    ManagementError::from(
        LambdaManagementError::UnknownFunctionError(function_error, payload_utf8),
    )
}

impl FunctionConfig {
    /// What the function is invoked with for a serialised command, or the error where the command
    /// could not be serialised.
    pub fn invocation(&self, message: Result<String, serde_json::Error>) -> (result: Result<
        Invocation,
        ManagementError,
    >)
        ensures
            match message {
                Ok(message) => result == Ok::<Invocation, ManagementError>(
                    Invocation {
                        payload: message,
                        function_name: self.name,
                        qualifier: self.qualifier,
                        tenant_id: self.tenant_id,
                    },
                ),
                Err(error) => result == Err::<Invocation, ManagementError>(
                    ManagementError::Service(LambdaManagementError::SerializeRequest(error)),
                ),
            },
    {
        match message {
            Ok(message) => Ok(
                Invocation {
                    payload: message,
                    function_name: self.name.clone(),
                    qualifier: self.qualifier.clone(),
                    tenant_id: self.tenant_id.clone(),
                },
            ),
            Err(error) => Err(
                ManagementError::from(LambdaManagementError::SerializeRequest(error)),
            ),
        }
    }

    /// What the function is invoked with for a command, or the error where the command could not
    /// be serialised.
    pub fn invocation_of(&self, command: &DocboxManagementCommand) -> (result: Result<
        Invocation,
        ManagementError,
    >)
        ensures
            result is Ok,
            match command_json(*command) {
                Ok(text) => {
                    &&& result matches Ok(invocation)
                    &&& invocation.payload@ == text
                    &&& invocation.function_name == self.name
                    &&& invocation.qualifier == self.qualifier
                    &&& invocation.tenant_id == self.tenant_id
                },
                Err(error) => result == Err::<Invocation, ManagementError>(
                    ManagementError::Service(LambdaManagementError::SerializeRequest(error)),
                ),
            },
    {
        self.invocation(serialize_command(command))
    }
}

/// Whether `action` is what follows `event`.
pub open spec fn step<T>(event: ExchangeEvent<T>, action: ExchangeAction<T>) -> bool {
    match event {
        ExchangeEvent::Invoked(Ok(output)) => follows_reply(output, action),
        ExchangeEvent::Invoked(Err(reason)) => fails(
            action,
            LambdaManagementError::InvokeLambda(reason),
        ),
        ExchangeEvent::DiagnosticParsed(Ok(diagnostic)) => action == ExchangeAction::<T>::Finish(
            Err(diagnostic.error()),
        ),
        ExchangeEvent::DiagnosticParsed(Err(error)) => fails(
            action,
            LambdaManagementError::ParseResponse(error),
        ),
        ExchangeEvent::ResponseParsed(Ok(response)) => action == ExchangeAction::<T>::Finish(
            Ok(response),
        ),
        ExchangeEvent::ResponseParsed(Err(error)) => fails(
            action,
            LambdaManagementError::ParseResponse(error),
        ),
    }
}

/// Decides what follows `event`.
pub fn advance<T>(event: ExchangeEvent<T>) -> (action: ExchangeAction<T>)
    ensures
        step(event, action),
{
    match event {
        ExchangeEvent::Invoked(Ok(output)) => accept_reply(output),
        ExchangeEvent::Invoked(Err(reason)) => fail(LambdaManagementError::InvokeLambda(reason)),
        ExchangeEvent::DiagnosticParsed(Ok(diagnostic)) => ExchangeAction::Finish(
            Err(diagnostic.into_error()),
        ),
        ExchangeEvent::DiagnosticParsed(Err(error)) => fail(
            LambdaManagementError::ParseResponse(error),
        ),
        ExchangeEvent::ResponseParsed(Ok(response)) => ExchangeAction::Finish(Ok(response)),
        ExchangeEvent::ResponseParsed(Err(error)) => fail(
            LambdaManagementError::ParseResponse(error),
        ),
    }
}

/// Whether the exchange ends in `error`.
pub open spec fn fails<T>(action: ExchangeAction<T>, error: LambdaManagementError) -> bool {
    action == ExchangeAction::<T>::Finish(Err(ManagementError::Service(error)))
}

/// Whether `action` is what follows the reply of the function.
pub open spec fn follows_reply<T>(output: InvokeOutput, action: ExchangeAction<T>) -> bool {
    match (output.function_error, output.payload) {
        (_, None) => fails(action, LambdaManagementError::MissingResponse),
        (None, Some(payload)) => action == ExchangeAction::<T>::ParseResponse(payload),
        (Some(function_error), Some(payload)) => if function_error@ == "Handled"@ {
            action == ExchangeAction::<T>::ParseDiagnostic(payload)
        } else {
            &&& action matches ExchangeAction::Finish(Err(ManagementError::Service(
                LambdaManagementError::UnknownFunctionError(kind, text),
            )))
            &&& kind == function_error
            &&& text@ == lossy_utf8(payload@)
            &&& valid_utf8(payload@) ==> text@ == decode_utf8(payload@)
        },
    }
}

/// Ends the exchange in `error`.
fn fail<T>(error: LambdaManagementError) -> (action: ExchangeAction<T>)
    ensures
        fails(action, error),
{
    ExchangeAction::Finish(Err(ManagementError::from(error)))
}

/// Decides what follows the reply of the function.
fn accept_reply<T>(output: InvokeOutput) -> (action: ExchangeAction<T>)
    ensures
        follows_reply(output, action),
{
    match (output.function_error, output.payload) {
        (_, None) => fail(LambdaManagementError::MissingResponse),
        (None, Some(payload)) => ExchangeAction::ParseResponse(payload),
        (Some(function_error), Some(payload)) => if reads(&function_error, "Handled") {
            ExchangeAction::ParseDiagnostic(payload)
        } else {
            let payload_utf8 = from_utf8_lossy(&payload);
            ExchangeAction::Finish(Err(unknown_function_error(function_error, payload_utf8)))
        },
    }
}

/// Whether `event` reports how `action` went.
pub open spec fn answers<T>(event: ExchangeEvent<T>, action: ExchangeAction<T>) -> bool {
    match action {
        ExchangeAction::ParseDiagnostic(_) => event is DiagnosticParsed,
        ExchangeAction::ParseResponse(_) => event is ResponseParsed,
        ExchangeAction::Finish(_) => false,
    }
}

/// Whether `events` and `actions` alternate as after an invocation, which need not be finished.
pub open spec fn is_exchange<T>(
    events: Seq<ExchangeEvent<T>>,
    actions: Seq<ExchangeAction<T>>,
) -> bool {
    &&& events.len() == actions.len() > 0
    &&& events[0] is Invoked
    &&& forall|i: int| 0 <= i < events.len() ==> step(events[i], #[trigger] actions[i])
    &&& forall|i: int|
        0 <= i < events.len() - 1 ==> answers(events[i + 1], #[trigger] actions[i])
}

/// After an invocation at most one payload is parsed, and then the exchange is finished.
pub proof fn exchange_ends<T>(events: Seq<ExchangeEvent<T>>, actions: Seq<ExchangeAction<T>>)
    requires
        is_exchange(events, actions),
    ensures
        events.len() <= 2,
        events.len() == 2 ==> actions.last() is Finish,
{
    assert(step(events[0], actions[0]));
    if events.len() > 1 {
        assert(answers(events[1], actions[0]));
        assert(step(events[1], actions[1]));
    }
    if events.len() > 2 {
        assert(answers(events[2], actions[1]));
    }
}

/// An exchange succeeds if and only if the function was invoked and did not fail, and the payload
/// that came back was parsed as the response: that response is then the outcome.
pub proof fn success_needs_every_step<T>(
    events: Seq<ExchangeEvent<T>>,
    actions: Seq<ExchangeAction<T>>,
    response: T,
)
    requires
        is_exchange(events, actions),
    ensures
        actions.last() == ExchangeAction::<T>::Finish(Ok(response)) <==> {
            &&& events.len() == 2
            &&& events[0] matches ExchangeEvent::Invoked(Ok(output))
            &&& output.function_error is None
            &&& output.payload matches Some(payload)
            &&& actions[0] == ExchangeAction::<T>::ParseResponse(payload)
            &&& events[1] == ExchangeEvent::<T>::ResponseParsed(Ok(response))
        },
{
    exchange_ends(events, actions);
    assert(step(events[0], actions[0]));
    if events.len() > 1 {
        assert(answers(events[1], actions[0]));
        assert(step(events[1], actions[1]));
    }
}

/// A function that reports a failure never makes the exchange succeed, whatever it hands back.
pub proof fn reported_failure_is_an_error<T>(
    events: Seq<ExchangeEvent<T>>,
    actions: Seq<ExchangeAction<T>>,
    output: InvokeOutput,
)
    requires
        is_exchange(events, actions),
        events[0] == ExchangeEvent::<T>::Invoked(Ok(output)),
        output.function_error is Some,
    ensures
        !(actions.last() matches ExchangeAction::Finish(Ok(_))),
        actions[0] !is ParseResponse,
{
    if let ExchangeAction::Finish(Ok(response)) = actions.last() {
        success_needs_every_step(events, actions, response);
    }
    assert(step(events[0], actions[0]));
}

/// The type of a diagnostic is told from the error that it stands for.
pub proof fn diagnostic_types_are_told_apart(diagnostic: Diagnostic)
    ensures
        diagnostic.error_type@ == "SERVICE_ERROR"@ <==> diagnostic.error() == (
        ManagementError::Service(LambdaManagementError::Service(diagnostic.error_message))),
        diagnostic.error_type@ == "UNSUPPORTED_OPERATION"@ <==> diagnostic.error()
            == ManagementError::UnsupportedOperation,
        diagnostic.error_type@ == "SERIALIZE_RESPONSE"@ <==> diagnostic.error()
            == ManagementError::SerializeResponse(custom_json_error(diagnostic.error_message@)),
{
    reveal_strlit("SERVICE_ERROR");
    reveal_strlit("UNSUPPORTED_OPERATION");
    reveal_strlit("SERIALIZE_RESPONSE");
    assert("SERVICE_ERROR"@.len() == 13);
    assert("UNSUPPORTED_OPERATION"@.len() == 21);
    assert("SERIALIZE_RESPONSE"@.len() == 18);
}

/// What is displayed of an error carries what went wrong, after words that say where: the reason why
/// the function was not invoked, the kind and the payload of a failure that it did not handle, and
/// the message of the service. Nothing more is shown of any other error.
pub proof fn error_texts_carry_their_causes(error: LambdaManagementError, message: String)
    requires
        call_ensures(LambdaManagementError::message, (&error,), message),
    ensures
        error matches LambdaManagementError::InvokeLambda(reason) ==> {
            let n = "failed to invoke lambda: "@.len() as int;
            message@.take(n) == "failed to invoke lambda: "@ && message@.skip(n) == reason@
        },
        error matches LambdaManagementError::Service(cause) ==> {
            let n = "service error: "@.len() as int;
            message@.take(n) == "service error: "@ && message@.skip(n) == cause@
        },
        error matches LambdaManagementError::UnknownFunctionError(kind, payload) ==> {
            let n = "unknown function error ("@.len() as int;
            let m = n + kind@.len();
            &&& message@.take(n) == "unknown function error ("@
            &&& message@.subrange(n, m) == kind@
            &&& message@.subrange(m, m + "): "@.len()) == "): "@
            &&& message@.skip(m + "): "@.len()) == payload@
        },
        error is Unknown ==> message@ == "unknown error type"@,
        error is SerializeRequest ==> message@ == "failed to serialize request"@,
        error is ParseResponse ==> message@ == "failed to parse response from server"@,
        error is MissingResponse ==> message@ == "missing response payload"@,
{
}

/// Errors with different causes are displayed differently, wherever the cause is displayed.
pub proof fn causes_are_told_apart(
    a: LambdaManagementError,
    b: LambdaManagementError,
    x: String,
    y: String,
)
    requires
        call_ensures(LambdaManagementError::message, (&a,), x),
        call_ensures(LambdaManagementError::message, (&b,), y),
        x@ == y@,
    ensures
        a is InvokeLambda && b is InvokeLambda ==> a->InvokeLambda_0@ == b->InvokeLambda_0@,
        a is Service && b is Service ==> a->Service_0@ == b->Service_0@,
        a is UnknownFunctionError && b is UnknownFunctionError ==> {
            a->UnknownFunctionError_0@ == b->UnknownFunctionError_0@ <==> a->UnknownFunctionError_1@
                == b->UnknownFunctionError_1@
        },
{
    error_texts_carry_their_causes(a, x);
    error_texts_carry_their_causes(b, y);
    if a is UnknownFunctionError && b is UnknownFunctionError {
        assert(a->UnknownFunctionError_0@.len() + a->UnknownFunctionError_1@.len()
            == b->UnknownFunctionError_0@.len() + b->UnknownFunctionError_1@.len());
    }
}

/// A diagnostic stands for the error that its type names, and keeps its message where the error has
/// one; one of a type that is not known stands for an error of an unknown type.
pub proof fn diagnostics_keep_their_message(diagnostic: Diagnostic, error: ManagementError)
    requires
        call_ensures(Diagnostic::into_error, (diagnostic,), error),
    ensures
        error == diagnostic.error(),
        error is UnsupportedOperation <==> diagnostic.error_type@ == "UNSUPPORTED_OPERATION"@,
        error is SerializeResponse <==> diagnostic.error_type@ == "SERIALIZE_RESPONSE"@,
        error is SerializeResponse ==> error->SerializeResponse_0 == custom_json_error(
            diagnostic.error_message@,
        ),
        (error matches ManagementError::Service(cause) && cause is Service)
            <==> diagnostic.error_type@ == "SERVICE_ERROR"@,
        error matches ManagementError::Service(cause) ==> {
            ||| cause == LambdaManagementError::Service(diagnostic.error_message)
            ||| cause == LambdaManagementError::Unknown(diagnostic.error_message)
        },
{
    diagnostic_types_are_told_apart(diagnostic);
}

/// A failure that the function did not handle is reported with its own kind and payload.
pub proof fn unhandled_failure_is_reported(kind: String, payload: String, error: ManagementError)
    requires
        call_ensures(unknown_function_error, (kind, payload), error),
    ensures
        error matches ManagementError::Service(LambdaManagementError::UnknownFunctionError(k, p))
            && k == kind && p == payload,
{
}

/// What follows the reply of the function goes by whether it failed and whether it handed something
/// back: without a payload the response is missing, without a failure the payload is the response, a
/// failure that the function handled has its payload read as a diagnostic, and any other is an error
/// with the kind of the failure and the payload as a text.
pub proof fn reply_is_taken_as_it_comes<T>(output: InvokeOutput, action: ExchangeAction<T>)
    requires
        call_ensures(advance::<T>, (ExchangeEvent::Invoked(Ok(output)),), action),
    ensures
        action is Finish <==> output.payload is None || (output.function_error matches Some(kind)
            && kind@ != "Handled"@),
        output.payload is None <==> action == ExchangeAction::<T>::Finish(
            Err(ManagementError::Service(LambdaManagementError::MissingResponse)),
        ),
        output.payload is Some && output.function_error is None <==> action is ParseResponse,
        output.payload is Some && (output.function_error matches Some(kind) && kind@ == "Handled"@)
            <==> action is ParseDiagnostic,
        action matches ExchangeAction::ParseResponse(bytes) ==> Some(bytes) == output.payload,
        action matches ExchangeAction::ParseDiagnostic(bytes) ==> Some(bytes) == output.payload,
        action is Finish && output.payload is Some ==> {
            &&& action matches ExchangeAction::Finish(Err(ManagementError::Service(
                LambdaManagementError::UnknownFunctionError(kind, text),
            )))
            &&& Some(kind) == output.function_error
            &&& text@ == lossy_utf8(output.payload->0@)
            &&& valid_utf8(output.payload->0@) ==> text@ == decode_utf8(output.payload->0@)
        },
{
}

/// What fails on the way ends the exchange with its own error, and a diagnostic with the error that
/// it stands for; what was parsed as the response is the outcome.
pub proof fn every_step_hands_on_its_outcome<T>(event: ExchangeEvent<T>, action: ExchangeAction<T>)
    requires
        call_ensures(advance::<T>, (event,), action),
    ensures
        event matches ExchangeEvent::Invoked(Err(reason)) ==> {
            &&& action matches ExchangeAction::Finish(Err(ManagementError::Service(
                LambdaManagementError::InvokeLambda(reported),
            )))
            &&& reported == reason
        },
        event matches ExchangeEvent::DiagnosticParsed(Err(error)) ==> {
            &&& action matches ExchangeAction::Finish(Err(ManagementError::Service(
                LambdaManagementError::ParseResponse(reported),
            )))
            &&& reported == error
        },
        event matches ExchangeEvent::ResponseParsed(Err(error)) ==> {
            &&& action matches ExchangeAction::Finish(Err(ManagementError::Service(
                LambdaManagementError::ParseResponse(reported),
            )))
            &&& reported == error
        },
        event matches ExchangeEvent::ResponseParsed(Ok(response)) ==> {
            &&& action matches ExchangeAction::Finish(Ok(outcome))
            &&& outcome == response
        },
        event matches ExchangeEvent::DiagnosticParsed(Ok(diagnostic)) ==> {
            &&& action matches ExchangeAction::Finish(Err(outcome))
            &&& outcome == diagnostic.error()
        },
{
}

/// The function is invoked with the serialised command itself, by its own name, qualifier and tenant,
/// each of which is left out where it was not given; a command that could not be serialised invokes
/// nothing and is reported with its own error.
pub proof fn invocation_is_of_the_function(
    config: FunctionConfig,
    message: Result<String, serde_json::Error>,
    result: Result<Invocation, ManagementError>,
)
    requires
        call_ensures(FunctionConfig::invocation, (&config, message), result),
    ensures
        result is Ok <==> message is Ok,
        result matches Ok(invocation) ==> {
            &&& invocation.payload == message->Ok_0
            &&& invocation.function_name == config.name
            &&& invocation.qualifier == config.qualifier
            &&& invocation.tenant_id == config.tenant_id
        },
        result matches Err(error) ==> error == ManagementError::Service(
            LambdaManagementError::SerializeRequest(message->Err_0),
        ),
{
}

/// Invocations tell their functions and commands apart: two that are equal are of the same function
/// and hand it the same text.
pub proof fn invocations_are_told_apart(
    a: FunctionConfig,
    b: FunctionConfig,
    c: DocboxManagementCommand,
    d: DocboxManagementCommand,
    invocation: Invocation,
)
    requires
        call_ensures(FunctionConfig::invocation_of, (&a, &c), Ok(invocation)),
        call_ensures(FunctionConfig::invocation_of, (&b, &d), Ok(invocation)),
    ensures
        a == b,
        command_json(c) == command_json(d),
        command_json(c) == Ok::<Seq<char>, serde_json::Error>(invocation.payload@),
        invocation.function_name == a.name,
        invocation.qualifier == a.qualifier,
        invocation.tenant_id == a.tenant_id,
{
}

} // verus!
