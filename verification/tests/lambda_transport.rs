use docbox_lambda_cli::lambda_transport::{
    advance, unknown_function_error, Diagnostic, ExchangeAction, ExchangeEvent, FunctionConfig, Invocation,
    InvokeOutput, LambdaManagementError, ManagementError,
};
use docbox_management_interface::{DocboxManagementCommand, GetTenantInput, GetTenantsInput};

fn sample_config() -> FunctionConfig {
    FunctionConfig {
        name: "management".to_string(),
        qualifier: Some("live".to_string()),
        tenant_id: None,
    }
}

fn exchange_step(event: ExchangeEvent<u8>) -> ExchangeAction<u8> {
    advance(event)
}

fn reply_step(function_error: Option<&str>, payload: Option<&[u8]>) -> ExchangeAction<u8> {
    exchange_step(ExchangeEvent::Invoked(Ok(InvokeOutput {
        function_error: function_error.map(|kind| kind.to_string()),
        payload: payload.map(|bytes| bytes.to_vec()),
    })))
}

fn service_error(action: ExchangeAction<u8>) -> LambdaManagementError {
    match action {
        ExchangeAction::Finish(Err(ManagementError::Service(error))) => error,
        other => panic!("not a service error: {:?}", other),
    }
}

fn json_error() -> serde_json::Error {
    serde_json::from_str::<bool>("x").unwrap_err()
}

fn diagnostic_error(error_type: &str, error_message: &str) -> ManagementError {
    let diagnostic = Diagnostic {
        error_type: error_type.to_string(),
        error_message: error_message.to_string(),
    };
    match exchange_step(ExchangeEvent::DiagnosticParsed(Ok(diagnostic))) {
        ExchangeAction::Finish(Err(error)) => error,
        other => panic!("not an error: {:?}", other),
    }
}

#[test]
fn a_message_is_sent_to_the_function() {
    assert_eq!(
        sample_config().invocation(Ok("{}".to_string())).unwrap(),
        Invocation {
            payload: "{}".to_string(),
            function_name: "management".to_string(),
            qualifier: Some("live".to_string()),
            tenant_id: None,
        }
    );
}

#[test]
fn a_request_that_cannot_be_serialised() {
    match sample_config().invocation(Err(json_error())) {
        Err(ManagementError::Service(error)) => {
            assert!(matches!(error, LambdaManagementError::SerializeRequest(_)));
            assert_eq!(error.message(), "failed to serialize request");
        }
        other => panic!("not a service error: {:?}", other),
    }
}

#[test]
fn a_function_that_cannot_be_invoked() {
    let event = ExchangeEvent::Invoked(Err("dispatch failure".to_string()));
    let error = service_error(exchange_step(event));
    assert!(matches!(&error, LambdaManagementError::InvokeLambda(reason) if reason == "dispatch failure"));
    assert_eq!(error.message(), "failed to invoke lambda: dispatch failure");
}

#[test]
fn a_response_without_payload() {
    for function_error in vec![None, Some("Handled"), Some("Unhandled")] {
        let error = service_error(reply_step(function_error, None));
        assert!(matches!(error, LambdaManagementError::MissingResponse));
        assert_eq!(error.message(), "missing response payload");
    }
}

#[test]
fn a_response_is_parsed() {
    assert!(matches!(
        reply_step(None, Some(b"5")),
        ExchangeAction::ParseResponse(payload) if payload == b"5"
    ));
    assert!(matches!(
        exchange_step(ExchangeEvent::ResponseParsed(Ok(5))),
        ExchangeAction::Finish(Ok(5))
    ));
}

#[test]
fn a_response_that_cannot_be_parsed() {
    let error = service_error(exchange_step(ExchangeEvent::ResponseParsed(Err(
        json_error(),
    ))));
    assert!(matches!(error, LambdaManagementError::ParseResponse(_)));
    assert_eq!(error.message(), "failed to parse response from server");
}

#[test]
fn a_diagnostic_that_cannot_be_parsed() {
    let error = service_error(exchange_step(ExchangeEvent::DiagnosticParsed(Err(
        json_error(),
    ))));
    assert!(matches!(error, LambdaManagementError::ParseResponse(_)));
}

#[test]
fn a_handled_error_is_diagnosed() {
    assert!(matches!(
        reply_step(Some("Handled"), Some(b"{}")),
        ExchangeAction::ParseDiagnostic(payload) if payload == b"{}"
    ));
}

#[test]
fn an_unhandled_error_is_reported_with_its_payload() {
    let error = service_error(reply_step(Some("Unhandled"), Some("crash \u{e9}".as_bytes())));
    match &error {
        LambdaManagementError::UnknownFunctionError(kind, payload) => {
            assert_eq!(kind, "Unhandled");
            assert_eq!(payload, "crash \u{e9}");
        }
        other => panic!("not an unknown error: {:?}", other),
    }
    assert_eq!(
        error.message(),
        "unknown function error (Unhandled): crash \u{e9}"
    );
}

#[test]
fn a_payload_that_is_not_text_is_decoded_with_replacements() {
    let error = service_error(reply_step(Some("handled"), Some(b"a\xffb")));
    assert_eq!(
        error.message(),
        "unknown function error (handled): a\u{fffd}b"
    );
}

#[test]
fn an_unknown_function_error_keeps_its_parts() {
    let error = unknown_function_error("Kind".to_string(), "payload".to_string());
    match error {
        ManagementError::Service(error) => {
            assert_eq!(error.message(), "unknown function error (Kind): payload")
        }
        other => panic!("not a service error: {:?}", other),
    }
}

#[test]
fn an_error_of_the_service() {
    match diagnostic_error("SERVICE_ERROR", "no database") {
        ManagementError::Service(error) => {
            assert!(matches!(&error, LambdaManagementError::Service(_)));
            assert_eq!(error.message(), "service error: no database");
        }
        other => panic!("not a service error: {:?}", other),
    }
}

#[test]
fn an_operation_that_is_not_supported() {
    assert!(matches!(
        diagnostic_error("UNSUPPORTED_OPERATION", "ignored"),
        ManagementError::UnsupportedOperation
    ));
}

#[test]
fn a_response_that_the_service_cannot_serialise() {
    match diagnostic_error("SERIALIZE_RESPONSE", "bad value") {
        ManagementError::SerializeResponse(error) => {
            assert_eq!(error.to_string(), "bad value");
            assert_eq!(error.line(), 0);
        }
        other => panic!("not a serialisation error: {:?}", other),
    }
}

#[test]
fn a_position_is_read_from_a_serialisation_error() {
    match diagnostic_error("SERIALIZE_RESPONSE", "bad value at line 3 column 4") {
        ManagementError::SerializeResponse(error) => {
            assert_eq!(error.line(), 3);
            assert_eq!(error.column(), 4);
        }
        other => panic!("not a serialisation error: {:?}", other),
    }
}

#[test]
fn an_error_of_unknown_type() {
    for error_type in vec!["", "service_error", "SERVICE_ERROR "] {
        match diagnostic_error(error_type, "secret") {
            ManagementError::Service(error) => {
                assert!(matches!(&error, LambdaManagementError::Unknown(message) if message == "secret"));
                assert_eq!(error.message(), "unknown error type");
            }
            other => panic!("not a service error: {:?}", other),
        }
    }
}

#[test]
fn a_failing_function_never_succeeds() {
    for kind in vec!["", "Handled", "Unhandled"] {
        for payload in vec![None, Some(&b"5"[..])] {
            assert!(!matches!(
                reply_step(Some(kind), payload),
                ExchangeAction::ParseResponse(_) | ExchangeAction::Finish(Ok(_))
            ));
        }
    }
}

#[test]
fn a_command_is_sent_as_json() {
    let payload = |command: DocboxManagementCommand| {
        let invocation = sample_config().invocation_of(&command).unwrap();
        assert_eq!(invocation.function_name, "management");
        assert_eq!(invocation.qualifier, Some("live".to_string()));
        assert_eq!(invocation.tenant_id, None);
        invocation.payload
    };
    assert_eq!(
        payload(DocboxManagementCommand::CreateRoot),
        "{\"command\":\"CreateRoot\"}"
    );
    assert_eq!(
        payload(DocboxManagementCommand::GetTenants(GetTenantsInput {
            env: None
        })),
        "{\"command\":\"GetTenants\",\"payload\":{\"env\":null}}"
    );
    assert_eq!(
        payload(DocboxManagementCommand::GetTenant(GetTenantInput {
            env: "dev".to_string(),
            tenant_id: uuid::Uuid::from_u128(7),
        })),
        "{\"command\":\"GetTenant\",\"payload\":{\"env\":\"dev\",\
         \"tenant_id\":\"00000000-0000-0000-0000-000000000007\"}}"
    );
}
