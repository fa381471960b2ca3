use autocomplete_broker::protocol::{
    AutocompleteContext, AutocompleteMode, AutocompleteOptions, AutocompleteRequest,
    AutocompleteResponse, ClientInfo, CursorPosition, DocumentInfo, ErrorCode, ProtocolError,
    ResponseMetadata, TriggerKind, Validate, ValidationLimits, PROTOCOL_VERSION,
};

fn valid_request() -> AutocompleteRequest {
    AutocompleteRequest {
        protocol_version: PROTOCOL_VERSION,
        request_id: 0x018f160e_7152_7b43_9d9a_6083e0bd3cc8,
        client: ClientInfo { name: "vscode".to_owned(), version: "0.1.0".to_owned() },
        document: DocumentInfo {
            uri: "file:///workspace/src/greeting.ts".to_owned(),
            language_id: "typescript".to_owned(),
            version: 7,
        },
        cursor: CursorPosition { line: 4, character: 22, offset: 96 },
        context: AutocompleteContext {
            prefix: "function greet(name: string) {\n  return `Hello, ${name}`;\n}\n\nconst message = greet(".to_owned(),
            suffix: ";\nconsole.log(message);\n".to_owned(),
            selected_text: String::new(),
        },
        options: AutocompleteOptions {
            mode: AutocompleteMode::InlineTab,
            max_chars: 180,
            deadline_ms: 2500,
            trigger: TriggerKind::Idle,
        },
    }
}

fn valid_ok_response() -> AutocompleteResponse {
    AutocompleteResponse::Suggestion {
        protocol_version: PROTOCOL_VERSION,
        request_id: 0x018f160e_7152_7b43_9d9a_6083e0bd3cc8,
        insert_text: "\"Ada\")".to_owned(),
        confidence_bits: 0.82f64.to_bits(),
        source: "mock".to_owned(),
        metadata: Some(ResponseMetadata { latency_ms: 3, provider_latency_ms: 1, postprocessed: true }),
    }
}

#[test]
fn request_validation_reports_field_paths_for_semantic_errors() {
    let mut request = valid_request();
    request.protocol_version = 2;
    request.client.name.clear();
    request.options.max_chars = 0;
    request.options.deadline_ms = 30_001;

    let errors = request.validate().expect_err("request should be invalid");
    let fields: Vec<_> = errors.iter().map(|error| error.field.as_str()).collect();

    assert_eq!(
        fields,
        [
            "protocol_version",
            "client.name",
            "options.max_chars",
            "options.deadline_ms"
        ]
    );
}

#[test]
fn custom_validation_limits_reject_over_budget_context() {
    let request = valid_request();
    let limits = ValidationLimits {
        max_context_bytes: 4,
        ..ValidationLimits::default()
    };

    let errors = request
        .validate_with_limits(limits)
        .expect_err("context should be over budget");
    assert!(errors.iter().any(|error| error.field == "context"));
}

#[test]
fn ok_response_requires_insert_text_and_confidence_in_range() {
    let mut response = valid_ok_response();
    let AutocompleteResponse::Suggestion {
        insert_text,
        confidence_bits,
        ..
    } = &mut response
    else {
        panic!("fixture is ok response");
    };
    insert_text.clear();
    *confidence_bits = 1.1f64.to_bits();

    let errors = response.validate().expect_err("response should be invalid");
    let fields: Vec<_> = errors.iter().map(|error| error.field.as_str()).collect();
    assert_eq!(fields, ["insert_text", "confidence"]);
}

#[test]
fn fixtures_are_valid() {
    assert!(valid_request().validate().is_ok());
    assert!(valid_ok_response().validate().is_ok());
    let error = AutocompleteResponse::Error {
        protocol_version: PROTOCOL_VERSION,
        request_id: 1,
        error: ProtocolError { code: ErrorCode::ProviderTimeout, message: "late".to_owned() },
        metadata: None,
    };
    assert!(error.validate().is_ok());
}

#[test]
fn validation_messages_are_exact() {
    let mut request = valid_request();
    request.protocol_version = 7;
    request.document.language_id = "x".repeat(65);
    request.context.selected_text = "é".repeat(40_000);
    request.options.max_chars = 5000;
    let errors = request.validate().unwrap_err();
    let texts: Vec<String> = errors.iter().map(|e| e.display_text()).collect();
    assert_eq!(
        texts,
        [
            "protocol_version: expected 1, got 7",
            "document.language_id: must be at most 64 bytes, got 65",
            "context.selected_text: must be at most 65536 bytes, got 80000",
            "options.max_chars: must be between 1 and 4096, got 5000",
        ]
    );
    assert!(!errors.is_empty());
    assert_eq!(errors.into_inner().len(), 4);

    let limits = ValidationLimits { max_context_bytes: 4, ..ValidationLimits::default() };
    let errors = valid_request().validate_with_limits(limits).unwrap_err();
    assert_eq!(errors.0[0].message, "prefix + suffix must be at most 4 bytes, got 107");
}

#[test]
fn blank_text_is_empty_and_confidence_bounds_are_inclusive() {
    let mut request = valid_request();
    request.client.version = " \t\u{3000}".to_owned();
    let errors = request.validate().unwrap_err();
    assert_eq!(errors.0[0].field, "client.version");
    assert_eq!(errors.0[0].message, "must not be empty");

    for (value, ok) in [(0.0f64, true), (-0.0, true), (1.0, true), (-1e-300, false), (f64::NAN, false), (1.0000000000000002, false)] {
        let mut response = valid_ok_response();
        if let AutocompleteResponse::Suggestion { confidence_bits, .. } = &mut response {
            *confidence_bits = value.to_bits();
        }
        assert_eq!(response.validate().is_ok(), ok, "confidence {value}");
    }

    let bad_version = AutocompleteResponse::Cancelled { protocol_version: 3, request_id: 9, metadata: None };
    let errors = bad_version.validate().unwrap_err();
    assert_eq!(errors.0[0].display_text(), "protocol_version: expected 1, got 3");
}
