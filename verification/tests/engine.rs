use autocomplete_broker::engine::{cancelled_response, join_errors, metadata, millis_saturating, EngineCore};
use autocomplete_broker::mock::{MockProvider, MOCK_CONFIDENCE_BITS};
use autocomplete_broker::postprocess::PostprocessorPipeline;
use autocomplete_broker::protocol::{
    AutocompleteContext, AutocompleteMode, AutocompleteOptions, AutocompleteRequest,
    AutocompleteResponse, ClientInfo, CursorPosition, DocumentInfo, ErrorCode, TriggerKind,
    Validate, PROTOCOL_VERSION,
};
use autocomplete_broker::provider::{
    CompletionCandidate, ProviderDiagnostics, ProviderError, ProviderOutput, ProviderResult,
};

fn fixture_request() -> AutocompleteRequest {
    AutocompleteRequest {
        protocol_version: PROTOCOL_VERSION,
        request_id: 0x018f160e_7152_7b43_9d9a_6083e0bd3cc8,
        client: ClientInfo { name: "vscode".to_owned(), version: "0.1.0".to_owned() },
        document: DocumentInfo {
            uri: "file:///workspace/src/greeting.ts".to_owned(),
            language_id: "typescript".to_owned(),
            version: 7,
        },
        cursor: CursorPosition { line: 4, character: 22, offset: 96 },
        context: AutocompleteContext {
            prefix: "function greet(name: string) {\n  return `Hello, ${name}`;\n}\n\nconst message = greet(".to_owned(),
            suffix: ";\nconsole.log(message);\n".to_owned(),
            selected_text: String::new(),
        },
        options: AutocompleteOptions {
            mode: AutocompleteMode::InlineTab,
            max_chars: 180,
            deadline_ms: 2500,
            trigger: TriggerKind::Idle,
        },
    }
}

/// Runs a request through the engine's decisions with a mock provider that
/// answers in time and is not cancelled.
fn complete_with_mock(engine: &EngineCore, provider: &MockProvider, request: &AutocompleteRequest) -> AutocompleteResponse {
    if let Some(response) = engine.screen(request, false, 0) {
        return response;
    }
    let outcome = provider.respond(false);
    engine.finish(request, outcome, 1, 1)
}

#[test]
fn engine_returns_mock_completion_after_removing_repeated_prefix() {
    let request = fixture_request();
    let provider = MockProvider::new("greet(\"Ada\")".to_owned());
    let engine = EngineCore::new(PostprocessorPipeline::default());

    let response = complete_with_mock(&engine, &provider, &request);

    let AutocompleteResponse::Suggestion { insert_text, source, metadata, .. } = response else {
        panic!("expected ok response, got {response:?}");
    };
    assert_eq!(insert_text, "\"Ada\")");
    assert_eq!(source, "mock");
    assert!(metadata.expect("metadata").postprocessed);
}

#[test]
fn mock_provider_returns_deterministic_completion_for_obsidian_style_requests() {
    let mut request = fixture_request();
    request.client.name = "obsidian".to_owned();
    request.document.uri = "file:///vault/notes/today.md".to_owned();
    request.document.language_id = "markdown".to_owned();
    request.context.prefix = "Today I learned".to_owned();
    request.context.suffix.clear();
    let engine = EngineCore::new(PostprocessorPipeline::default());
    let provider = MockProvider::new(" that deterministic mocks are useful.".to_owned());

    let response = complete_with_mock(&engine, &provider, &request);

    let AutocompleteResponse::Suggestion { insert_text, source, .. } = response else {
        panic!("expected ok response, got {response:?}");
    };
    assert_eq!(insert_text, " that deterministic mocks are useful.");
    assert_eq!(source, "mock");
}

#[test]
fn engine_returns_provider_timeout_when_deadline_expires() {
    let mut request = fixture_request();
    request.options.deadline_ms = 10;
    let engine = EngineCore::new(PostprocessorPipeline::default());
    let provider = MockProvider::new("\"Ada\")".to_owned()).with_delay(200);

    assert!(engine.screen(&request, false, 0).is_none());
    // The provider's delay outlasts the request deadline.
    assert!(provider.delay_ms().expect("delay") > request.options.deadline_ms);
    let response = engine.finish(&request, Err(ProviderError::Timeout), 10, 10);

    let AutocompleteResponse::Error { error, .. } = response else {
        panic!("expected timeout error, got {response:?}");
    };
    assert_eq!(error.code, ErrorCode::ProviderTimeout);
    assert_eq!(error.message, "Autocomplete provider exceeded deadline.");
}

#[test]
fn engine_returns_cancelled_when_token_is_cancelled_during_provider_call() {
    let request = fixture_request();
    let engine = EngineCore::new(PostprocessorPipeline::default());
    let provider = MockProvider::new("\"Ada\")".to_owned()).with_delay(200);

    assert!(engine.screen(&request, false, 0).is_none());
    // The token is cancelled while the provider waits out its delay.
    let outcome = provider.respond(true);
    let response = engine.finish(&request, outcome, 10, 10);

    assert!(matches!(response, AutocompleteResponse::Cancelled { .. }));
}

#[test]
fn engine_rejects_invalid_and_already_cancelled_requests_before_the_provider() {
    let engine = EngineCore::new(PostprocessorPipeline::default());
    let mut invalid = fixture_request();
    invalid.client.name.clear();
    let Some(AutocompleteResponse::Error { request_id, error, metadata, .. }) =
        engine.screen(&invalid, false, 7)
    else {
        panic!("expected an invalid request error");
    };
    assert_eq!(request_id, invalid.request_id);
    assert_eq!(error.code, ErrorCode::InvalidRequest);
    assert_eq!(error.message, "client.name: must not be empty");
    let metadata = metadata.expect("metadata");
    assert_eq!(metadata.latency_ms, 7);
    assert_eq!(metadata.provider_latency_ms, 0);
    assert!(!metadata.postprocessed);

    let request = fixture_request();
    assert!(matches!(
        engine.screen(&request, true, 0),
        Some(AutocompleteResponse::Cancelled { .. })
    ));
    assert!(engine.screen(&request, false, 0).is_none());
}

#[test]
fn engine_maps_provider_outcomes_to_responses() {
    let engine = EngineCore::new(PostprocessorPipeline::default());
    let request = fixture_request();

    let no_suggestion = engine.finish(&request, Ok(ProviderOutput::NoSuggestion), 5, 3);
    let AutocompleteResponse::NoSuggestion { metadata, .. } = no_suggestion else {
        panic!("expected no suggestion");
    };
    let metadata = metadata.expect("metadata");
    assert_eq!((metadata.latency_ms, metadata.provider_latency_ms), (5, 3));
    assert!(!metadata.postprocessed);

    let malformed: ProviderResult = Err(ProviderError::malformed(
        "bad json".to_owned(),
        ProviderDiagnostics::default(),
    ));
    let AutocompleteResponse::Error { error, .. } = engine.finish(&request, malformed, 1, 1) else {
        panic!("expected an error");
    };
    assert_eq!(error.code, ErrorCode::ProviderMalformedOutput);
    assert_eq!(error.message, "bad json");

    let failed: ProviderResult =
        Err(ProviderError::failed("spawn failed".to_owned(), ProviderDiagnostics::default()));
    let AutocompleteResponse::Error { error, .. } = engine.finish(&request, failed, 1, 1) else {
        panic!("expected an error");
    };
    assert_eq!(error.code, ErrorCode::ProviderError);
    assert_eq!(error.message, "spawn failed");

    // Prose is rejected by the pipeline and becomes no suggestion, postprocessed.
    let prose = Ok(ProviderOutput::Candidate(CompletionCandidate::new(
        "Here is the completion: \"Ada\")".to_owned(),
        MOCK_CONFIDENCE_BITS,
        "mock".to_owned(),
    )));
    let AutocompleteResponse::NoSuggestion { metadata, .. } = engine.finish(&request, prose, 1, 1)
    else {
        panic!("expected no suggestion");
    };
    assert!(metadata.expect("metadata").postprocessed);

    // Confidence is clamped into [0, 1].
    let loud = Ok(ProviderOutput::Candidate(CompletionCandidate::new(
        "\"Ada\")".to_owned(),
        2.5f64.to_bits(),
        "mock".to_owned(),
    )));
    let AutocompleteResponse::Suggestion { confidence_bits, .. } = engine.finish(&request, loud, 1, 1)
    else {
        panic!("expected a suggestion");
    };
    assert_eq!(f64::from_bits(confidence_bits), 1.0);
}

#[test]
fn metadata_and_cancellation_responses_carry_saturated_latencies() {
    assert_eq!(millis_saturating(12), 12);
    assert_eq!(millis_saturating(u128::MAX), u64::MAX);
    let m = metadata(u128::from(u64::MAX) + 1, 4, true);
    assert_eq!(m.latency_ms, u64::MAX);
    assert_eq!(m.provider_latency_ms, 4);
    assert!(m.postprocessed);
    let AutocompleteResponse::Cancelled { request_id, metadata, protocol_version } =
        cancelled_response(42, 9, 2)
    else {
        panic!("expected cancelled");
    };
    assert_eq!((request_id, protocol_version), (42, PROTOCOL_VERSION));
    let metadata = metadata.expect("metadata");
    assert_eq!((metadata.latency_ms, metadata.provider_latency_ms), (9, 2));
    assert!(!metadata.postprocessed);
}

#[test]
fn validation_errors_are_joined_with_semicolons() {
    let mut request = fixture_request();
    request.client.name.clear();
    request.options.max_chars = 0;
    let errors = request.validate().expect_err("invalid");
    assert_eq!(
        join_errors(&errors),
        "client.name: must not be empty; options.max_chars: must be between 1 and 4096, got 0"
    );
}

#[test]
fn mock_provider_builders_and_answers() {
    let provider = MockProvider::default();
    assert_eq!(provider.delay_ms(), None);
    let Ok(ProviderOutput::Candidate(c)) = provider.respond(false) else {
        panic!("expected a candidate");
    };
    assert_eq!(c.insert_text, "mock completion");
    assert_eq!(c.source, "mock");
    assert_eq!(c.confidence_bits, 1.0f64.to_bits());

    let custom = MockProvider::new("x".to_owned())
        .with_source("other".to_owned())
        .with_confidence(0.25f64.to_bits())
        .with_delay(30);
    assert_eq!(custom.delay_ms(), Some(30));
    let Ok(ProviderOutput::Candidate(c)) = custom.respond(false) else {
        panic!("expected a candidate");
    };
    assert_eq!((c.insert_text.as_str(), c.source.as_str()), ("x", "other"));
    assert_eq!(f64::from_bits(c.confidence_bits), 0.25);
    assert_eq!(custom.respond(true), Err(ProviderError::Cancelled));
}

#[test]
fn engine_reports_unsupported_protocol_versions() {
    let engine = EngineCore::new(PostprocessorPipeline::default());
    let mut request = fixture_request();
    request.protocol_version = 2;
    let Some(AutocompleteResponse::Error { request_id, error, .. }) = engine.screen(&request, false, 0)
    else {
        panic!("expected a version error");
    };
    assert_eq!(request_id, request.request_id);
    assert_eq!(error.code, ErrorCode::UnsupportedProtocolVersion);
    assert_eq!(error.message, "protocol_version: expected 1, got 2");
}

#[test]
fn nan_confidence_never_reaches_a_suggestion() {
    let engine = EngineCore::new(PostprocessorPipeline::default());
    let request = fixture_request();
    let provider = MockProvider::new("greet(\"Ada\")".to_owned()).with_confidence(f64::NAN.to_bits());

    let response = complete_with_mock(&engine, &provider, &request);

    let AutocompleteResponse::Suggestion { insert_text, confidence_bits, .. } = response else {
        panic!("expected a suggestion, got {response:?}");
    };
    assert_eq!(insert_text, "\"Ada\")");
    let confidence = f64::from_bits(confidence_bits);
    assert!(!confidence.is_nan());
    assert_eq!(confidence, 0.0);

    let below = Ok(ProviderOutput::Candidate(CompletionCandidate::new(
        "\"Ada\")".to_owned(),
        (-0.5f64).to_bits(),
        "mock".to_owned(),
    )));
    let AutocompleteResponse::Suggestion { confidence_bits, .. } = engine.finish(&request, below, 1, 1)
    else {
        panic!("expected a suggestion");
    };
    assert_eq!(f64::from_bits(confidence_bits), 0.0);
}
