use autocomplete_broker::mock::MOCK_CONFIDENCE_BITS;
use autocomplete_broker::policy::AddonError;
use autocomplete_broker::protocol::{
    AutocompleteContext, AutocompleteMode, AutocompleteOptions, AutocompleteRequest,
    AutocompleteResponse, CancelStatus, ClientInfo, CursorPosition, DocumentInfo, ErrorCode,
    HealthStatus, ProviderStatus, TriggerKind, PROTOCOL_VERSION,
};
use autocomplete_broker::provider::ProviderOutput;
use autocomplete_broker::server::{
    addon_error_status, protocol_error_response, provider_from_config, BrokerConfig,
    BrokerRuntime, ConfiguredProvider, ProviderKind, RequestRegistry, ServerError, TriggerMode,
};

fn fixture_request() -> AutocompleteRequest {
    AutocompleteRequest {
        protocol_version: PROTOCOL_VERSION,
        request_id: 0x018f160e_7152_7b43_9d9a_6083e0bd3cc8,
        client: ClientInfo { name: "vscode".to_owned(), version: "0.1.0".to_owned() },
        document: DocumentInfo {
            uri: "file:///workspace/src/greeting.ts".to_owned(),
            language_id: "typescript".to_owned(),
            version: 7,
        },
        cursor: CursorPosition { line: 4, character: 22, offset: 96 },
        context: AutocompleteContext {
            prefix: "function greet(name: string) {\n  return `Hello, ${name}`;\n}\n\nconst message = greet(".to_owned(),
            suffix: ";\nconsole.log(message);\n".to_owned(),
            selected_text: String::new(),
        },
        options: AutocompleteOptions {
            mode: AutocompleteMode::InlineTab,
            max_chars: 180,
            deadline_ms: 2500,
            trigger: TriggerKind::Idle,
        },
    }
}

/// What the autocomplete endpoint answers, with its HTTP status, when the
/// provider answers in time and nobody cancels.
fn autocomplete(runtime: &BrokerRuntime, request: AutocompleteRequest) -> (u16, AutocompleteResponse) {
    let prepared = match runtime.intake(request) {
        Ok(prepared) => prepared,
        Err(refusal) => return refusal,
    };
    let engine = runtime.engine();
    if let Some(response) = engine.screen(&prepared.request, false, 0) {
        return (200, response);
    }
    let ConfiguredProvider::Mock(mock) = runtime.provider() else {
        panic!("these tests run the mock provider");
    };
    let outcome = mock.respond(false);
    (200, engine.finish(&prepared.request, outcome, 1, 1))
}

fn runtime_for(config: BrokerConfig) -> BrokerRuntime {
    config.validate().expect("valid config");
    BrokerRuntime::from_config(config).expect("state")
}

#[test]
fn health_reports_configured_mock_provider() {
    let mut config = BrokerConfig::default();
    config.provider.kind = ProviderKind::Mock;
    let runtime = runtime_for(config);

    let body = runtime.health();
    assert_eq!(body.status, HealthStatus::Healthy);
    assert_eq!(body.provider.name, "mock");
    assert_eq!(body.provider.status, ProviderStatus::Available);
    assert_eq!(body.protocol_version, PROTOCOL_VERSION);
}

#[test]
fn autocomplete_uses_mock_provider_and_postprocessing_pipeline() {
    let mut config = BrokerConfig::default();
    config.provider.kind = ProviderKind::Mock;
    config.mock.insert_text = "greet(\"Ada\")".to_owned();
    let runtime = runtime_for(config);

    let (status, body) = autocomplete(&runtime, fixture_request());

    assert_eq!(status, 200);
    let AutocompleteResponse::Suggestion { insert_text, source, metadata, .. } = body else {
        panic!("expected ok response");
    };
    assert_eq!(insert_text, "\"Ada\")");
    assert_eq!(source, "mock");
    assert!(metadata.expect("metadata").postprocessed);
}

#[test]
fn autocomplete_rejects_semantically_invalid_requests() {
    let runtime = runtime_for(BrokerConfig::default());
    let mut request = fixture_request();
    request.client.name.clear();

    let (status, body) = autocomplete(&runtime, request.clone());

    assert_eq!(status, 400);
    let AutocompleteResponse::Error { request_id, error, metadata, .. } = body else {
        panic!("expected protocol error response");
    };
    assert_eq!(request_id, request.request_id);
    assert_eq!(error.code, ErrorCode::InvalidRequest);
    assert_eq!(error.message, "client.name: must not be empty");
    assert!(metadata.is_none());
}

#[test]
fn autocomplete_reports_unsupported_protocol_versions() {
    let runtime = runtime_for(BrokerConfig::default());
    let mut request = fixture_request();
    request.protocol_version = 2;

    let (status, body) = autocomplete(&runtime, request);

    assert_eq!(status, 400);
    let AutocompleteResponse::Error { error, .. } = body else {
        panic!("expected protocol error response");
    };
    assert_eq!(error.code, ErrorCode::UnsupportedProtocolVersion);
    assert_eq!(error.message, "protocol_version: expected 1, got 2");
}

#[test]
fn cancel_endpoint_cancels_in_flight_autocomplete_and_marks_completion() {
    let mut config = BrokerConfig::default();
    config.mock.delay_ms = 200;
    config.mock.insert_text = "slow completion".to_owned();
    let runtime = runtime_for(config);
    let request = fixture_request();
    let request_id = request.request_id;
    let mut registry: RequestRegistry<u32> = RequestRegistry::new();

    let prepared = runtime.intake(request).expect("prepared");
    assert_eq!(registry.start(request_id, 1), None);

    let (cancel_status, token) = registry.cancel_request(request_id);
    assert_eq!(cancel_status, CancelStatus::Cancelled);
    assert_eq!(token, Some(&1));

    let ConfiguredProvider::Mock(mock) = runtime.provider() else {
        panic!("expected the mock provider");
    };
    assert_eq!(mock.delay_ms(), Some(200));
    let body = runtime.engine().finish(&prepared.request, mock.respond(true), 20, 20);
    registry.finish(request_id);
    assert!(matches!(body, AutocompleteResponse::Cancelled { .. }));

    let (completed_status, token) = registry.cancel_request(request_id);
    assert_eq!(completed_status, CancelStatus::AlreadyCompleted);
    assert_eq!(token, None);
}

#[test]
fn registry_answers_unknown_restarted_and_other_requests() {
    let mut registry: RequestRegistry<&str> = RequestRegistry::new();
    assert_eq!(registry.cancel_request(7).0, CancelStatus::NotFound);

    assert_eq!(registry.start(7, "first"), None);
    assert_eq!(registry.start(7, "second"), Some("first"));
    assert_eq!(registry.cancel_request(7), (CancelStatus::Cancelled, Some(&"second")));
    assert_eq!(registry.cancel_request(8).0, CancelStatus::NotFound);

    registry.finish(7);
    assert_eq!(registry.cancel_request(7).0, CancelStatus::AlreadyCompleted);
    assert_eq!(registry.start(7, "third"), None);
    assert_eq!(registry.cancel_request(7), (CancelStatus::Cancelled, Some(&"third")));
}

#[test]
fn health_reflects_pi_provider_selection_from_config_without_calling_pi() {
    let mut config = BrokerConfig::default();
    config.provider.kind = ProviderKind::Pi;
    config.pi.model = "custom/model".to_owned();
    let runtime = runtime_for(config);

    let body = runtime.health();
    assert_eq!(body.provider.name, "pi:custom/model");
    assert_eq!(body.provider.status, ProviderStatus::Unknown);
}

#[test]
fn privacy_policy_rejects_excluded_paths_before_provider_runs() {
    let mut config = BrokerConfig::default();
    config.mock.insert_text = "would leak".to_owned();
    let runtime = runtime_for(config);
    let mut request = fixture_request();
    request.document.uri = "file:///repo/secrets/key.txt".to_owned();

    let (status, body) = autocomplete(&runtime, request.clone());

    assert_eq!(status, 400);
    let AutocompleteResponse::Error { request_id, error, .. } = body else {
        panic!("expected protocol error response");
    };
    assert_eq!(request_id, request.request_id);
    assert_eq!(error.code, ErrorCode::InvalidRequest);
    assert_eq!(
        error.message,
        "document path is excluded by broker privacy policy: file:///repo/secrets/key.txt"
    );
}

#[test]
fn privacy_policy_rejects_context_over_remote_byte_limit() {
    let mut config = BrokerConfig::default();
    config.privacy.remote_context_byte_limit = 4;
    let runtime = runtime_for(config);
    let mut request = fixture_request();
    request.context.prefix = "abcdef".to_owned();
    request.context.suffix.clear();

    let (status, body) = autocomplete(&runtime, request);

    assert_eq!(status, 413);
    let AutocompleteResponse::Error { error, .. } = body else {
        panic!("expected protocol error response");
    };
    assert_eq!(error.code, ErrorCode::ContextTooLarge);
    assert_eq!(
        error.message,
        "request context is 6 bytes after broker context processing, exceeding remote limit 4"
    );
}

#[test]
fn mock_provider_serves_obsidian_style_markdown_requests() {
    let mut config = BrokerConfig::default();
    config.mock.insert_text = " that deterministic broker tests are useful.".to_owned();
    let runtime = runtime_for(config);
    let mut request = fixture_request();
    request.client.name = "obsidian".to_owned();
    request.document.uri = "file:///vault/daily.md".to_owned();
    request.document.language_id = "markdown".to_owned();
    request.context.prefix = "Today I learned".to_owned();
    request.context.suffix.clear();

    let (status, body) = autocomplete(&runtime, request);

    assert_eq!(status, 200);
    let AutocompleteResponse::Suggestion { insert_text, .. } = body else {
        panic!("expected ok response");
    };
    assert_eq!(insert_text, " that deterministic broker tests are useful.");
}

#[test]
fn default_config_matches_documented_defaults() {
    let config = BrokerConfig::default();
    assert_eq!(config.bind_addr, "127.0.0.1:32145");
    assert_eq!(config.provider.kind, ProviderKind::Mock);
    assert_eq!(config.mock.insert_text, "mock completion");
    assert_eq!(config.mock.confidence_bits, MOCK_CONFIDENCE_BITS);
    assert_eq!(f64::from_bits(config.mock.confidence_bits), 1.0);
    assert_eq!(config.mock.delay_ms, 0);
    assert_eq!(config.pi.command, "pi");
    assert_eq!(config.pi.model, "openai/gpt-5.5");
    assert_eq!(config.pi.thinking, "minimal");
    assert_eq!(config.pi.timeout_ms, 2500);
    assert!(config.pi.repair_retry);
    assert_eq!(config.trigger.mode, TriggerMode::IdleOrManual);
    assert_eq!(config.trigger.idle_delay_ms, 500);
    assert_eq!(config.trigger.min_prefix_chars, 8);
    assert_eq!(config.context.prefix_chars, 3500);
    assert_eq!(config.context.suffix_chars, 1200);
    assert!(!config.context.include_open_files);
    assert!(!config.context.include_workspace_symbols);
    assert_eq!(config.privacy.remote_context_byte_limit, 6000);
    assert_eq!(
        config.privacy.excluded_globs,
        vec!["**/.env*".to_owned(), "**/secrets/**".to_owned(), "**/prompt-buffer.md".to_owned()]
    );
    assert!(config.validate().is_ok());

    let settings = config.addon_settings();
    assert_eq!(settings.prefix_chars, 3500);
    assert_eq!(settings.suffix_chars, 1200);
    assert_eq!(settings.remote_context_byte_limit, 6000);
    assert_eq!(settings.excluded_globs, config.privacy.excluded_globs);
}

#[test]
fn config_with_privacy_overrides_keeps_other_defaults() {
    let mut config = BrokerConfig::default();
    config.provider.kind = ProviderKind::Pi;
    config.pi.model = "openai/example".to_owned();
    config.privacy.remote_context_byte_limit = 4096;
    config.privacy.excluded_globs = vec!["**/.env*".to_owned(), "**/private/**".to_owned()];

    assert!(config.validate().is_ok());
    let runtime = runtime_for(config.clone());
    assert_eq!(runtime.config(), &config);
    assert_eq!(runtime.health().provider.name, "pi:openai/example");
    assert_eq!(config.trigger.mode, TriggerMode::IdleOrManual);
    assert_eq!(config.trigger.idle_delay_ms, 500);
    assert_eq!(config.trigger.min_prefix_chars, 8);

    let mut request = fixture_request();
    request.document.uri = "file:///repo/private/notes.txt".to_owned();
    let Err((status, _)) = runtime.intake(request) else {
        panic!("expected the private path to be refused");
    };
    assert_eq!(status, 400);
}

#[test]
fn validation_reports_the_first_broken_rule() {
    let mut config = BrokerConfig::default();
    config.context.prefix_chars = 0;
    config.context.suffix_chars = 0;
    config.privacy.remote_context_byte_limit = 0;
    let Err(ServerError::InvalidConfig(message)) = config.validate() else {
        panic!("expected invalid config");
    };
    assert_eq!(message, "context prefix_chars and suffix_chars cannot both be zero");

    config.context.suffix_chars = 1;
    let error = config.validate().expect_err("limit is zero");
    assert_eq!(
        error.message(),
        "invalid config: privacy remote_context_byte_limit must be greater than zero"
    );

    config.privacy.remote_context_byte_limit = 1;
    config.trigger.idle_delay_ms = 0;
    let Err(ServerError::InvalidConfig(message)) = config.validate() else {
        panic!("expected invalid config");
    };
    assert_eq!(message, "trigger idle_delay_ms must be greater than zero");

    config.trigger.idle_delay_ms = 1;
    assert!(config.validate().is_ok());

    config.privacy.excluded_globs = vec!["a[".to_owned()];
    let Err(ServerError::Addon(AddonError::InvalidGlob { pattern, .. })) = config.validate() else {
        panic!("expected an invalid glob");
    };
    assert_eq!(pattern, "a[");
    assert!(config.validate().expect_err("bad glob").message().starts_with("addon error: "));
    assert!(BrokerRuntime::from_config(config).is_err());
}

#[test]
fn provider_selection_follows_the_configuration() {
    let mut config = BrokerConfig::default();
    config.mock.delay_ms = 15;
    config.mock.confidence_bits = 0.75f64.to_bits();
    let (name, status, provider) = provider_from_config(&config);
    assert_eq!((name.as_str(), status), ("mock", ProviderStatus::Available));
    let ConfiguredProvider::Mock(mock) = provider else {
        panic!("expected the mock");
    };
    assert_eq!(mock.delay_ms(), Some(15));
    let Ok(ProviderOutput::Candidate(c)) = mock.respond(false) else {
        panic!("expected a candidate");
    };
    assert_eq!(c.insert_text, "mock completion");
    assert_eq!(c.source, "mock");
    assert_eq!(f64::from_bits(c.confidence_bits), 0.75);

    config.provider.kind = ProviderKind::Pi;
    config.pi.provider = Some("openrouter".to_owned());
    config.pi.timeout_ms = 900;
    let (name, status, provider) = provider_from_config(&config);
    assert_eq!((name.as_str(), status), ("pi:openai/gpt-5.5", ProviderStatus::Unknown));
    let ConfiguredProvider::Pi(pi) = provider else {
        panic!("expected pi");
    };
    assert_eq!(pi.config(), &config.pi.to_provider_config());
    assert_eq!(pi.config().provider.as_deref(), Some("openrouter"));
    assert_eq!(pi.config().timeout_ms, 900);
}

#[test]
fn addon_refusals_map_to_http_statuses_and_error_bodies() {
    assert_eq!(addon_error_status(&AddonError::ExcludedPath { uri: "x".to_owned() }), 400);
    assert_eq!(
        addon_error_status(&AddonError::RemoteContextTooLarge { limit: 1, actual: 2 }),
        413
    );
    let AutocompleteResponse::Error { protocol_version, request_id, error, metadata } =
        protocol_error_response(5, ErrorCode::InternalError, "boom".to_owned())
    else {
        panic!("expected an error");
    };
    assert_eq!((protocol_version, request_id), (PROTOCOL_VERSION, 5));
    assert_eq!((error.code, error.message.as_str()), (ErrorCode::InternalError, "boom"));
    assert!(metadata.is_none());
}

#[test]
fn windowing_changes_only_the_context() {
    let mut config = BrokerConfig::default();
    config.context.prefix_chars = 4;
    config.context.suffix_chars = 3;
    let runtime = runtime_for(config);
    let request = fixture_request();

    let prepared = runtime.intake(request.clone()).expect("prepared");
    assert_eq!(prepared.request.context.prefix, "eet(");
    assert_eq!(prepared.request.context.suffix, ";\nc");
    let mut expected = request;
    expected.context.prefix = "eet(".to_owned();
    expected.context.suffix = ";\nc".to_owned();
    assert_eq!(prepared.request, expected);
}
