use autocomplete_broker::json::JsonValue;
use autocomplete_broker::pi::{
    after_repair_attempt, assistant_text_from_value, completion_system_prompt,
    into_provider_output, parse_provider_response, repair_system_prompt, AttemptStep, Confidence,
    PiEventStreamError, PiEventStreamParser, PiProvider, PiProviderConfig, ProviderJsonResponse,
    RenderedPrompt, SecretRedactor,
};
use autocomplete_broker::provider::{ProviderDiagnostics, ProviderError, ProviderOutput};
use autocomplete_broker::redaction::process_diagnostics;

fn test_config() -> PiProviderConfig {
    PiProviderConfig { model: "test-model".to_owned(), ..PiProviderConfig::default() }
}

#[test]
fn parser_extracts_last_assistant_content_from_nested_events() {
    let stdout = r#"
{"type":"session","id":"s"}
{"type":"message","message":{"role":"assistant","content":[{"type":"text","text":"first"}]}}
{"type":"message","message":{"role":"assistant","content":"second"}}
"#;

    assert_eq!(
        PiEventStreamParser::default().final_assistant_text(stdout).expect("assistant text"),
        "second"
    );
}

#[test]
fn parser_reports_invalid_lines_and_missing_messages() {
    let parser = PiEventStreamParser;
    let err = parser.final_assistant_text("{\"type\":\"session\"}\nnot json\n").expect_err("bad line");
    let PiEventStreamError::InvalidJsonLine { line, .. } = &err else {
        panic!("expected an invalid line, got {err:?}");
    };
    assert_eq!(line, "not json");
    assert!(err.message().starts_with("pi JSON stream contained invalid JSON line \"not json\": "));

    let err = parser.final_assistant_text("  \n\n").expect_err("blank");
    assert_eq!(err, PiEventStreamError::NoAssistantMessage);
    assert_eq!(err.message(), "pi JSON stream did not contain an assistant message");

    let err = parser
        .final_assistant_text("{\"type\":\"message\",\"message\":{\"role\":\"user\",\"content\":\"hi\"}}")
        .expect_err("no assistant");
    assert_eq!(err, PiEventStreamError::NoAssistantMessage);
}

#[test]
fn parser_joins_text_items_and_reads_nested_members() {
    let parser = PiEventStreamParser;
    let stdout = "{\"message\":{\"role\":\"assistant\",\"content\":[{\"type\":\"text\",\"text\":\"ab\"},\"cd\",{\"type\":\"image\"}]}}";
    assert_eq!(parser.final_assistant_text(stdout).expect("text"), "abcd");

    let value = JsonValue::Object(vec![
        ("role".to_owned(), JsonValue::String("assistant".to_owned())),
        ("content".to_owned(), JsonValue::String("x".to_owned())),
    ]);
    assert_eq!(assistant_text_from_value(&value), Some("x".to_owned()));
    assert_eq!(assistant_text_from_value(&JsonValue::Null), None);
}

#[test]
fn secret_redactor_redacts_common_secret_shapes() {
    let redacted = SecretRedactor::default().redact(
        "Authorization: Bearer abcdefghijklmnop\napi_key=sk-1234567890abcdef\n/home/me/.config/pi/auth.json",
    );

    assert!(!redacted.contains("abcdefghijklmnop"));
    assert!(!redacted.contains("sk-123456"));
    assert!(!redacted.contains("/home/me/.config/pi"));
    assert_eq!(
        redacted,
        "Authorization: Bearer [REDACTED]\napi_key=[REDACTED]\n[REDACTED_PI_AUTH_PATH]"
    );
}

#[test]
fn failure_diagnostics_are_redacted() {
    let diagnostics = process_diagnostics(
        "token: sk-SECRETSECRET",
        "Authorization: Bearer abc\n/home/abhmul/.config/pi/auth.json",
    )
    .expect("redaction patterns compile");
    let combined = format!("{}\n{}", diagnostics.stdout, diagnostics.stderr);
    assert!(!combined.contains("sk-SECRET"), "{combined}");
    assert!(!combined.contains("Bearer abc"), "{combined}");
    assert!(!combined.contains("/home/abhmul/.config/pi"), "{combined}");
    assert!(combined.contains("[REDACTED]"), "{combined}");
    assert_eq!(SecretRedactor.redact_checked("plain text"), Some("plain text".to_owned()));
    assert!(SecretRedactor.redaction_available());
}

#[test]
fn command_line_isolates_pi_and_ends_with_the_request() {
    let prompt = RenderedPrompt { system_prompt: "sys".to_owned(), request_json: "{}".to_owned() };
    let provider = PiProvider::new(test_config());
    let args = provider.command_args(&prompt);
    assert_eq!(
        args,
        vec![
            "--print", "--mode", "json", "--no-tools", "--no-session", "--no-context-files",
            "--no-extensions", "--no-skills", "--no-prompt-templates", "--no-themes", "--model",
            "test-model", "--thinking", "minimal", "--system-prompt", "sys", "{}",
        ]
    );

    let with_provider =
        PiProvider::new(PiProviderConfig { provider: Some("openrouter".to_owned()), ..test_config() });
    let args = with_provider.command_args(&prompt);
    assert_eq!(args[10..12], ["--provider".to_owned(), "openrouter".to_owned()]);
    assert_eq!(args.len(), 19);
}

#[test]
fn completion_prompts_frame_the_request_document() {
    let prompt = RenderedPrompt::for_completion("{\"x\":1}");
    assert_eq!(prompt.system_prompt, completion_system_prompt());
    assert!(prompt.request_json.starts_with("{\"contract\":{\"return\":\"JSON only\""));
    assert!(prompt.request_json.ends_with(",\"request\":{\"x\":1},\"task\":\"inline_autocomplete\"}"));

    let custom = RenderedPrompt::for_completion_with_system_prompt("{}", Some("prose only".to_owned()));
    assert_eq!(custom.system_prompt, "prose only");
}

#[test]
fn repair_prompt_embeds_escaped_json_strings() {
    let prompt = RenderedPrompt { system_prompt: "s".to_owned(), request_json: "{\"a\":\"b\"}".to_owned() };
    let repair = prompt.for_repair("line 1\tcol \"2\"\n\u{1}");
    assert_eq!(repair.system_prompt, repair_system_prompt());
    assert_eq!(
        repair.request_json,
        "{\"original_request_json\":\"{\\\"a\\\":\\\"b\\\"}\",\"parse_error\":\"line 1\\tcol \\\"2\\\"\\n\\u0001\",\"required_schema\":{\"confidence\":\"number between 0 and 1\",\"insert_text\":\"string\",\"reason\":\"optional string\"},\"task\":\"repair_autocomplete_response_json\"}"
    );
}

#[test]
fn provider_answers_are_checked_and_converted() {
    let in_range = ProviderJsonResponse {
        insert_text: "\"Ada\")".to_owned(),
        confidence: Some(Confidence { bits: 0.9f64.to_bits(), text: "0.9".to_owned() }),
    };
    assert_eq!(parse_provider_response(Ok(in_range.clone())), Ok(in_range.clone()));

    let too_high = ProviderJsonResponse {
        insert_text: "x".to_owned(),
        confidence: Some(Confidence { bits: 1.5f64.to_bits(), text: "1.5".to_owned() }),
    };
    assert_eq!(
        parse_provider_response(Ok(too_high)),
        Err("provider confidence must be between 0 and 1, got 1.5".to_owned())
    );
    let negative = ProviderJsonResponse {
        insert_text: "x".to_owned(),
        confidence: Some(Confidence { bits: (-0.1f64).to_bits(), text: "-0.1".to_owned() }),
    };
    assert!(parse_provider_response(Ok(negative)).is_err());
    assert_eq!(
        parse_provider_response(Err("expected value at line 1 column 1".to_owned())),
        Err("assistant text was not provider JSON: expected value at line 1 column 1".to_owned())
    );

    let ProviderOutput::Candidate(c) = into_provider_output(in_range, "test-model") else {
        panic!("expected a candidate");
    };
    assert_eq!(c.insert_text, "\"Ada\")");
    assert_eq!(c.source, "pi:test-model");
    assert_eq!(f64::from_bits(c.confidence_bits), 0.9);

    let no_confidence = ProviderJsonResponse { insert_text: "y".to_owned(), confidence: None };
    let ProviderOutput::Candidate(c) = into_provider_output(no_confidence, "m") else {
        panic!("expected a candidate");
    };
    assert_eq!(f64::from_bits(c.confidence_bits), 0.5);

    let empty = ProviderJsonResponse { insert_text: String::new(), confidence: None };
    assert_eq!(into_provider_output(empty, "m"), ProviderOutput::NoSuggestion);
}

#[test]
fn malformed_answers_are_repaired_once_unless_cancelled_or_disabled() {
    let provider = PiProvider::new(test_config());
    assert_eq!(provider.attempt_timeout_ms(10_000), 2500);
    assert_eq!(provider.attempt_timeout_ms(50), 50);

    let diagnostics = ProviderDiagnostics { stdout: "out".to_owned(), stderr: "err".to_owned() };
    let malformed = Err(ProviderError::malformed("bad".to_owned(), diagnostics.clone()));
    assert_eq!(
        provider.after_first_attempt(malformed.clone(), false),
        AttemptStep::Repair { parse_error: "bad".to_owned(), diagnostics: diagnostics.clone() }
    );
    assert_eq!(provider.after_first_attempt(malformed.clone(), true), AttemptStep::Finish(malformed.clone()));
    let no_retry = PiProvider::new(PiProviderConfig { repair_retry: false, ..test_config() });
    assert_eq!(no_retry.after_first_attempt(malformed.clone(), false), AttemptStep::Finish(malformed));
    assert_eq!(
        provider.after_first_attempt(Err(ProviderError::Timeout), false),
        AttemptStep::Finish(Err(ProviderError::Timeout))
    );

    let second = Err(ProviderError::malformed("still bad".to_owned(), ProviderDiagnostics::default()));
    assert_eq!(
        after_repair_attempt(diagnostics.clone(), second),
        Err(ProviderError::malformed("still bad".to_owned(), diagnostics.clone()))
    );
    assert_eq!(
        after_repair_attempt(diagnostics, Ok(ProviderOutput::NoSuggestion)),
        Ok(ProviderOutput::NoSuggestion)
    );
}

#[test]
fn provider_defaults() {
    let provider = PiProvider::default();
    let config = provider.config();
    assert_eq!(config.command, "pi");
    assert_eq!(config.provider, None);
    assert_eq!(config.model, "openai/gpt-5.5");
    assert_eq!(config.thinking, "minimal");
    assert_eq!(config.timeout_ms, 2500);
    assert!(config.repair_retry);
}
