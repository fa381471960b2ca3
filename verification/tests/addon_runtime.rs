use autocomplete_broker::addons::{
    is_markdown_language, take_first_chars, take_last_chars, AddonRuntime, AddonSettings, PromptKind,
};
use autocomplete_broker::policy::{AddonError, PolicyEngine};
use autocomplete_broker::protocol::{
    AutocompleteContext, AutocompleteMode, AutocompleteOptions, AutocompleteRequest, ClientInfo,
    CursorPosition, DocumentInfo, ErrorCode, TriggerKind, PROTOCOL_VERSION,
};

fn fixture_request() -> AutocompleteRequest {
    AutocompleteRequest {
        protocol_version: PROTOCOL_VERSION,
        request_id: 0x018f160e_7152_7b43_9d9a_6083e0bd3cc8,
        client: ClientInfo { name: "vscode".to_owned(), version: "0.1.0".to_owned() },
        document: DocumentInfo {
            uri: "file:///workspace/src/greeting.ts".to_owned(),
            language_id: "typescript".to_owned(),
            version: 7,
        },
        cursor: CursorPosition { line: 4, character: 22, offset: 96 },
        context: AutocompleteContext {
            prefix: "function greet(name: string) {\n  return `Hello, ${name}`;\n}\n\nconst message = greet(".to_owned(),
            suffix: ";\nconsole.log(message);\n".to_owned(),
            selected_text: String::new(),
        },
        options: AutocompleteOptions {
            mode: AutocompleteMode::InlineTab,
            max_chars: 180,
            deadline_ms: 2500,
            trigger: TriggerKind::Idle,
        },
    }
}

#[test]
fn context_trimming_respects_char_boundaries() {
    assert_eq!(take_last_chars("αβγ", 2), "βγ");
    assert_eq!(take_first_chars("αβγ", 2), "αβ");
}

#[test]
fn addon_runtime_trims_context_selects_code_prompt_and_rejects_excluded_paths() {
    let mut request = fixture_request();
    request.context.prefix = "abcdef".to_owned();
    request.context.suffix = "uvwxyz".to_owned();

    let settings = AddonSettings {
        prefix_chars: 3,
        suffix_chars: 2,
        remote_context_byte_limit: 16,
        excluded_globs: vec!["**/.env*".to_owned()],
    };
    let runtime = AddonRuntime::new(settings).expect("runtime");

    let prepared = runtime.prepare(request).expect("prepared request");
    assert_eq!(prepared.request.context.prefix, "def");
    assert_eq!(prepared.request.context.suffix, "uv");
    assert_eq!(prepared.prompt.kind, PromptKind::Code);

    let mut excluded = fixture_request();
    excluded.document.uri = "file:///repo/.env.local".to_owned();
    assert!(runtime.prepare(excluded).is_err());
}

#[test]
fn addon_runtime_selects_markdown_prompt_for_obsidian_notes() {
    let mut request = fixture_request();
    request.client.name = "obsidian".to_owned();
    request.document.uri = "file:///vault/daily.md".to_owned();
    request.document.language_id = "markdown".to_owned();

    let prepared = AddonRuntime::default()
        .expect("default runtime")
        .prepare(request)
        .expect("prepared request");

    assert_eq!(prepared.prompt.kind, PromptKind::Markdown);
    assert!(prepared.prompt.system_prompt.contains("prose"));
}

#[test]
fn policy_rejects_excluded_paths_and_oversized_context() {
    let runtime = AddonRuntime::default().expect("default runtime");
    let mut secret = fixture_request();
    secret.document.uri = "file:///repo/secrets/key.txt".to_owned();
    let error = runtime.prepare(secret).unwrap_err();
    assert_eq!(error.error_code(), ErrorCode::InvalidRequest);
    assert_eq!(
        error.message(),
        "document path is excluded by broker privacy policy: file:///repo/secrets/key.txt"
    );

    let small = AddonRuntime::new(AddonSettings {
        remote_context_byte_limit: 4,
        ..AddonSettings::default()
    })
    .expect("runtime");
    let mut big = fixture_request();
    big.context.prefix = "abcdef".to_owned();
    big.context.suffix.clear();
    let error = small.prepare(big).unwrap_err();
    assert_eq!(error.error_code(), ErrorCode::ContextTooLarge);
    assert!(matches!(error, AddonError::RemoteContextTooLarge { limit: 4, actual: 6 }));
    assert_eq!(
        error.message(),
        "request context is 6 bytes after broker context processing, exceeding remote limit 4"
    );
}

#[test]
fn relative_paths_and_plain_names_are_matched() {
    let policy = PolicyEngine::new(100, vec!["**/prompt-buffer.md".to_owned()]).expect("policy");
    let mut request = fixture_request();
    request.context.prefix.clear();
    request.context.suffix.clear();
    request.document.uri = "/notes/prompt-buffer.md".to_owned();
    assert!(policy.enforce(&request).is_err());
    request.document.uri = "untitled:prompt-buffer.md".to_owned();
    assert!(policy.enforce(&request).is_ok());
    assert_eq!(policy.remote_context_byte_limit(), 100);
    assert_eq!(policy.excluded_globs(), ["**/prompt-buffer.md".to_owned()]);
}

#[test]
fn invalid_globs_are_reported_with_their_pattern() {
    let error = PolicyEngine::new(10, vec!["ok/**".to_owned(), "bad[".to_owned()]).unwrap_err();
    assert!(matches!(&error, AddonError::InvalidGlob { pattern, .. } if pattern == "bad["));
    assert_eq!(error.error_code(), ErrorCode::InternalError);
    assert!(error.message().starts_with("invalid exclusion glob \"bad[\": "));
}

#[test]
fn markdown_detection_ignores_ascii_case() {
    assert!(is_markdown_language("Markdown"));
    assert!(is_markdown_language("MDX"));
    assert!(!is_markdown_language("markdown2"));
    assert!(!is_markdown_language("typescript"));
}

#[test]
fn file_paths_and_file_names_are_matched_against_exclusions() {
    let uri = "file:///home/me/private/notes.txt";
    let path = || Some(("/home/me/private/notes.txt".to_owned(), Some("notes.txt".to_owned())));

    let absolute = PolicyEngine::new(100, vec!["/home/me/private/*".to_owned()]).expect("policy");
    assert!(absolute.path_is_excluded(uri, path()));
    assert!(!absolute.path_is_excluded(uri, None));

    let relative = PolicyEngine::new(100, vec!["home/me/private/*".to_owned()]).expect("policy");
    assert!(relative.path_is_excluded(uri, path()));

    let by_name = PolicyEngine::new(100, vec!["notes.txt".to_owned()]).expect("policy");
    assert!(by_name.path_is_excluded(uri, path()));
    assert!(!by_name.path_is_excluded(uri, None));

    let other = PolicyEngine::new(100, vec!["**/secrets/**".to_owned()]).expect("policy");
    assert!(!other.path_is_excluded(uri, path()));

    let mut request = fixture_request();
    request.document.uri = uri.to_owned();
    assert!(matches!(
        absolute.enforce_with_path(&request, path()),
        Err(AddonError::ExcludedPath { .. })
    ));
    request.context.prefix = "x".repeat(200);
    assert!(matches!(
        other.enforce_with_path(&request, path()),
        Err(AddonError::RemoteContextTooLarge { limit: 100, .. })
    ));
    // On this platform the URI's path is found by the policy itself.
    assert!(matches!(absolute.enforce(&request), Err(AddonError::ExcludedPath { .. })));
}
