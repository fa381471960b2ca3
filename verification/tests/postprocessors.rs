use autocomplete_broker::postprocess::{
    longest_prefix_suffix_overlap, EnforceMaxChars, NormalizeNewlines, PostprocessContext,
    PostprocessError, PostprocessStep, Postprocessor, PostprocessorPipeline, RejectExplanations,
    RemoveRepeatedPrefix, StripMarkdownFences,
};
use autocomplete_broker::protocol::{
    AutocompleteContext, AutocompleteMode, AutocompleteOptions, AutocompleteRequest, ClientInfo,
    CursorPosition, DocumentInfo, TriggerKind, PROTOCOL_VERSION,
};

fn fixture_request() -> AutocompleteRequest {
    AutocompleteRequest {
        protocol_version: PROTOCOL_VERSION,
        request_id: 0x018f160e_7152_7b43_9d9a_6083e0bd3cc8,
        client: ClientInfo { name: "vscode".to_owned(), version: "0.1.0".to_owned() },
        document: DocumentInfo {
            uri: "file:///workspace/src/greeting.ts".to_owned(),
            language_id: "typescript".to_owned(),
            version: 7,
        },
        cursor: CursorPosition { line: 4, character: 22, offset: 96 },
        context: AutocompleteContext {
            prefix: "function greet(name: string) {\n  return `Hello, ${name}`;\n}\n\nconst message = greet(".to_owned(),
            suffix: ";\nconsole.log(message);\n".to_owned(),
            selected_text: String::new(),
        },
        options: AutocompleteOptions {
            mode: AutocompleteMode::InlineTab,
            max_chars: 180,
            deadline_ms: 2500,
            trigger: TriggerKind::Idle,
        },
    }
}

#[test]
fn overlap_uses_char_boundaries() {
    assert_eq!(longest_prefix_suffix_overlap("αβ", "βγ"), 0);
    assert_eq!(longest_prefix_suffix_overlap("prefix αβ", " αβγ"), " αβ".len());
}

#[test]
fn postprocessors_strip_markdown_fences() {
    let request = fixture_request();
    let text = PostprocessorPipeline::default()
        .process(&request, "```typescript\n\"Ada\")\n```".to_owned())
        .expect("postprocessed text");

    assert_eq!(text, "\"Ada\")");
}

#[test]
fn postprocessors_normalize_newlines_before_returning_insertable_text() {
    let request = fixture_request();
    let text = PostprocessorPipeline::default()
        .process(&request, "\"Ada\")\r\n  .toString()\r".to_owned())
        .expect("postprocessed text");

    assert_eq!(text, "\"Ada\")\n  .toString()\n");
}

#[test]
fn postprocessors_truncate_overlong_output_to_request_max_chars() {
    let mut request = fixture_request();
    request.options.max_chars = 5;

    let text = PostprocessorPipeline::default()
        .process(&request, "\"Ada\") and more".to_owned())
        .expect("postprocessed text");

    assert_eq!(text, "\"Ada\"");
}

#[test]
fn postprocessors_reject_explanations_instead_of_returning_prose() {
    let request = fixture_request();
    let error = PostprocessorPipeline::default()
        .process(&request, "Here is the completion: \"Ada\")".to_owned())
        .expect_err("explanatory output should be rejected");

    assert!(error.message().contains("prose"));
}

#[test]
fn repeated_prefix_is_removed_from_mock_completion() {
    let request = fixture_request();
    let text = PostprocessorPipeline::default()
        .process(&request, "greet(\"Ada\")".to_owned())
        .expect("postprocessed text");
    assert_eq!(text, "\"Ada\")");
}

#[test]
fn overlap_prefers_shortest_repetition_of_three_bytes() {
    // "abc" is the shortest suffix of at least three bytes that the completion repeats.
    assert_eq!(longest_prefix_suffix_overlap("xabcabc", "abcabcd"), 3);
    // Short suffixes count only when they are the whole prefix.
    assert_eq!(longest_prefix_suffix_overlap("ab", "abz"), 2);
    assert_eq!(longest_prefix_suffix_overlap("xab", "abz"), 0);
    assert_eq!(longest_prefix_suffix_overlap("", "abc"), 0);
    assert_eq!(longest_prefix_suffix_overlap("abc", ""), 0);
}

#[test]
fn single_steps_transform_text() {
    let request = fixture_request();
    let context = PostprocessContext { request: &request };
    assert_eq!(NormalizeNewlines.process(&context, "a\r\r\nb\rc".to_owned()).unwrap(), "a\n\nb\nc");
    assert_eq!(
        StripMarkdownFences.process(&context, "  ```\nx\ny\n```  ".to_owned()).unwrap(),
        "x\ny"
    );
    // Not fenced: returned untouched, including surrounding white space.
    assert_eq!(StripMarkdownFences.process(&context, "  ```x  ".to_owned()).unwrap(), "  ```x  ");
    assert_eq!(
        RemoveRepeatedPrefix.process(&context, "message = greet(1)".to_owned()).unwrap(),
        "1)"
    );
    let mut short = fixture_request();
    short.options.max_chars = 2;
    let short_context = PostprocessContext { request: &short };
    assert_eq!(EnforceMaxChars.process(&short_context, "αβγ".to_owned()).unwrap(), "αβ");
}

#[test]
fn reject_explanations_errors() {
    let request = fixture_request();
    let context = PostprocessContext { request: &request };
    assert_eq!(RejectExplanations.process(&context, " \n\t".to_owned()), Err(PostprocessError::Empty));
    let markdown = RejectExplanations.process(&context, "x\nNote: careful".to_owned()).unwrap_err();
    assert_eq!(
        markdown.message(),
        "completion rejected: provider returned explanation or markdown outside the completion"
    );
    assert_eq!(
        RejectExplanations.process(&context, "  SURE, here".to_owned()).unwrap_err().message(),
        "completion rejected: provider returned prose instead of insertable text"
    );
    assert_eq!(RejectExplanations.process(&context, " ok".to_owned()).unwrap(), " ok");
}

#[test]
fn empty_pipeline_rejects_blank_text() {
    let request = fixture_request();
    assert_eq!(PostprocessorPipeline::empty().process(&request, "  ".to_owned()), Err(PostprocessError::Empty));
    assert_eq!(PostprocessorPipeline::empty().process(&request, " x".to_owned()).unwrap(), " x");
    let only_max = PostprocessorPipeline::new(vec![PostprocessStep::EnforceMaxChars]);
    let mut one = fixture_request();
    one.options.max_chars = 1;
    assert_eq!(only_max.process(&one, "abc".to_owned()).unwrap(), "a");
    assert_eq!(
        PostprocessError::Empty.message(),
        "completion was empty after postprocessing"
    );
}
