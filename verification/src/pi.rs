//! The `pi` subprocess provider: its configuration, command line, prompt
//! framing, output parsing, secret redaction, and the decisions between
//! subprocess runs. Running the subprocess itself is left to the caller.

use crate::json::{
    as_str, get, get_member, get_str, json_parse, json_string, json_string_literal, member_index,
    parse_json, JsonValue,
};
use crate::provider::{CompletionCandidate, ProviderDiagnostics, ProviderError, ProviderOutput};
use crate::text::{contains_seq, lines, string_views, trim};
use vstd::prelude::*;
use vstd::string::*;

verus! {

/// Settings of the `pi` provider. `timeout_ms` is the subprocess timeout in
/// milliseconds; `command` is the program path.
#[derive(Debug, Clone, PartialEq, Eq)]
pub struct PiProviderConfig {
    pub command: String,
    pub provider: Option<String>,
    pub model: String,
    pub thinking: String,
    pub timeout_ms: u64,
    pub repair_retry: bool,
}

impl Default for PiProviderConfig {
    fn default() -> (res: Self)
        ensures
            res.command@ == "pi"@,
            res.provider.is_none(),
            res.model@ == "openai/gpt-5.5"@,
            res.thinking@ == "minimal"@,
            res.timeout_ms == 2500,
            res.repair_retry,
    {
        PiProviderConfig {
            command: String::from_str("pi"),
            provider: None,
            model: String::from_str("openai/gpt-5.5"),
            thinking: String::from_str("minimal"),
            timeout_ms: 2500,
            repair_retry: true,
        }
    }
}

/// Parses the JSON event stream that `pi --mode json` prints.
#[derive(Debug, Clone, Copy, Default)]
pub struct PiEventStreamParser;

/// Removes secrets from subprocess output kept for diagnosis.
#[derive(Debug, Clone, Copy, Default)]
pub struct SecretRedactor;

/// The system prompt and the request document handed to `pi`.
#[derive(Debug, Clone, PartialEq, Eq)]
pub struct RenderedPrompt {
    pub system_prompt: String,
    pub request_json: String,
}

#[derive(Debug, Clone)]
pub struct PiProvider {
    config: PiProviderConfig,
    parser: PiEventStreamParser,
    redactor: SecretRedactor,
}

/// The `pi` command line: print mode, JSON events, every optional feature
/// switched off, then provider (when configured), model, thinking level,
/// system prompt, and the request document as the last argument.
pub open spec fn pi_command_args(config: PiProviderConfig, prompt: RenderedPrompt) -> Seq<
    Seq<char>,
> {
    seq![
        "--print"@,
        "--mode"@,
        "json"@,
        "--no-tools"@,
        "--no-session"@,
        "--no-context-files"@,
        "--no-extensions"@,
        "--no-skills"@,
        "--no-prompt-templates"@,
        "--no-themes"@,
    ] + (match config.provider {
        Some(p) => seq!["--provider"@, p@],
        None => Seq::empty(),
    }) + seq![
        "--model"@,
        config.model@,
        "--thinking"@,
        config.thinking@,
        "--system-prompt"@,
        prompt.system_prompt@,
        prompt.request_json@,
    ]
}

fn push_arg(args: &mut Vec<String>, arg: String)
    ensures
        string_views(final(args)@) == string_views(old(args)@).push(arg@),
{
    args.push(arg);
    assert(string_views(args@) =~= string_views(old(args)@).push(arg@));
}

impl PiProvider {
    pub closed spec fn spec_config(&self) -> PiProviderConfig {
        self.config
    }

    pub fn new(config: PiProviderConfig) -> (res: Self)
        ensures
            res.spec_config() == config,
    {
        PiProvider { config, parser: PiEventStreamParser, redactor: SecretRedactor }
    }

    pub fn config(&self) -> (res: &PiProviderConfig)
        ensures
            *res == self.spec_config(),
    {
        &self.config
    }

    pub fn command_args(&self, prompt: &RenderedPrompt) -> (args: Vec<String>)
        ensures
            string_views(args@) == pi_command_args(self.spec_config(), *prompt),
    {
        let mut args: Vec<String> = Vec::new();
        push_arg(&mut args, String::from_str("--print"));
        push_arg(&mut args, String::from_str("--mode"));
        push_arg(&mut args, String::from_str("json"));
        push_arg(&mut args, String::from_str("--no-tools"));
        push_arg(&mut args, String::from_str("--no-session"));
        push_arg(&mut args, String::from_str("--no-context-files"));
        push_arg(&mut args, String::from_str("--no-extensions"));
        push_arg(&mut args, String::from_str("--no-skills"));
        push_arg(&mut args, String::from_str("--no-prompt-templates"));
        push_arg(&mut args, String::from_str("--no-themes"));
        let ghost fixed = string_views(args@);
        match &self.config.provider {
            Some(provider) => {
                push_arg(&mut args, String::from_str("--provider"));
                push_arg(&mut args, provider.clone());
            },
            None => {},
        }
        let ghost with_provider = string_views(args@);
        push_arg(&mut args, String::from_str("--model"));
        push_arg(&mut args, self.config.model.clone());
        push_arg(&mut args, String::from_str("--thinking"));
        push_arg(&mut args, self.config.thinking.clone());
        push_arg(&mut args, String::from_str("--system-prompt"));
        push_arg(&mut args, prompt.system_prompt.clone());
        push_arg(&mut args, prompt.request_json.clone());
        assert(string_views(args@) =~= pi_command_args(self.spec_config(), *prompt));
        args
    }
}

/// The command line ends with the configured model and thinking level, the
/// system prompt and the request document, each after its flag; it starts
/// with print mode, JSON events and every optional feature switched off; and
/// `--provider` with the configured provider stands between them exactly
/// when one is configured.
pub proof fn law_command_line_carries_the_configuration(
    config: PiProviderConfig,
    prompt: RenderedPrompt,
)
    ensures
        ({
            let a = pi_command_args(config, prompt);
            let n = a.len();
            &&& n == 17 + (if config.provider is Some { 2int } else { 0int })
            &&& a[n - 7] == "--model"@ && a[n - 6] == config.model@
            &&& a[n - 5] == "--thinking"@ && a[n - 4] == config.thinking@
            &&& a[n - 3] == "--system-prompt"@ && a[n - 2] == prompt.system_prompt@
            &&& a[n - 1] == prompt.request_json@
            &&& a.take(10) == seq![
                "--print"@,
                "--mode"@,
                "json"@,
                "--no-tools"@,
                "--no-session"@,
                "--no-context-files"@,
                "--no-extensions"@,
                "--no-skills"@,
                "--no-prompt-templates"@,
                "--no-themes"@,
            ]
            &&& config.provider matches Some(p) ==> a[10] == "--provider"@ && a[11] == p@
        }),
{
    let a = pi_command_args(config, prompt);
    assert(a.take(10) =~= seq![
        "--print"@,
        "--mode"@,
        "json"@,
        "--no-tools"@,
        "--no-session"@,
        "--no-context-files"@,
        "--no-extensions"@,
        "--no-skills"@,
        "--no-prompt-templates"@,
        "--no-themes"@,
    ]);
}

impl Default for PiProvider {
    fn default() -> (res: Self)
        ensures
            res.spec_config().command@ == "pi"@,
            res.spec_config().provider.is_none(),
            res.spec_config().model@ == "openai/gpt-5.5"@,
            res.spec_config().thinking@ == "minimal"@,
            res.spec_config().timeout_ms == 2500,
            res.spec_config().repair_retry,
    {
        PiProvider::new(PiProviderConfig::default())
    }
}

} // verus!

verus! {

// ---------------------------------------------------------------------------
// The JSON event stream

/// The text a content item contributes: its string `text` member, or the item
/// itself when it is a string.
pub open spec fn item_text(item: JsonValue) -> Seq<char> {
    match as_str(get(item, "text"@)) {
        Some(t) => t,
        None => match item {
            JsonValue::String(s) => s@,
            _ => Seq::empty(),
        },
    }
}

pub open spec fn items_text(items: Seq<JsonValue>) -> Seq<char>
    decreases items.len(),
{
    if items.len() == 0 {
        Seq::empty()
    } else {
        items_text(items.drop_last()) + item_text(items.last())
    }
}

/// The text held by a `content`, `text` or `output` member: a string, the
/// non-empty concatenation of an array's item texts, or an object's string
/// `text` member.
pub open spec fn content_text(v: Option<JsonValue>) -> Option<Seq<char>> {
    match v {
        Some(JsonValue::String(t)) => Some(t@),
        Some(JsonValue::Array(items)) => {
            let o = items_text(items@);
            if o.len() > 0 {
                Some(o)
            } else {
                None
            }
        },
        Some(JsonValue::Object(fields)) => as_str(get(JsonValue::Object(fields), "text"@)),
        _ => None,
    }
}

pub open spec fn role_is_assistant(v: JsonValue) -> bool {
    as_str(get(v, "role"@)) == Some("assistant"@)
}

/// The value reads as an assistant message: its role is `assistant`, its
/// type mentions `assistant`, or its type mentions `message` and it has
/// `content` or `text`.
pub open spec fn looks_like_assistant_message(v: JsonValue) -> bool {
    ||| role_is_assistant(v)
    ||| (as_str(get(v, "type"@)) matches Some(k) && contains_seq(k, "assistant"@))
    ||| (as_str(get(v, "type"@)) matches Some(k) && contains_seq(k, "message"@) && (get(
        v,
        "content"@,
    ) is Some || get(v, "text"@) is Some))
}

/// The assistant text of the value itself: its `content`, else `text`, else
/// `output`, when it reads as an assistant message.
pub open spec fn own_assistant_text(v: JsonValue) -> Option<Seq<char>> {
    if looks_like_assistant_message(v) {
        if content_text(get(v, "content"@)) is Some {
            content_text(get(v, "content"@))
        } else if content_text(get(v, "text"@)) is Some {
            content_text(get(v, "text"@))
        } else {
            content_text(get(v, "output"@))
        }
    } else {
        None
    }
}

/// The assistant text found under the member `key`.
pub open spec fn member_assistant_text(v: JsonValue, key: Seq<char>) -> Option<Seq<char>>
    decreases v, 0int,
{
    match v {
        JsonValue::Object(fields) => {
            let i = member_index(fields@, key);
            if 0 <= i < fields@.len() {
                proof {
                    assert(decreases_to!(v => fields));
                    assert(decreases_to!(fields => fields@));
                    assert(decreases_to!(fields@ => fields@[i]));
                    assert(decreases_to!(fields@[i] => fields@[i].1));
                }
                assistant_text(fields@[i].1)
            } else {
                None
            }
        },
        _ => None,
    }
}

/// The assistant text of a stream event: its own, else the first found
/// under `message`, `data`, `payload`, `result`, `event`.
pub open spec fn assistant_text(v: JsonValue) -> Option<Seq<char>>
    decreases v, 1int,
{
    if own_assistant_text(v) is Some {
        own_assistant_text(v)
    } else if member_assistant_text(v, "message"@) is Some {
        member_assistant_text(v, "message"@)
    } else if member_assistant_text(v, "data"@) is Some {
        member_assistant_text(v, "data"@)
    } else if member_assistant_text(v, "payload"@) is Some {
        member_assistant_text(v, "payload"@)
    } else if member_assistant_text(v, "result"@) is Some {
        member_assistant_text(v, "result"@)
    } else {
        member_assistant_text(v, "event"@)
    }
}

} // verus!

verus! {

pub open spec fn deref_opt(v: Option<&JsonValue>) -> Option<JsonValue> {
    match v {
        Some(r) => Some(*r),
        None => None,
    }
}

pub open spec fn text_opt_view(v: Option<String>) -> Option<Seq<char>> {
    match v {
        Some(s) => Some(s@),
        None => None,
    }
}

fn push_item_text(item: &JsonValue, out: &mut String)
    ensures
        final(out)@ == old(out)@ + item_text(*item),
{
    match get_str(item, "text") {
        Some(t) => {
            out.append(t.as_str());
        },
        None => {
            match item {
                JsonValue::String(s) => {
                    out.append(s.as_str());
                },
                _ => {
                    assert(old(out)@ + Seq::<char>::empty() =~= old(out)@);
                },
            }
        },
    }
}

fn content_text_of(value: Option<&JsonValue>) -> (res: Option<String>)
    ensures
        text_opt_view(res) == content_text(deref_opt(value)),
{
    match value {
        Some(JsonValue::String(t)) => Some(t.clone()),
        Some(JsonValue::Array(items)) => {
            let mut output = String::new();
            let n = items.len();
            for i in 0..n
                invariant
                    n == items@.len(),
                    output@ == items_text(items@.take(i as int)),
            {
                assert(items@.take(i + 1).drop_last() =~= items@.take(i as int));
                push_item_text(&items[i], &mut output);
            }
            assert(items@.take(n as int) =~= items@);
            if output.as_str().is_empty() {
                None
            } else {
                Some(output)
            }
        },
        Some(v) => match v {
            JsonValue::Object(_) => match get_str(v, "text") {
                Some(t) => Some(t.clone()),
                None => None,
            },
            _ => None,
        },
        None => None,
    }
}

fn role_is_assistant_exec(value: &JsonValue) -> (b: bool)
    ensures
        b == role_is_assistant(*value),
{
    match get_str(value, "role") {
        Some(role) => crate::text::str_equal(role.as_str(), "assistant"),
        None => false,
    }
}

fn text_mentions(text: &String, word: &str) -> (b: bool)
    ensures
        b == contains_seq(text@, word@),
{
    let t = crate::text::chars_of(text.as_str());
    let w = crate::text::chars_of(word);
    crate::text::contains(t.as_slice(), w.as_slice())
}

fn looks_like_assistant_message_exec(value: &JsonValue) -> (b: bool)
    ensures
        b == looks_like_assistant_message(*value),
{
    if role_is_assistant_exec(value) {
        return true;
    }
    match get_str(value, "type") {
        Some(kind) => {
            if text_mentions(kind, "assistant") {
                return true;
            }
            text_mentions(kind, "message") && (get_member(value, "content").is_some()
                || get_member(value, "text").is_some())
        },
        None => false,
    }
}

fn member_assistant_text_exec(value: &JsonValue, key: &str) -> (res: Option<String>)
    ensures
        text_opt_view(res) == member_assistant_text(*value, key@),
    decreases *value, 0int,
{
    match get_member(value, key) {
        Some(nested) => {
            proof {
                reveal_with_fuel(member_assistant_text, 1);
            }
            assistant_text_from_value(nested)
        },
        None => None,
    }
}

/// The assistant text of a stream event.
pub fn assistant_text_from_value(value: &JsonValue) -> (res: Option<String>)
    ensures
        text_opt_view(res) == assistant_text(*value),
    decreases *value, 1int,
{
    if looks_like_assistant_message_exec(value) {
        let c = content_text_of(get_member(value, "content"));
        if c.is_some() {
            return c;
        }
        let t = content_text_of(get_member(value, "text"));
        if t.is_some() {
            return t;
        }
        let o = content_text_of(get_member(value, "output"));
        if o.is_some() {
            return o;
        }
    }
    let m = member_assistant_text_exec(value, "message");
    if m.is_some() {
        return m;
    }
    let d = member_assistant_text_exec(value, "data");
    if d.is_some() {
        return d;
    }
    let p = member_assistant_text_exec(value, "payload");
    if p.is_some() {
        return p;
    }
    let r = member_assistant_text_exec(value, "result");
    if r.is_some() {
        return r;
    }
    member_assistant_text_exec(value, "event")
}

} // verus!

verus! {

/// Why the event stream held no usable assistant text.
#[derive(Debug, Clone, PartialEq, Eq)]
pub enum PiEventStreamError {
    InvalidJsonLine { line: String, message: String },
    NoAssistantMessage,
}

/// The scan of the stream's lines so far: whether a non-blank line was seen,
/// the last assistant text found, and the first line that was not JSON
/// (with the parser's message).
pub type EventScan = (bool, Option<Seq<char>>, Option<(Seq<char>, Seq<char>)>);

pub open spec fn scan_events(ls: Seq<Seq<char>>) -> EventScan
    decreases ls.len(),
{
    if ls.len() == 0 {
        (false, None, None)
    } else {
        let prev = scan_events(ls.drop_last());
        let t = trim(ls.last());
        if prev.2 is Some || t.len() == 0 {
            prev
        } else {
            match json_parse(t) {
                Err(m) => (true, prev.1, Some((t, m))),
                Ok(v) => (true, if assistant_text(v) is Some {
                    assistant_text(v)
                } else {
                    prev.1
                }, None),
            }
        }
    }
}

/// The model of the parser's answer: the assistant text, or the bad line
/// and message, or `None` for "no assistant message".
pub open spec fn final_assistant_text_model(stdout: Seq<char>) -> Result<
    Seq<char>,
    Option<(Seq<char>, Seq<char>)>,
> {
    let s = scan_events(lines(stdout));
    if s.2 is Some {
        Err(s.2)
    } else if !s.0 {
        Err(None)
    } else {
        match s.1 {
            Some(t) => Ok(t),
            None => Err(None),
        }
    }
}

pub open spec fn stream_result_view(r: Result<String, PiEventStreamError>) -> Result<
    Seq<char>,
    Option<(Seq<char>, Seq<char>)>,
> {
    match r {
        Ok(t) => Ok(t@),
        Err(PiEventStreamError::InvalidJsonLine { line, message }) => Err(Some((line@, message@))),
        Err(PiEventStreamError::NoAssistantMessage) => Err(None),
    }
}

pub open spec fn stream_error_text(e: PiEventStreamError) -> Seq<char> {
    match e {
        PiEventStreamError::InvalidJsonLine { line, message } =>
            "pi JSON stream contained invalid JSON line "@ + crate::debug_text::debug_str(line@) + ": "@
            + message@,
        PiEventStreamError::NoAssistantMessage => "pi JSON stream did not contain an assistant message"@,
    }
}

impl PiEventStreamError {
    /// The text this error displays.
    pub fn message(&self) -> (res: String)
        ensures
            res@ == stream_error_text(*self),
    {
        match self {
            PiEventStreamError::InvalidJsonLine { line, message } => {
                let mut m = String::from_str("pi JSON stream contained invalid JSON line ");
                let q = crate::debug_text::debug_quoted(line.as_str());
                m.append(q.as_str());
                m.append(": ");
                m.append(message.as_str());
                m
            },
            PiEventStreamError::NoAssistantMessage => String::from_str(
                "pi JSON stream did not contain an assistant message",
            ),
        }
    }
}

impl PiEventStreamParser {
    /// The last assistant text in a `pi --mode json` event stream. Lines are
    /// trimmed and blank ones skipped; every other line must be JSON.
    pub fn final_assistant_text(&self, stdout: &str) -> (res: Result<String, PiEventStreamError>)
        ensures
            stream_result_view(res) == final_assistant_text_model(stdout@),
    {
        let chars = crate::text::chars_of(stdout);
        let ls = crate::text::split_lines(chars.as_slice());
        let ghost lv = crate::text::views_of(ls@);
        let mut saw_nonempty_line = false;
        let mut last_text: Option<String> = None;
        let n = ls.len();
        for i in 0..n
            invariant
                n == ls@.len(),
                lv == crate::text::views_of(ls@),
                lv == lines(stdout@),
                scan_events(lv.take(i as int)) == (saw_nonempty_line, text_opt_view(last_text), None::<(Seq<char>, Seq<char>)>),
        {
            assert(lv.take(i + 1).drop_last() =~= lv.take(i as int));
            assert(lv.take(i + 1).last() == ls@[i as int]@);
            let t = crate::text::trimmed(ls[i].as_slice());
            if t.len() > 0 {
                saw_nonempty_line = true;
                let line = crate::text::string_from_chars(t.as_slice());
                match parse_json(line.as_str()) {
                    Err(message) => {
                        proof {
                            lemma_scan_stops(lv, i as int + 1);
                        }
                        return Err(PiEventStreamError::InvalidJsonLine { line, message });
                    },
                    Ok(value) => {
                        let found = assistant_text_from_value(&value);
                        if found.is_some() {
                            last_text = found;
                        }
                    },
                }
            }
        }
        assert(lv.take(n as int) =~= lv);
        if !saw_nonempty_line {
            return Err(PiEventStreamError::NoAssistantMessage);
        }
        match last_text {
            Some(t) => Ok(t),
            None => Err(PiEventStreamError::NoAssistantMessage),
        }
    }
}

proof fn lemma_scan_stops(ls: Seq<Seq<char>>, i: int)
    requires
        0 <= i <= ls.len(),
        scan_events(ls.take(i)).2 is Some,
    ensures
        scan_events(ls) == scan_events(ls.take(i)),
    decreases ls.len() - i,
{
    if i < ls.len() {
        assert(ls.take(i + 1).drop_last() =~= ls.take(i));
        lemma_scan_stops(ls, i + 1);
    } else {
        assert(ls.take(i) =~= ls);
    }
}

} // verus!

verus! {

// ---------------------------------------------------------------------------
// Prompts

/// The fixed part of a completion request document before the request.
pub open spec fn completion_head() -> Seq<char> {
    "{\"contract\":{\"return\":\"JSON only\",\"rules\":[\"Do not return markdown fences.\",\"Do not return commentary or explanations.\",\"Do not repeat text that is already before the cursor.\",\"Return an empty insert_text when no safe completion is available.\"],\"schema\":{\"confidence\":\"number between 0 and 1\",\"insert_text\":\"string containing only text to insert at the cursor\",\"reason\":\"optional short internal diagnostic\"}},\"request\":"@
}

/// The fixed part of a completion request document after the request.
pub open spec fn completion_tail() -> Seq<char> {
    ",\"task\":\"inline_autocomplete\"}"@
}

/// The system prompt used when no template supplies one.
pub open spec fn completion_system_prompt_text() -> Seq<char> {
    "You are an inline autocomplete provider. Return only valid JSON with keys insert_text, confidence, and optional reason. The insert_text must be exactly the text to insert at the cursor: no markdown fences, no prose, no explanations, and no repeated prefix."@
}

pub open spec fn repair_system_prompt_text() -> Seq<char> {
    "Repair the previous malformed inline-autocomplete provider output. Return only valid JSON matching {\"insert_text\": string, \"confidence\": number, \"reason\": optional string}. No markdown or commentary."@
}

/// The repair request document: the original request document and the parse
/// error as JSON strings, the required schema, and the task (members in key
/// order).
pub open spec fn repair_document(request_json: Seq<char>, parse_error: Seq<char>) -> Seq<char> {
    "{\"original_request_json\":"@ + json_string(request_json) + ",\"parse_error\":"@
        + json_string(parse_error)
        + ",\"required_schema\":{\"confidence\":\"number between 0 and 1\",\"insert_text\":\"string\",\"reason\":\"optional string\"},\"task\":\"repair_autocomplete_response_json\"}"@
}

pub fn completion_system_prompt() -> (res: String)
    ensures
        res@ == completion_system_prompt_text(),
{
    String::from_str(
        "You are an inline autocomplete provider. Return only valid JSON with keys insert_text, confidence, and optional reason. The insert_text must be exactly the text to insert at the cursor: no markdown fences, no prose, no explanations, and no repeated prefix.",
    )
}

pub fn repair_system_prompt() -> (res: String)
    ensures
        res@ == repair_system_prompt_text(),
{
    String::from_str(
        "Repair the previous malformed inline-autocomplete provider output. Return only valid JSON matching {\"insert_text\": string, \"confidence\": number, \"reason\": optional string}. No markdown or commentary.",
    )
}

impl RenderedPrompt {
    /// The completion prompt around a request given as its JSON document
    /// (members in key order), with the default system prompt.
    pub fn for_completion(request_json: &str) -> (res: Self)
        ensures
            res.system_prompt@ == completion_system_prompt_text(),
            res.request_json@ == completion_head() + request_json@ + completion_tail(),
    {
        RenderedPrompt::for_completion_with_system_prompt(request_json, None)
    }

    /// The completion prompt, with the given system prompt when there is one.
    pub fn for_completion_with_system_prompt(request_json: &str, system_prompt: Option<String>) -> (res: Self)
        ensures
            res.system_prompt@ == match system_prompt {
                Some(p) => p@,
                None => completion_system_prompt_text(),
            },
            res.request_json@ == completion_head() + request_json@ + completion_tail(),
    {
        let mut document = String::from_str(
            "{\"contract\":{\"return\":\"JSON only\",\"rules\":[\"Do not return markdown fences.\",\"Do not return commentary or explanations.\",\"Do not repeat text that is already before the cursor.\",\"Return an empty insert_text when no safe completion is available.\"],\"schema\":{\"confidence\":\"number between 0 and 1\",\"insert_text\":\"string containing only text to insert at the cursor\",\"reason\":\"optional short internal diagnostic\"}},\"request\":",
        );
        document.append(request_json);
        document.append(",\"task\":\"inline_autocomplete\"}");
        let system_prompt = match system_prompt {
            Some(p) => p,
            None => completion_system_prompt(),
        };
        RenderedPrompt { system_prompt, request_json: document }
    }

    /// The prompt asking the model to repair its malformed answer.
    pub fn for_repair(&self, parse_error: &str) -> (res: Self)
        ensures
            res.system_prompt@ == repair_system_prompt_text(),
            res.request_json@ == repair_document(self.request_json@, parse_error@),
    {
        let original = json_string_literal(self.request_json.as_str());
        let error = json_string_literal(parse_error);
        let document = match (original, error) {
            (Some(original), Some(error)) => {
                let mut document = String::from_str("{\"original_request_json\":");
                document.append(original.as_str());
                document.append(",\"parse_error\":");
                document.append(error.as_str());
                document.append(
                    ",\"required_schema\":{\"confidence\":\"number between 0 and 1\",\"insert_text\":\"string\",\"reason\":\"optional string\"},\"task\":\"repair_autocomplete_response_json\"}",
                );
                document
            },
            _ => String::from_str("{\"task\":\"repair_autocomplete_response_json\"}"),
        };
        RenderedPrompt { system_prompt: repair_system_prompt(), request_json: document }
    }
}

} // verus!

verus! {

// ---------------------------------------------------------------------------
// Provider answers and the repair retry

/// A confidence as the provider wrote it: the binary64 bit pattern and its
/// decimal text.
#[derive(Debug, Clone, PartialEq, Eq)]
pub struct Confidence {
    pub bits: u64,
    pub text: String,
}

/// The JSON answer a provider gives: the text to insert and, optionally, a
/// confidence.
#[derive(Debug, Clone, PartialEq, Eq)]
pub struct ProviderJsonResponse {
    pub insert_text: String,
    pub confidence: Option<Confidence>,
}

/// `"assistant text was not provider JSON: {error}"`.
pub open spec fn not_provider_json_text(error: Seq<char>) -> Seq<char> {
    "assistant text was not provider JSON: "@ + error
}

/// `"provider confidence must be between 0 and 1, got {confidence}"`.
pub open spec fn confidence_out_of_range_text(confidence: Seq<char>) -> Seq<char> {
    "provider confidence must be between 0 and 1, got "@ + confidence
}

/// Checks a decoded provider answer (or the decoder's error text): the
/// confidence, when present, must lie in `[0, 1]`. The error is the message
/// the original answer is rejected with.
pub fn parse_provider_response(decoded: Result<ProviderJsonResponse, String>) -> (res: Result<
    ProviderJsonResponse,
    String,
>)
    ensures
        decoded matches Err(e) ==> (res matches Err(m) && m@ == not_provider_json_text(e@)),
        decoded matches Ok(r) ==> match r.confidence {
            Some(c) => if crate::protocol::unit_interval_bits(c.bits) {
                res == Ok::<ProviderJsonResponse, String>(r)
            } else {
                (res matches Err(m) && m@ == confidence_out_of_range_text(c.text@))
            },
            None => res == Ok::<ProviderJsonResponse, String>(r),
        },
{
    match decoded {
        Err(e) => {
            let mut m = String::from_str("assistant text was not provider JSON: ");
            m.append(e.as_str());
            Err(m)
        },
        Ok(r) => {
            match &r.confidence {
                Some(c) => {
                    if !(c.bits <= 0x3FF0_0000_0000_0000 || c.bits == 0x8000_0000_0000_0000) {
                        let mut m = String::from_str(
                            "provider confidence must be between 0 and 1, got ",
                        );
                        m.append(c.text.as_str());
                        return Err(m);
                    }
                },
                None => {},
            }
            Ok(r)
        },
    }
}

/// The bit pattern of `0.5`, the confidence of an answer that gives none.
pub open spec fn half_bits() -> u64 {
    0x3FE0_0000_0000_0000
}

/// An answer becomes no suggestion when its text is empty, else a candidate
/// with its confidence (0.5 when absent) and source `pi:{model}`.
pub fn into_provider_output(response: ProviderJsonResponse, model: &str) -> (res: ProviderOutput)
    ensures
        response.insert_text@.len() == 0 ==> res == ProviderOutput::NoSuggestion,
        response.insert_text@.len() > 0 ==> (res matches ProviderOutput::Candidate(c) && {
            &&& c.insert_text == response.insert_text
            &&& c.confidence_bits == match response.confidence {
                Some(conf) => conf.bits,
                None => half_bits(),
            }
            &&& c.source@ == "pi:"@ + model@
        }),
{
    if response.insert_text.as_str().is_empty() {
        return ProviderOutput::NoSuggestion;
    }
    let confidence_bits = match &response.confidence {
        Some(c) => c.bits,
        None => 0x3FE0_0000_0000_0000,
    };
    let mut source = String::from_str("pi:");
    source.append(model);
    ProviderOutput::Candidate(
        CompletionCandidate::new(response.insert_text, confidence_bits, source),
    )
}

/// What to do after the first provider run.
#[derive(Debug, PartialEq, Eq)]
pub enum AttemptStep {
    /// The run's result is the provider's result.
    Finish(Result<ProviderOutput, ProviderError>),
    /// Run once more with the repair prompt for this parse error.
    Repair { parse_error: String, diagnostics: ProviderDiagnostics },
}

impl PiProvider {
    /// The subprocess timeout for a request: the configured timeout, cut to
    /// the request's deadline.
    pub fn attempt_timeout_ms(&self, deadline_ms: u64) -> (res: u64)
        ensures
            res == if self.spec_config().timeout_ms <= deadline_ms {
                self.spec_config().timeout_ms
            } else {
                deadline_ms
            },
    {
        if self.config.timeout_ms <= deadline_ms {
            self.config.timeout_ms
        } else {
            deadline_ms
        }
    }

    /// A malformed answer is repaired once when repair is configured and the
    /// request is not cancelled; every other result is final.
    pub fn after_first_attempt(&self, first: Result<ProviderOutput, ProviderError>, cancelled: bool) -> (res:
        AttemptStep)
        ensures
            match first {
                Err(ProviderError::MalformedOutput { message, diagnostics }) => if self.spec_config().repair_retry
                    && !cancelled {
                    res == (AttemptStep::Repair { parse_error: message, diagnostics })
                } else {
                    res == AttemptStep::Finish(first)
                },
                _ => res == AttemptStep::Finish(first),
            },
    {
        match first {
            Err(ProviderError::MalformedOutput { message, diagnostics }) => {
                if self.config.repair_retry && !cancelled {
                    AttemptStep::Repair { parse_error: message, diagnostics }
                } else {
                    AttemptStep::Finish(Err(ProviderError::MalformedOutput { message, diagnostics }))
                }
            },
            other => AttemptStep::Finish(other),
        }
    }
}

/// The result after the repair run: its own result, except that a second
/// malformed answer keeps its message with the first run's diagnostics.
pub fn after_repair_attempt(
    first_diagnostics: ProviderDiagnostics,
    second: Result<ProviderOutput, ProviderError>,
) -> (res: Result<ProviderOutput, ProviderError>)
    ensures
        match second {
            Err(ProviderError::MalformedOutput { message, .. }) => res == Err::<
                ProviderOutput,
                ProviderError,
            >(ProviderError::MalformedOutput { message, diagnostics: first_diagnostics }),
            _ => res == second,
        },
{
    match second {
        Err(ProviderError::MalformedOutput { message, .. }) => Err(
            ProviderError::MalformedOutput { message, diagnostics: first_diagnostics },
        ),
        other => other,
    }
}

} // verus!
