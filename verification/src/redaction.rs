//! Removal of secrets from provider diagnostics, with `regex`.

use crate::pi::SecretRedactor;
use crate::provider::ProviderDiagnostics;
use vstd::prelude::*;
use vstd::string::*;

verus! {

#[verifier::external_type_specification]
#[verifier::external_body]
pub struct ExRegexError(regex::Error);

/// `regex::Regex::new` accepts the pattern.
pub uninterp spec fn regex_is_valid(pattern: Seq<char>) -> bool;

/// What `Regex::replace_all` makes of `text`: every leftmost-first,
/// non-overlapping match of `pattern` replaced by `replacement`, with its
/// `$name` group references expanded.
pub uninterp spec fn regex_replaced(
    pattern: Seq<char>,
    text: Seq<char>,
    replacement: Seq<char>,
) -> Seq<char>;

/// `Regex::new(pattern)` and then `Regex::replace_all(text, replacement)`.
#[verifier::external_body]
pub(crate) fn regex_replace_all(pattern: &str, text: &str, replacement: &str) -> (res: Result<
    String,
    regex::Error,
>)
    ensures
        res is Ok <==> regex_is_valid(pattern@),
        res matches Ok(s) ==> s@ == regex_replaced(pattern@, text@, replacement@),
{
    let regex = regex::Regex::new(pattern)?;
    Ok(regex.replace_all(text, replacement).into_owned())
}

/// The redaction rules, applied in order: bearer tokens, key/token/secret
/// assignments, `sk-` keys, and paths of pi's auth files.
pub open spec fn redaction_rules() -> Seq<(Seq<char>, Seq<char>)> {
    seq![
        (
            "(?i)authorization:\\s*bearer\\s+[A-Za-z0-9._\\-+/=]+"@,
            "Authorization: Bearer [REDACTED]"@,
        ),
        (
            "(?i)(api[_-]?key|token|secret)\\s*[=:]\\s*[A-Za-z0-9._\\-+/=]{8,}"@,
            "$1=[REDACTED]"@,
        ),
        ("sk-[A-Za-z0-9_-]{8,}"@, "[REDACTED]"@),
        ("/home/[^\\s'\"`]+/\\.config/pi/[^\\s'\"`]+"@, "[REDACTED_PI_AUTH_PATH]"@),
    ]
}

pub open spec fn redaction_patterns_valid() -> bool {
    forall|i: int| 0 <= i < redaction_rules().len() ==> regex_is_valid(#[trigger] redaction_rules()[i].0)
}

/// The text after the first `n` rules.
pub open spec fn redacted_by(n: nat, input: Seq<char>) -> Seq<char>
    decreases n,
{
    if n == 0 {
        input
    } else {
        let rule = redaction_rules()[n - 1];
        regex_replaced(rule.0, redacted_by((n - 1) as nat, input), rule.1)
    }
}

/// The text after every rule.
pub open spec fn redacted(input: Seq<char>) -> Seq<char> {
    redacted_by(4, input)
}

/// Redaction applies, in order: bearer tokens; assignments (`=` or `:`) of
/// eight or more token characters to `api_key`, `api-key`, `apikey`,
/// `token` or `secret`, in any case, keeping the key and replacing the
/// value; `sk-` keys; and paths of pi's auth files.
pub proof fn law_redaction_covers_secret_shapes(input: Seq<char>)
    ensures
        ({
            let bearer = regex_replaced(
                "(?i)authorization:\\s*bearer\\s+[A-Za-z0-9._\\-+/=]+"@,
                input,
                "Authorization: Bearer [REDACTED]"@,
            );
            let assignments = regex_replaced(
                "(?i)(api[_-]?key|token|secret)\\s*[=:]\\s*[A-Za-z0-9._\\-+/=]{8,}"@,
                bearer,
                "$1=[REDACTED]"@,
            );
            let keys = regex_replaced("sk-[A-Za-z0-9_-]{8,}"@, assignments, "[REDACTED]"@);
            redacted(input) == regex_replaced(
                "/home/[^\\s'\"`]+/\\.config/pi/[^\\s'\"`]+"@,
                keys,
                "[REDACTED_PI_AUTH_PATH]"@,
            )
        }),
{
    reveal_with_fuel(redacted_by, 5);
}

fn rule(i: usize) -> (res: (&'static str, &'static str))
    requires
        i < 4,
    ensures
        res.0@ == redaction_rules()[i as int].0,
        res.1@ == redaction_rules()[i as int].1,
{
    if i == 0 {
        (
            "(?i)authorization:\\s*bearer\\s+[A-Za-z0-9._\\-+/=]+",
            "Authorization: Bearer [REDACTED]",
        )
    } else if i == 1 {
        ("(?i)(api[_-]?key|token|secret)\\s*[=:]\\s*[A-Za-z0-9._\\-+/=]{8,}", "$1=[REDACTED]")
    } else if i == 2 {
        ("sk-[A-Za-z0-9_-]{8,}", "[REDACTED]")
    } else {
        ("/home/[^\\s'\"`]+/\\.config/pi/[^\\s'\"`]+", "[REDACTED_PI_AUTH_PATH]")
    }
}

impl SecretRedactor {
    /// The rules apply to the text in order; stops at a pattern that does
    /// not compile.
    pub fn redact_checked(&self, input: &str) -> (res: Option<String>)
        ensures
            res is Some <==> redaction_patterns_valid(),
            res matches Some(s) ==> s@ == redacted(input@),
    {
        let mut redacted_text = String::from_str(input);
        for i in 0..4
            invariant
                redacted_text@ == redacted_by(i as nat, input@),
                forall|j: int| 0 <= j < i ==> regex_is_valid(#[trigger] redaction_rules()[j].0),
        {
            let (pattern, replacement) = rule(i);
            match regex_replace_all(pattern, redacted_text.as_str(), replacement) {
                Ok(s) => {
                    redacted_text = s;
                },
                Err(_) => {
                    assert(!regex_is_valid(redaction_rules()[i as int].0));
                    return None;
                },
            }
        }
        assert(redaction_rules().len() == 4);
        Some(redacted_text)
    }

    /// Every rule compiles.
    pub fn redaction_available(&self) -> (b: bool)
        ensures
            b == redaction_patterns_valid(),
    {
        self.redact_checked("").is_some()
    }

    /// The text with every secret shape replaced.
    pub fn redact(&self, input: &str) -> (res: String)
        requires
            redaction_patterns_valid(),
        ensures
            res@ == redacted(input@),
    {
        match self.redact_checked(input) {
            Some(s) => s,
            None => {
                assert(false);
                String::new()
            },
        }
    }
}

/// Diagnostics from a subprocess's output, with secrets redacted; `None`
/// when a redaction pattern does not compile.
pub fn process_diagnostics(stdout: &str, stderr: &str) -> (res: Option<ProviderDiagnostics>)
    ensures
        res is Some <==> redaction_patterns_valid(),
        res matches Some(d) ==> d.stdout@ == redacted(stdout@) && d.stderr@ == redacted(stderr@),
{
    let redactor = SecretRedactor;
    if !redactor.redaction_available() {
        return None;
    }
    Some(ProviderDiagnostics { stdout: redactor.redact(stdout), stderr: redactor.redact(stderr) })
}

} // verus!
