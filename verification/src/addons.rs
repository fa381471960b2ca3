//! Built-in broker addons: context windowing, prompt template selection, the
//! postprocessor registry, and the privacy policy.

use crate::globs::glob_set_builds;
use crate::policy::{all_globs_valid, exclusion_consistent, first_invalid_glob, AddonError, PolicyEngine};
use crate::postprocess::{default_steps, PostprocessorPipeline};
use crate::protocol::AutocompleteRequest;
use crate::text::{ascii_lower, chars_of, slice_range, string_from_chars, string_views, to_ascii_lower};
use vstd::prelude::*;
use vstd::string::*;

verus! {

/// Settings of the built-in addons.
#[derive(Debug, Clone, PartialEq, Eq)]
pub struct AddonSettings {
    pub prefix_chars: usize,
    pub suffix_chars: usize,
    pub remote_context_byte_limit: usize,
    pub excluded_globs: Vec<String>,
}

/// The glob patterns excluded by default.
pub open spec fn default_excluded_globs() -> Seq<Seq<char>> {
    seq!["**/.env*"@, "**/secrets/**"@, "**/prompt-buffer.md"@]
}

/// The default privacy exclusions.
pub fn default_excluded_glob_list() -> (res: Vec<String>)
    ensures
        string_views(res@) == default_excluded_globs(),
{
    let mut v: Vec<String> = Vec::new();
    v.push(String::from_str("**/.env*"));
    v.push(String::from_str("**/secrets/**"));
    v.push(String::from_str("**/prompt-buffer.md"));
    assert(string_views(v@) =~= default_excluded_globs());
    v
}

impl Default for AddonSettings {
    fn default() -> (res: Self)
        ensures
            res.prefix_chars == 3500,
            res.suffix_chars == 1200,
            res.remote_context_byte_limit == 6000,
            string_views(res.excluded_globs@) == default_excluded_globs(),
    {
        AddonSettings {
            prefix_chars: 3_500,
            suffix_chars: 1_200,
            remote_context_byte_limit: 6_000,
            excluded_globs: default_excluded_glob_list(),
        }
    }
}

// ---------------------------------------------------------------------------
// Context windowing

/// The last `n` characters (all of them when there are fewer).
pub open spec fn last_chars(s: Seq<char>, n: nat) -> Seq<char> {
    if s.len() <= n {
        s
    } else {
        s.skip(s.len() - n)
    }
}

/// The first `n` characters (all of them when there are fewer).
pub open spec fn first_chars(s: Seq<char>, n: nat) -> Seq<char> {
    if s.len() <= n {
        s
    } else {
        s.take(n as int)
    }
}

/// The last `max_chars` characters of `text`.
pub fn take_last_chars(text: &str, max_chars: usize) -> (res: String)
    ensures
        res@ == last_chars(text@, max_chars as nat),
{
    let chars = chars_of(text);
    let total = chars.len();
    if total <= max_chars {
        return String::from_str(text);
    }
    let kept = slice_range(chars.as_slice(), total - max_chars, total);
    string_from_chars(kept.as_slice())
}

/// The first `max_chars` characters of `text`.
pub fn take_first_chars(text: &str, max_chars: usize) -> (res: String)
    ensures
        res@ == first_chars(text@, max_chars as nat),
{
    let chars = chars_of(text);
    let total = chars.len();
    if total <= max_chars {
        return String::from_str(text);
    }
    let kept = slice_range(chars.as_slice(), 0, max_chars);
    string_from_chars(kept.as_slice())
}

/// `b` is `a` with its prefix and suffix replaced, everything else equal.
pub open spec fn same_but_context(a: AutocompleteRequest, b: AutocompleteRequest) -> bool {
    &&& b.protocol_version == a.protocol_version
    &&& b.request_id == a.request_id
    &&& b.client == a.client
    &&& b.document == a.document
    &&& b.cursor == a.cursor
    &&& b.context.selected_text == a.context.selected_text
    &&& b.options == a.options
}

/// A source of request context.
pub trait ContextProvider {
    fn name(&self) -> &'static str;

    fn apply(&self, request: AutocompleteRequest) -> Result<AutocompleteRequest, AddonError>;
}

/// Keeps the text nearest the cursor: the end of the prefix and the start of
/// the suffix.
#[derive(Debug, Clone, Copy, PartialEq, Eq)]
pub struct NearbyTextWindow {
    pub prefix_chars: usize,
    pub suffix_chars: usize,
}

/// `b` is `a` after the window `w`.
pub open spec fn windowed(w: NearbyTextWindow, a: AutocompleteRequest, b: AutocompleteRequest) -> bool {
    &&& same_but_context(a, b)
    &&& b.context.prefix@ == last_chars(a.context.prefix@, w.prefix_chars as nat)
    &&& b.context.suffix@ == first_chars(a.context.suffix@, w.suffix_chars as nat)
}

impl ContextProvider for NearbyTextWindow {
    fn name(&self) -> (res: &'static str)
        ensures
            res@ == "nearby_text_window"@,
    {
        "nearby_text_window"
    }

    fn apply(&self, request: AutocompleteRequest) -> (res: Result<AutocompleteRequest, AddonError>)
        ensures
            res matches Ok(r) && windowed(*self, request, r),
    {
        let mut request = request;
        let prefix = take_last_chars(request.context.prefix.as_str(), self.prefix_chars);
        let suffix = take_first_chars(request.context.suffix.as_str(), self.suffix_chars);
        request.context.prefix = prefix;
        request.context.suffix = suffix;
        Ok(request)
    }
}

/// `b` is `a` after every window in `ws`, in order.
pub open spec fn windowed_all(ws: Seq<NearbyTextWindow>, a: AutocompleteRequest, b: AutocompleteRequest) -> bool
    decreases ws.len(),
{
    if ws.len() == 0 {
        b == a
    } else {
        exists|m: AutocompleteRequest| windowed_all(ws.drop_last(), a, m) && windowed(ws.last(), m, b)
    }
}

/// Windowing changes nothing of a request but its prefix and suffix.
pub proof fn law_windowing_changes_only_context(
    ws: Seq<NearbyTextWindow>,
    a: AutocompleteRequest,
    b: AutocompleteRequest,
)
    requires
        windowed_all(ws, a, b),
    ensures
        same_but_context(a, b),
    decreases ws.len(),
{
    if ws.len() > 0 {
        let m = choose|m: AutocompleteRequest|
            windowed_all(ws.drop_last(), a, m) && windowed(ws.last(), m, b);
        law_windowing_changes_only_context(ws.drop_last(), a, m);
    }
}

/// The context providers applied to every request, in order.
#[derive(Debug, Clone)]
pub struct ContextProviderRegistry {
    providers: Vec<NearbyTextWindow>,
}

impl ContextProviderRegistry {
    pub closed spec fn windows(&self) -> Seq<NearbyTextWindow> {
        self.providers@
    }

    pub fn new(providers: Vec<NearbyTextWindow>) -> (res: Self)
        ensures
            res.windows() == providers@,
    {
        ContextProviderRegistry { providers }
    }

    pub fn default_for(prefix_chars: usize, suffix_chars: usize) -> (res: Self)
        ensures
            res.windows() == seq![NearbyTextWindow { prefix_chars, suffix_chars }],
    {
        let mut providers: Vec<NearbyTextWindow> = Vec::new();
        providers.push(NearbyTextWindow { prefix_chars, suffix_chars });
        assert(providers@ =~= seq![NearbyTextWindow { prefix_chars, suffix_chars }]);
        ContextProviderRegistry { providers }
    }

    pub fn apply(&self, request: AutocompleteRequest) -> (res: Result<AutocompleteRequest, AddonError>)
        ensures
            res matches Ok(r) && windowed_all(self.windows(), request, r),
    {
        let mut current = request;
        let n = self.providers.len();
        let ghost original = request;
        for i in 0..n
            invariant
                n == self.providers@.len(),
                windowed_all(self.providers@.take(i as int), original, current),
        {
            let w = self.providers[i];
            let ghost before = current;
            let next = w.apply(current);
            match next {
                Ok(r) => {
                    assert(self.providers@.take(i + 1).drop_last() =~= self.providers@.take(i as int));
                    assert(windowed(self.providers@.take(i + 1).last(), before, r));
                    current = r;
                },
                Err(_) => {
                    assert(false);
                    return next;
                },
            }
        }
        assert(self.providers@.take(n as int) =~= self.providers@);
        Ok(current)
    }
}

} // verus!

verus! {

// ---------------------------------------------------------------------------
// Prompt templates

/// The document is markdown: its language id is `markdown`, `md` or `mdx`,
/// ignoring ASCII case.
pub open spec fn markdown_language_id(language_id: Seq<char>) -> bool {
    let lower = ascii_lower(language_id);
    lower == "markdown"@ || lower == "md"@ || lower == "mdx"@
}

pub fn is_markdown_language(language_id: &str) -> (b: bool)
    ensures
        b == markdown_language_id(language_id@),
{
    let chars = chars_of(language_id);
    let lower = to_ascii_lower(chars.as_slice());
    crate::text::equals_literal(&lower, "markdown") || crate::text::equals_literal(&lower, "md") || crate::text::equals_literal(
        &lower,
        "mdx",
    )
}

#[derive(Debug, Clone, Copy, PartialEq, Eq, Structural)]
pub enum PromptKind {
    Code,
    Markdown,
}

/// A prompt chosen for a request.
#[derive(Debug, Clone, PartialEq, Eq)]
pub struct SelectedPrompt {
    pub name: String,
    pub kind: PromptKind,
    pub system_prompt: String,
}

pub open spec fn prompt_name(kind: PromptKind) -> Seq<char> {
    match kind {
        PromptKind::Code => "code_inline_completion"@,
        PromptKind::Markdown => "markdown_prose_completion"@,
    }
}

pub open spec fn prompt_text(kind: PromptKind) -> Seq<char> {
    match kind {
        PromptKind::Code => "Complete code at the cursor. Return only insertable code, without markdown fences, explanations, or repeated prefix text."@,
        PromptKind::Markdown => "Continue markdown prose at the cursor. Return only text to insert, preserving note style and avoiding explanations."@,
    }
}

/// `p` is the prompt of `kind`.
pub open spec fn is_prompt(p: SelectedPrompt, kind: PromptKind) -> bool {
    &&& p.kind == kind
    &&& p.name@ == prompt_name(kind)
    &&& p.system_prompt@ == prompt_text(kind)
}

/// A prompt template: when it applies and what it renders.
pub trait PromptTemplate {
    fn name(&self) -> &'static str;

    fn matches(&self, request: &AutocompleteRequest) -> bool;

    fn render(&self, request: &AutocompleteRequest) -> SelectedPrompt;
}

#[derive(Debug, Clone, Copy, Default)]
pub struct CodePromptTemplate;

impl PromptTemplate for CodePromptTemplate {
    fn name(&self) -> (res: &'static str)
        ensures
            res@ == prompt_name(PromptKind::Code),
    {
        "code_inline_completion"
    }

    fn matches(&self, request: &AutocompleteRequest) -> (b: bool)
        ensures
            b == !markdown_language_id(request.document.language_id@),
    {
        !is_markdown_language(request.document.language_id.as_str())
    }

    fn render(&self, _request: &AutocompleteRequest) -> (res: SelectedPrompt)
        ensures
            is_prompt(res, PromptKind::Code),
    {
        SelectedPrompt {
            name: String::from_str("code_inline_completion"),
            kind: PromptKind::Code,
            system_prompt: String::from_str(
                "Complete code at the cursor. Return only insertable code, without markdown fences, explanations, or repeated prefix text.",
            ),
        }
    }
}

#[derive(Debug, Clone, Copy, Default)]
pub struct MarkdownPromptTemplate;

impl PromptTemplate for MarkdownPromptTemplate {
    fn name(&self) -> (res: &'static str)
        ensures
            res@ == prompt_name(PromptKind::Markdown),
    {
        "markdown_prose_completion"
    }

    fn matches(&self, request: &AutocompleteRequest) -> (b: bool)
        ensures
            b == markdown_language_id(request.document.language_id@),
    {
        is_markdown_language(request.document.language_id.as_str())
    }

    fn render(&self, _request: &AutocompleteRequest) -> (res: SelectedPrompt)
        ensures
            is_prompt(res, PromptKind::Markdown),
    {
        SelectedPrompt {
            name: String::from_str("markdown_prose_completion"),
            kind: PromptKind::Markdown,
            system_prompt: String::from_str(
                "Continue markdown prose at the cursor. Return only text to insert, preserving note style and avoiding explanations.",
            ),
        }
    }
}

/// The built-in templates a registry is made of.
#[derive(Debug, Clone, Copy, PartialEq, Eq, Structural)]
pub enum PromptTemplateKind {
    Markdown,
    Code,
}

pub open spec fn template_matches(t: PromptTemplateKind, markdown: bool) -> bool {
    match t {
        PromptTemplateKind::Markdown => markdown,
        PromptTemplateKind::Code => !markdown,
    }
}

pub open spec fn template_prompt(t: PromptTemplateKind) -> PromptKind {
    match t {
        PromptTemplateKind::Markdown => PromptKind::Markdown,
        PromptTemplateKind::Code => PromptKind::Code,
    }
}

/// The prompt of the first template that matches; the code prompt when none
/// does.
pub open spec fn first_matching_prompt(ts: Seq<PromptTemplateKind>, markdown: bool) -> PromptKind
    decreases ts.len(),
{
    if ts.len() == 0 {
        PromptKind::Code
    } else if template_matches(ts[0], markdown) {
        template_prompt(ts[0])
    } else {
        first_matching_prompt(ts.drop_first(), markdown)
    }
}

#[derive(Debug, Clone)]
pub struct PromptTemplateRegistry {
    templates: Vec<PromptTemplateKind>,
}

impl PromptTemplateRegistry {
    pub closed spec fn templates(&self) -> Seq<PromptTemplateKind> {
        self.templates@
    }

    pub fn new(templates: Vec<PromptTemplateKind>) -> (res: Self)
        ensures
            res.templates() == templates@,
    {
        PromptTemplateRegistry { templates }
    }

    pub fn select(&self, request: &AutocompleteRequest) -> (res: SelectedPrompt)
        ensures
            is_prompt(
                res,
                first_matching_prompt(
                    self.templates(),
                    markdown_language_id(request.document.language_id@),
                ),
            ),
    {
        let markdown = MarkdownPromptTemplate.matches(request);
        let n = self.templates.len();
        assert(self.templates@.skip(0) =~= self.templates@);
        for i in 0..n
            invariant
                n == self.templates@.len(),
                markdown == markdown_language_id(request.document.language_id@),
                first_matching_prompt(self.templates@, markdown) == first_matching_prompt(
                    self.templates@.skip(i as int),
                    markdown,
                ),
        {
            let t = self.templates[i];
            let ghost rest = self.templates@.skip(i as int);
            assert(rest[0] == t);
            assert(rest.drop_first() =~= self.templates@.skip(i + 1));
            match t {
                PromptTemplateKind::Markdown => {
                    if markdown {
                        return MarkdownPromptTemplate.render(request);
                    }
                },
                PromptTemplateKind::Code => {
                    if !markdown {
                        return CodePromptTemplate.render(request);
                    }
                },
            }
        }
        assert(self.templates@.skip(n as int) =~= Seq::<PromptTemplateKind>::empty());
        CodePromptTemplate.render(request)
    }
}

impl Default for PromptTemplateRegistry {
    fn default() -> (res: Self)
        ensures
            res.templates() == seq![PromptTemplateKind::Markdown, PromptTemplateKind::Code],
    {
        let mut templates: Vec<PromptTemplateKind> = Vec::new();
        templates.push(PromptTemplateKind::Markdown);
        templates.push(PromptTemplateKind::Code);
        assert(templates@ =~= seq![PromptTemplateKind::Markdown, PromptTemplateKind::Code]);
        PromptTemplateRegistry { templates }
    }
}

/// Builds the standard postprocessor pipeline.
#[derive(Debug, Clone, Default)]
pub struct PostprocessorRegistry;

impl PostprocessorRegistry {
    pub fn pipeline(&self) -> (res: PostprocessorPipeline)
        ensures
            res.steps() == default_steps(),
    {
        PostprocessorPipeline::default()
    }
}

} // verus!

verus! {

// ---------------------------------------------------------------------------
// Runtime

/// A request after the context providers, with its prompt.
#[derive(Debug, Clone, PartialEq, Eq)]
pub struct PreparedRequest {
    pub request: AutocompleteRequest,
    pub prompt: SelectedPrompt,
}

/// The addons a broker runs on every request.
#[derive(Debug)]
pub struct AddonRuntime {
    context_providers: ContextProviderRegistry,
    prompt_templates: PromptTemplateRegistry,
    postprocessors: PostprocessorRegistry,
    policy: PolicyEngine,
}

/// What `prepare` answers for the windowed request `w`: refused when the
/// document is excluded, refused when its context is over the limit,
/// otherwise `w` with the prompt of the first matching template.
pub open spec fn prepare_outcome(
    patterns: Seq<Seq<char>>,
    limit: usize,
    templates: Seq<PromptTemplateKind>,
    w: AutocompleteRequest,
    res: Result<PreparedRequest, AddonError>,
) -> bool {
    match res {
        Ok(p) => {
            &&& p.request == w
            &&& exclusion_consistent(patterns, w.document.uri@, false)
            &&& crate::policy::context_bytes(w) <= limit
            &&& is_prompt(
                p.prompt,
                first_matching_prompt(templates, markdown_language_id(w.document.language_id@)),
            )
        },
        Err(AddonError::ExcludedPath { uri }) => {
            &&& uri@ == w.document.uri@
            &&& exclusion_consistent(patterns, w.document.uri@, true)
        },
        Err(AddonError::RemoteContextTooLarge { limit: l, actual }) => {
            &&& exclusion_consistent(patterns, w.document.uri@, false)
            &&& l == limit
            &&& actual == crate::policy::context_bytes(w)
            &&& actual > limit
        },
        Err(_) => false,
    }
}

impl AddonRuntime {
    pub closed spec fn windows(&self) -> Seq<NearbyTextWindow> {
        self.context_providers.windows()
    }

    pub closed spec fn templates(&self) -> Seq<PromptTemplateKind> {
        self.prompt_templates.templates()
    }

    pub closed spec fn patterns(&self) -> Seq<Seq<char>> {
        self.policy.patterns()
    }

    pub closed spec fn limit(&self) -> usize {
        self.policy.limit()
    }

    /// The built-in addons for these settings: one window, the markdown and
    /// code templates, the standard pipeline, and the privacy policy. Fails
    /// as `PolicyEngine::new` does on the excluded globs.
    pub fn new(settings: AddonSettings) -> (res: Result<Self, AddonError>)
        ensures
            res is Ok <==> all_globs_valid(string_views(settings.excluded_globs@))
                && glob_set_builds(string_views(settings.excluded_globs@)),
            res matches Ok(r) ==> {
                &&& r.windows() == seq![
                    NearbyTextWindow {
                        prefix_chars: settings.prefix_chars,
                        suffix_chars: settings.suffix_chars,
                    },
                ]
                &&& r.templates() == seq![PromptTemplateKind::Markdown, PromptTemplateKind::Code]
                &&& r.limit() == settings.remote_context_byte_limit
                &&& r.patterns() == string_views(settings.excluded_globs@)
            },
            res matches Err(AddonError::InvalidGlob { pattern, .. }) ==> exists|i: int|
                first_invalid_glob(string_views(settings.excluded_globs@), i)
                    && pattern@ == string_views(settings.excluded_globs@)[i],
            res matches Err(AddonError::GlobBuild(_)) ==> all_globs_valid(
                string_views(settings.excluded_globs@),
            ) && !glob_set_builds(string_views(settings.excluded_globs@)),
            !(res matches Err(AddonError::ExcludedPath { .. })),
            !(res matches Err(AddonError::RemoteContextTooLarge { .. })),
    {
        let policy = match PolicyEngine::new(
            settings.remote_context_byte_limit,
            settings.excluded_globs,
        ) {
            Ok(p) => p,
            Err(e) => {
                return Err(e);
            },
        };
        Ok(
            AddonRuntime {
                context_providers: ContextProviderRegistry::default_for(
                    settings.prefix_chars,
                    settings.suffix_chars,
                ),
                prompt_templates: PromptTemplateRegistry::default(),
                postprocessors: PostprocessorRegistry,
                policy,
            },
        )
    }

    /// The addons with default settings. The default globs are compiled
    /// here, so this can fail as `new` does.
    pub fn default() -> (res: Result<Self, AddonError>)
        ensures
            res is Ok <==> all_globs_valid(default_excluded_globs()) && glob_set_builds(
                default_excluded_globs(),
            ),
            res matches Ok(r) ==> {
                &&& r.windows() == seq![NearbyTextWindow { prefix_chars: 3500, suffix_chars: 1200 }]
                &&& r.templates() == seq![PromptTemplateKind::Markdown, PromptTemplateKind::Code]
                &&& r.limit() == 6000
                &&& r.patterns() == default_excluded_globs()
            },
    {
        AddonRuntime::new(AddonSettings::default())
    }

    /// Windows the request context, applies the privacy policy to the
    /// windowed request, and selects its prompt.
    pub fn prepare(&self, request: AutocompleteRequest) -> (res: Result<PreparedRequest, AddonError>)
        ensures
            exists|w: AutocompleteRequest|
                windowed_all(self.windows(), request, w) && prepare_outcome(
                    self.patterns(),
                    self.limit(),
                    self.templates(),
                    w,
                    res,
                ),
    {
        let ghost original = request;
        let request = match self.context_providers.apply(request) {
            Ok(r) => r,
            Err(e) => {
                return Err(e);
            },
        };
        match self.policy.enforce(&request) {
            Ok(()) => {},
            Err(e) => {
                assert(windowed_all(self.windows(), original, request));
                return Err(e);
            },
        }
        let prompt = self.prompt_templates.select(&request);
        assert(windowed_all(self.windows(), original, request));
        Ok(PreparedRequest { request, prompt })
    }

    pub fn postprocessor_pipeline(&self) -> (res: PostprocessorPipeline)
        ensures
            res.steps() == default_steps(),
    {
        self.postprocessors.pipeline()
    }
}

} // verus!
