//! The broker's configuration, its provider selection, the per-request
//! decisions of its endpoints, and the bookkeeping of requests in flight.
//! Serving HTTP, reading the configuration file and awaiting providers are
//! left to the caller.

use crate::addons::{
    default_excluded_glob_list, default_excluded_globs, prepare_outcome, same_but_context,
    windowed_all, AddonRuntime, AddonSettings, NearbyTextWindow, PreparedRequest,
    PromptTemplateKind,
};
use crate::engine::{
    answered_protocol_version, answered_request_id, join_errors, joined_errors, EngineCore,
};
use crate::globs::glob_set_builds;
use crate::mock::{MockProvider, MockProviderView, MOCK_CONFIDENCE_BITS};
use crate::pi::{PiProvider, PiProviderConfig};
use crate::policy::{
    all_globs_valid, context_bytes, exclusion_consistent, first_invalid_glob, AddonError,
};
use crate::postprocess::{default_steps, PostprocessStep};
use crate::protocol::{
    request_errors, AutocompleteRequest, AutocompleteResponse, CancelStatus, ErrorCode,
    HealthResponse, HealthStatus, ProtocolError, ProviderHealth, ProviderStatus, ResponseModel,
    Validate, ValidationLimits, PROTOCOL_VERSION,
};
use crate::text::{decimal, string_views};
use std::collections::{HashMap, HashSet};
use vstd::prelude::*;
use vstd::string::*;

verus! {

broadcast use vstd::std_specs::hash::group_hash_axioms;

/// Which provider serves completions.
#[derive(Debug, Clone, Copy, PartialEq, Eq, Structural)]
pub enum ProviderKind {
    Mock,
    Pi,
}

#[derive(Debug, Clone, Copy, PartialEq, Eq)]
pub struct ProviderConfig {
    pub kind: ProviderKind,
}

impl Default for ProviderConfig {
    fn default() -> (res: Self)
        ensures
            res.kind == ProviderKind::Mock,
    {
        ProviderConfig { kind: ProviderKind::Mock }
    }
}

/// Settings of the mock provider; `confidence_bits` is the bit pattern of
/// the binary64 confidence it reports.
#[derive(Debug, Clone, PartialEq, Eq)]
pub struct MockProviderConfig {
    pub insert_text: String,
    pub confidence_bits: u64,
    pub delay_ms: u64,
}

impl Default for MockProviderConfig {
    fn default() -> (res: Self)
        ensures
            res.insert_text@ == "mock completion"@,
            res.confidence_bits == MOCK_CONFIDENCE_BITS,
            res.delay_ms == 0,
    {
        MockProviderConfig {
            insert_text: String::from_str("mock completion"),
            confidence_bits: MOCK_CONFIDENCE_BITS,
            delay_ms: 0,
        }
    }
}

/// Settings of the `pi` provider as the configuration file gives them.
#[derive(Debug, Clone, PartialEq, Eq)]
pub struct PiProviderSettings {
    pub command: String,
    pub provider: Option<String>,
    pub model: String,
    pub thinking: String,
    pub timeout_ms: u64,
    pub repair_retry: bool,
}

/// The provider configuration that settings describe.
pub open spec fn pi_config_of(s: PiProviderSettings) -> PiProviderConfig {
    PiProviderConfig {
        command: s.command,
        provider: s.provider,
        model: s.model,
        thinking: s.thinking,
        timeout_ms: s.timeout_ms,
        repair_retry: s.repair_retry,
    }
}

fn clone_option_string(s: &Option<String>) -> (res: Option<String>)
    ensures
        res == *s,
{
    match s {
        Some(v) => Some(v.clone()),
        None => None,
    }
}

impl PiProviderSettings {
    pub fn to_provider_config(&self) -> (res: PiProviderConfig)
        ensures
            res == pi_config_of(*self),
    {
        PiProviderConfig {
            command: self.command.clone(),
            provider: clone_option_string(&self.provider),
            model: self.model.clone(),
            thinking: self.thinking.clone(),
            timeout_ms: self.timeout_ms,
            repair_retry: self.repair_retry,
        }
    }
}

impl Default for PiProviderSettings {
    /// The settings of the default `pi` provider configuration.
    fn default() -> (res: Self)
        ensures
            res.command@ == "pi"@,
            res.provider.is_none(),
            res.model@ == "openai/gpt-5.5"@,
            res.thinking@ == "minimal"@,
            res.timeout_ms == 2500,
            res.repair_retry,
    {
        let provider = PiProviderConfig::default();
        PiProviderSettings {
            command: provider.command,
            provider: provider.provider,
            model: provider.model,
            thinking: provider.thinking,
            timeout_ms: provider.timeout_ms,
            repair_retry: provider.repair_retry,
        }
    }
}

#[derive(Debug, Clone, Copy, PartialEq, Eq, Structural)]
pub enum TriggerMode {
    IdleOrManual,
    Manual,
}

#[derive(Debug, Clone, Copy, PartialEq, Eq)]
pub struct TriggerConfig {
    pub mode: TriggerMode,
    pub idle_delay_ms: u64,
    pub min_prefix_chars: usize,
}

impl Default for TriggerConfig {
    fn default() -> (res: Self)
        ensures
            res.mode == TriggerMode::IdleOrManual,
            res.idle_delay_ms == 500,
            res.min_prefix_chars == 8,
    {
        TriggerConfig { mode: TriggerMode::IdleOrManual, idle_delay_ms: 500, min_prefix_chars: 8 }
    }
}

#[derive(Debug, Clone, Copy, PartialEq, Eq)]
pub struct ContextConfig {
    pub prefix_chars: usize,
    pub suffix_chars: usize,
    pub include_open_files: bool,
    pub include_workspace_symbols: bool,
}

impl Default for ContextConfig {
    fn default() -> (res: Self)
        ensures
            res.prefix_chars == 3500,
            res.suffix_chars == 1200,
            !res.include_open_files,
            !res.include_workspace_symbols,
    {
        ContextConfig {
            prefix_chars: 3_500,
            suffix_chars: 1_200,
            include_open_files: false,
            include_workspace_symbols: false,
        }
    }
}

#[derive(Debug, Clone, PartialEq, Eq)]
pub struct PrivacyConfig {
    pub remote_context_byte_limit: usize,
    pub excluded_globs: Vec<String>,
}

impl Default for PrivacyConfig {
    fn default() -> (res: Self)
        ensures
            res.remote_context_byte_limit == 6000,
            string_views(res.excluded_globs@) == default_excluded_globs(),
    {
        let excluded_globs = default_excluded_glob_list();
        PrivacyConfig { remote_context_byte_limit: 6_000, excluded_globs }
    }
}

/// The broker's configuration.
#[derive(Debug, Clone, PartialEq, Eq)]
pub struct BrokerConfig {
    pub bind_addr: String,
    pub provider: ProviderConfig,
    pub mock: MockProviderConfig,
    pub pi: PiProviderSettings,
    pub trigger: TriggerConfig,
    pub context: ContextConfig,
    pub privacy: PrivacyConfig,
}

impl Default for BrokerConfig {
    fn default() -> (res: Self)
        ensures
            res.bind_addr@ == "127.0.0.1:32145"@,
            res.provider.kind == ProviderKind::Mock,
            res.mock.insert_text@ == "mock completion"@,
            res.mock.confidence_bits == MOCK_CONFIDENCE_BITS,
            res.mock.delay_ms == 0,
            res.pi.command@ == "pi"@,
            res.pi.provider.is_none(),
            res.pi.model@ == "openai/gpt-5.5"@,
            res.pi.thinking@ == "minimal"@,
            res.pi.timeout_ms == 2500,
            res.pi.repair_retry,
            res.trigger.mode == TriggerMode::IdleOrManual,
            res.trigger.idle_delay_ms == 500,
            res.trigger.min_prefix_chars == 8,
            res.context.prefix_chars == 3500,
            res.context.suffix_chars == 1200,
            !res.context.include_open_files,
            !res.context.include_workspace_symbols,
            res.privacy.remote_context_byte_limit == 6000,
            string_views(res.privacy.excluded_globs@) == default_excluded_globs(),
    {
        BrokerConfig {
            bind_addr: String::from_str("127.0.0.1:32145"),
            provider: ProviderConfig::default(),
            mock: MockProviderConfig::default(),
            pi: PiProviderSettings::default(),
            trigger: TriggerConfig::default(),
            context: ContextConfig::default(),
            privacy: PrivacyConfig::default(),
        }
    }
}

/// Why the broker refused a configuration.
#[derive(Debug)]
pub enum ServerError {
    Addon(AddonError),
    InvalidConfig(String),
}

impl ServerError {
    /// The text this error displays.
    pub fn message(&self) -> (res: String)
        ensures
            self matches ServerError::InvalidConfig(m) ==> res@ == "invalid config: "@ + m@,
            self matches ServerError::Addon(_) ==> "addon error: "@.is_prefix_of(res@),
    {
        match self {
            ServerError::InvalidConfig(m) => {
                let mut s = String::from_str("invalid config: ");
                s.append(m.as_str());
                s
            },
            ServerError::Addon(e) => {
                let mut s = String::from_str("addon error: ");
                let ghost head = s@;
                let t = e.message();
                s.append(t.as_str());
                assert(head.is_prefix_of(s@)) by {
                    assert(s@.subrange(0, head.len() as int) =~= head);
                }
                s
            },
        }
    }
}

/// The first rule of the configuration that `c` breaks, as the message that
/// reports it: the context windows cannot both be empty, and the remote
/// context limit and the idle delay must be positive.
pub open spec fn config_rule_violation(c: BrokerConfig) -> Option<Seq<char>> {
    if c.context.prefix_chars + c.context.suffix_chars == 0 {
        Some("context prefix_chars and suffix_chars cannot both be zero"@)
    } else if c.privacy.remote_context_byte_limit == 0 {
        Some("privacy remote_context_byte_limit must be greater than zero"@)
    } else if c.trigger.idle_delay_ms == 0 {
        Some("trigger idle_delay_ms must be greater than zero"@)
    } else {
        None
    }
}

/// The exclusion globs of a configuration, as text.
pub open spec fn config_globs(c: BrokerConfig) -> Seq<Seq<char>> {
    string_views(c.privacy.excluded_globs@)
}

/// A configuration the broker accepts: it breaks no rule and its exclusion
/// globs compile into one set.
pub open spec fn config_accepted(c: BrokerConfig) -> bool {
    &&& config_rule_violation(c) is None
    &&& all_globs_valid(config_globs(c))
    &&& glob_set_builds(config_globs(c))
}

fn clone_strings(v: &Vec<String>) -> (res: Vec<String>)
    ensures
        res@ == v@,
{
    let mut out: Vec<String> = Vec::new();
    let n = v.len();
    for i in 0..n
        invariant
            n == v.len(),
            out@ == v@.take(i as int),
    {
        out.push(v[i].clone());
        assert(out@ =~= v@.take(i + 1));
    }
    assert(v@.take(n as int) =~= v@);
    out
}

impl BrokerConfig {
    /// The addon settings of this configuration.
    pub fn addon_settings(&self) -> (res: AddonSettings)
        ensures
            res.prefix_chars == self.context.prefix_chars,
            res.suffix_chars == self.context.suffix_chars,
            res.remote_context_byte_limit == self.privacy.remote_context_byte_limit,
            res.excluded_globs@ == self.privacy.excluded_globs@,
    {
        AddonSettings {
            prefix_chars: self.context.prefix_chars,
            suffix_chars: self.context.suffix_chars,
            remote_context_byte_limit: self.privacy.remote_context_byte_limit,
            excluded_globs: clone_strings(&self.privacy.excluded_globs),
        }
    }

    /// Checks the configuration: the first broken rule is reported as
    /// `InvalidConfig`; otherwise the addons are built, and their failure
    /// is reported as `Addon`.
    pub fn validate(&self) -> (res: Result<(), ServerError>)
        ensures
            res is Ok <==> config_accepted(*self),
            config_rule_violation(*self) matches Some(m) ==> (res matches Err(
                ServerError::InvalidConfig(e),
            ) && e@ == m),
            config_rule_violation(*self) is None ==> !(res matches Err(
                ServerError::InvalidConfig(_),
            )),
            res matches Err(ServerError::Addon(AddonError::InvalidGlob { pattern, .. }))
                ==> exists|i: int|
                first_invalid_glob(config_globs(*self), i) && pattern@ == config_globs(
                    *self,
                )[i],
            res matches Err(ServerError::Addon(AddonError::GlobBuild(_))) ==> all_globs_valid(
                config_globs(*self),
            ) && !glob_set_builds(config_globs(*self)),
            !(res matches Err(ServerError::Addon(AddonError::ExcludedPath { .. }))),
            !(res matches Err(ServerError::Addon(AddonError::RemoteContextTooLarge { .. }))),
    {
        if self.context.prefix_chars == 0 && self.context.suffix_chars == 0 {
            return Err(
                ServerError::InvalidConfig(
                    String::from_str("context prefix_chars and suffix_chars cannot both be zero"),
                ),
            );
        }
        if self.privacy.remote_context_byte_limit == 0 {
            return Err(
                ServerError::InvalidConfig(
                    String::from_str("privacy remote_context_byte_limit must be greater than zero"),
                ),
            );
        }
        if self.trigger.idle_delay_ms == 0 {
            return Err(
                ServerError::InvalidConfig(
                    String::from_str("trigger idle_delay_ms must be greater than zero"),
                ),
            );
        }
        let settings = self.addon_settings();
        assert(string_views(settings.excluded_globs@) == config_globs(*self));
        match AddonRuntime::new(settings) {
            Ok(_) => Ok(()),
            Err(e) => Err(ServerError::Addon(e)),
        }
    }
}

// ---------------------------------------------------------------------------
// Provider selection

/// The provider a configuration selects.
#[derive(Debug, Clone)]
pub enum ConfiguredProvider {
    Mock(MockProvider),
    Pi(PiProvider),
}

/// The mock that mock settings describe: their text and confidence, source
/// `mock`, and their delay when it is positive.
pub open spec fn configured_mock(c: MockProviderConfig) -> MockProviderView {
    MockProviderView {
        insert_text: c.insert_text@,
        confidence_bits: c.confidence_bits,
        source: "mock"@,
        delay_ms: if c.delay_ms > 0 {
            Some(c.delay_ms)
        } else {
            None
        },
    }
}

/// The name the broker reports for its provider.
pub open spec fn provider_name_of(c: BrokerConfig) -> Seq<char> {
    match c.provider.kind {
        ProviderKind::Mock => "mock"@,
        ProviderKind::Pi => "pi:"@ + c.pi.model@,
    }
}

/// The health the broker reports for its provider before it has run: the
/// mock is available, `pi` is not known until called.
pub open spec fn provider_status_of(c: BrokerConfig) -> ProviderStatus {
    match c.provider.kind {
        ProviderKind::Mock => ProviderStatus::Available,
        ProviderKind::Pi => ProviderStatus::Unknown,
    }
}

/// `p` is the provider that `c` configures.
pub open spec fn selects(c: BrokerConfig, p: ConfiguredProvider) -> bool {
    match c.provider.kind {
        ProviderKind::Mock => p matches ConfiguredProvider::Mock(m) && m@ == configured_mock(c.mock),
        ProviderKind::Pi => p matches ConfiguredProvider::Pi(q) && q.spec_config() == pi_config_of(
            c.pi,
        ),
    }
}

/// The provider of a configuration, with its name and status.
pub fn provider_from_config(config: &BrokerConfig) -> (res: (String, ProviderStatus, ConfiguredProvider))
    ensures
        res.0@ == provider_name_of(*config),
        res.1 == provider_status_of(*config),
        selects(*config, res.2),
{
    match config.provider.kind {
        ProviderKind::Mock => {
            let mut provider = MockProvider::new(config.mock.insert_text.clone()).with_confidence(
                config.mock.confidence_bits,
            ).with_source(String::from_str("mock"));
            if config.mock.delay_ms > 0 {
                provider = provider.with_delay(config.mock.delay_ms);
            }
            (String::from_str("mock"), ProviderStatus::Available, ConfiguredProvider::Mock(provider))
        },
        ProviderKind::Pi => {
            let provider_config = config.pi.to_provider_config();
            let mut name = String::from_str("pi:");
            name.append(provider_config.model.as_str());
            (name, ProviderStatus::Unknown, ConfiguredProvider::Pi(PiProvider::new(provider_config)))
        },
    }
}

// ---------------------------------------------------------------------------
// Requests

/// How the broker answers a request that fails validation, if it does: a
/// protocol error listing every problem, `unsupported_protocol_version`
/// when the version is not this protocol's and `invalid_request` otherwise.
pub open spec fn rejection(request: AutocompleteRequest) -> Option<ResponseModel> {
    let problems = request_errors(request, ValidationLimits::spec_default());
    if problems.len() > 0 {
        Some(
            ResponseModel::Error {
                protocol_version: PROTOCOL_VERSION,
                request_id: request.request_id,
                code: if request.protocol_version != PROTOCOL_VERSION {
                    ErrorCode::UnsupportedProtocolVersion
                } else {
                    ErrorCode::InvalidRequest
                },
                message: joined_errors(problems),
                metadata: None,
            },
        )
    } else {
        None
    }
}

/// The HTTP status of a refusal by the addons.
pub open spec fn addon_status(e: AddonError) -> u16 {
    match e {
        AddonError::RemoteContextTooLarge { .. } => 413,
        AddonError::ExcludedPath { .. } => 400,
        AddonError::InvalidGlob { .. } => 500,
        AddonError::GlobBuild(_) => 500,
    }
}

pub fn addon_error_status(error: &AddonError) -> (res: u16)
    ensures
        res == addon_status(*error),
{
    match error {
        AddonError::RemoteContextTooLarge { .. } => 413,
        AddonError::ExcludedPath { .. } => 400,
        AddonError::InvalidGlob { .. } => 500,
        AddonError::GlobBuild(_) => 500,
    }
}

/// A protocol error answer without metadata.
pub fn protocol_error_response(request_id: u128, code: ErrorCode, message: String) -> (res:
    AutocompleteResponse)
    ensures
        res@ == (ResponseModel::Error {
            protocol_version: PROTOCOL_VERSION,
            request_id,
            code,
            message: message@,
            metadata: None,
        }),
{
    AutocompleteResponse::Error {
        protocol_version: PROTOCOL_VERSION,
        request_id,
        error: ProtocolError { code, message },
        metadata: None,
    }
}

/// What intake answers for a valid request whose windowed form is `w`:
/// the prepared request, or a refusal with its status: 400 for an
/// excluded document, 413 for context over the remote limit.
pub open spec fn intake_outcome(
    patterns: Seq<Seq<char>>,
    limit: usize,
    templates: Seq<PromptTemplateKind>,
    w: AutocompleteRequest,
    res: Result<PreparedRequest, (u16, AutocompleteResponse)>,
) -> bool {
    match res {
        Ok(p) => prepare_outcome(patterns, limit, templates, w, Ok(p)),
        Err((status, response)) => {
            ||| {
                &&& exclusion_consistent(patterns, w.document.uri@, true)
                &&& status == 400
                &&& response@ == ResponseModel::Error {
                    protocol_version: PROTOCOL_VERSION,
                    request_id: w.request_id,
                    code: ErrorCode::InvalidRequest,
                    message: "document path is excluded by broker privacy policy: "@
                        + w.document.uri@,
                    metadata: None,
                }
            }
            ||| {
                &&& exclusion_consistent(patterns, w.document.uri@, false)
                &&& context_bytes(w) > limit
                &&& status == 413
                &&& response@ == ResponseModel::Error {
                    protocol_version: PROTOCOL_VERSION,
                    request_id: w.request_id,
                    code: ErrorCode::ContextTooLarge,
                    message: "request context is "@ + decimal(context_bytes(w))
                        + " bytes after broker context processing, exceeding remote limit "@
                        + decimal(limit as nat),
                    metadata: None,
                }
            }
        },
    }
}

/// A request the broker lets through to its provider respects the privacy
/// policy: its document is not excluded and its context is within the
/// remote limit. Every refusal is a client error, 400 or 413.
pub proof fn law_served_requests_respect_privacy(
    patterns: Seq<Seq<char>>,
    limit: usize,
    templates: Seq<PromptTemplateKind>,
    w: AutocompleteRequest,
    res: Result<PreparedRequest, (u16, AutocompleteResponse)>,
)
    requires
        intake_outcome(patterns, limit, templates, w, res),
    ensures
        res matches Ok(p) ==> {
            &&& p.request == w
            &&& exclusion_consistent(patterns, p.request.document.uri@, false)
            &&& context_bytes(p.request) <= limit
        },
        res matches Err((status, _)) ==> status == 400 || status == 413,
{
}

/// Every refusal at intake carries the request's id and this protocol's
/// version.
pub proof fn law_refusals_echo_request_id(
    request: AutocompleteRequest,
    patterns: Seq<Seq<char>>,
    limit: usize,
    templates: Seq<PromptTemplateKind>,
    w: AutocompleteRequest,
    res: Result<PreparedRequest, (u16, AutocompleteResponse)>,
)
    requires
        same_but_context(request, w),
        intake_outcome(patterns, limit, templates, w, res),
    ensures
        rejection(request) matches Some(r) ==> answered_request_id(r) == request.request_id
            && answered_protocol_version(r) == PROTOCOL_VERSION,
        res matches Err((_, response)) ==> answered_request_id(response@) == request.request_id
            && answered_protocol_version(response@) == PROTOCOL_VERSION,
{
}

/// What the broker runs with for one configuration.
#[derive(Debug)]
pub struct BrokerRuntime {
    config: BrokerConfig,
    provider_name: String,
    provider_status: ProviderStatus,
    provider: ConfiguredProvider,
    engine: EngineCore,
    addons: AddonRuntime,
}

impl BrokerRuntime {
    pub closed spec fn spec_config(&self) -> BrokerConfig {
        self.config
    }

    pub closed spec fn spec_provider_name(&self) -> Seq<char> {
        self.provider_name@
    }

    pub closed spec fn spec_provider_status(&self) -> ProviderStatus {
        self.provider_status
    }

    pub closed spec fn spec_provider(&self) -> ConfiguredProvider {
        self.provider
    }

    pub closed spec fn spec_engine(&self) -> EngineCore {
        self.engine
    }

    pub closed spec fn spec_addons(&self) -> AddonRuntime {
        self.addons
    }

    /// The runtime of a configuration: its addons, the provider it selects,
    /// and an engine with the addons' postprocessing. Fails when the
    /// exclusion globs do not compile.
    pub fn from_config(config: BrokerConfig) -> (res: Result<Self, ServerError>)
        ensures
            res is Ok <==> all_globs_valid(config_globs(config)) && glob_set_builds(
                config_globs(config),
            ),
            res matches Ok(r) ==> {
                &&& r.spec_config() == config
                &&& r.spec_provider_name() == provider_name_of(config)
                &&& r.spec_provider_status() == provider_status_of(config)
                &&& selects(config, r.spec_provider())
                &&& r.spec_engine().steps() == default_steps()
                &&& r.spec_addons().windows() == seq![
                    NearbyTextWindow {
                        prefix_chars: config.context.prefix_chars,
                        suffix_chars: config.context.suffix_chars,
                    },
                ]
                &&& r.spec_addons().templates() == seq![
                    PromptTemplateKind::Markdown,
                    PromptTemplateKind::Code,
                ]
                &&& r.spec_addons().limit() == config.privacy.remote_context_byte_limit
                &&& r.spec_addons().patterns() == config_globs(config)
            },
            res matches Err(e) ==> e is Addon,
            res matches Err(ServerError::Addon(AddonError::InvalidGlob { pattern, .. }))
                ==> exists|i: int|
                first_invalid_glob(config_globs(config), i) && pattern@ == config_globs(config)[i],
            res matches Err(ServerError::Addon(AddonError::GlobBuild(_))) ==> all_globs_valid(
                config_globs(config),
            ) && !glob_set_builds(config_globs(config)),
    {
        let settings = config.addon_settings();
        assert(string_views(settings.excluded_globs@) == config_globs(config));
        let addons = match AddonRuntime::new(settings) {
            Ok(a) => a,
            Err(e) => {
                return Err(ServerError::Addon(e));
            },
        };
        let (provider_name, provider_status, provider) = provider_from_config(&config);
        let engine = EngineCore::new(addons.postprocessor_pipeline());
        Ok(BrokerRuntime { config, provider_name, provider_status, provider, engine, addons })
    }

    pub fn config(&self) -> (res: &BrokerConfig)
        ensures
            *res == self.spec_config(),
    {
        &self.config
    }

    pub fn provider(&self) -> (res: &ConfiguredProvider)
        ensures
            *res == self.spec_provider(),
    {
        &self.provider
    }

    pub fn engine(&self) -> (res: &EngineCore)
        ensures
            *res == self.spec_engine(),
    {
        &self.engine
    }

    pub fn addons(&self) -> (res: &AddonRuntime)
        ensures
            *res == self.spec_addons(),
    {
        &self.addons
    }

    /// The answer to a health check.
    pub fn health(&self) -> (res: HealthResponse)
        ensures
            res.protocol_version == PROTOCOL_VERSION,
            res.status == HealthStatus::Healthy,
            res.provider.name@ == self.spec_provider_name(),
            res.provider.status == self.spec_provider_status(),
    {
        HealthResponse {
            protocol_version: PROTOCOL_VERSION,
            status: HealthStatus::Healthy,
            provider: ProviderHealth {
                name: self.provider_name.clone(),
                status: self.provider_status,
            },
        }
    }

    /// Takes in a request for completion: an invalid request is rejected with
    /// status 400; a valid one is windowed and prepared by the addons, whose
    /// refusal comes back with its status.
    pub fn intake(&self, request: AutocompleteRequest) -> (res: Result<
        PreparedRequest,
        (u16, AutocompleteResponse),
    >)
        ensures
            rejection(request) matches Some(r) ==> (res matches Err((status, response)) && status
                == 400 && response@ == r),
            rejection(request) is None ==> exists|w: AutocompleteRequest|
                windowed_all(self.spec_addons().windows(), request, w) && intake_outcome(
                    self.spec_addons().patterns(),
                    self.spec_addons().limit(),
                    self.spec_addons().templates(),
                    w,
                    res,
                ),
    {
        match request.validate() {
            Err(errors) => {
                let code = if request.protocol_version != PROTOCOL_VERSION {
                    ErrorCode::UnsupportedProtocolVersion
                } else {
                    ErrorCode::InvalidRequest
                };
                let message = join_errors(&errors);
                return Err((400, protocol_error_response(request.request_id, code, message)));
            },
            Ok(()) => {},
        }
        let ghost original = request;
        let request_id = request.request_id;
        let prepared = self.addons.prepare(request);
        let ghost w = choose|w: AutocompleteRequest|
            windowed_all(self.addons.windows(), original, w) && prepare_outcome(
                self.addons.patterns(),
                self.addons.limit(),
                self.addons.templates(),
                w,
                prepared,
            );
        proof {
            crate::addons::law_windowing_changes_only_context(self.addons.windows(), original, w);
        }
        let res = match prepared {
            Ok(p) => Ok(p),
            Err(e) => {
                let status = addon_error_status(&e);
                let code = e.error_code();
                let message = e.message();
                Err((status, protocol_error_response(request_id, code, message)))
            },
        };
        assert(windowed_all(self.spec_addons().windows(), original, w) && intake_outcome(
            self.spec_addons().patterns(),
            self.spec_addons().limit(),
            self.spec_addons().templates(),
            w,
            res,
        ));
        res
    }
}

// ---------------------------------------------------------------------------
// Requests in flight

/// The requests a broker knows of: those in flight, each with the token
/// that cancels it, and those that completed.
pub struct RegistryView<T> {
    pub inflight: Map<u128, T>,
    pub completed: Set<u128>,
}

/// The bookkeeping of requests in flight and completed.
#[verifier::reject_recursive_types(T)]
pub struct RequestRegistry<T> {
    inflight: HashMap<u128, T>,
    completed: HashSet<u128>,
}

impl<T> View for RequestRegistry<T> {
    type V = RegistryView<T>;

    closed spec fn view(&self) -> RegistryView<T> {
        RegistryView { inflight: self.inflight@, completed: self.completed@ }
    }
}

/// What a cancel request for `id` is answered.
pub open spec fn cancel_status_of<T>(r: RegistryView<T>, id: u128) -> CancelStatus {
    if r.inflight.contains_key(id) {
        CancelStatus::Cancelled
    } else if r.completed.contains(id) {
        CancelStatus::AlreadyCompleted
    } else {
        CancelStatus::NotFound
    }
}

/// The registry after request `id` starts with `token`.
pub open spec fn started<T>(r: RegistryView<T>, id: u128, token: T) -> RegistryView<T> {
    RegistryView { inflight: r.inflight.insert(id, token), completed: r.completed.remove(id) }
}

/// The registry after request `id` completes.
pub open spec fn finished<T>(r: RegistryView<T>, id: u128) -> RegistryView<T> {
    RegistryView { inflight: r.inflight.remove(id), completed: r.completed.insert(id) }
}

/// No request is both in flight and completed.
pub open spec fn exclusive<T>(r: RegistryView<T>) -> bool {
    forall|id: u128| !(#[trigger] r.inflight.contains_key(id) && r.completed.contains(id))
}

/// A request that has started answers a cancel with `cancelled`, whatever
/// happened to it before.
pub proof fn law_started_request_is_cancellable<T>(r: RegistryView<T>, id: u128, token: T)
    ensures
        cancel_status_of(started(r, id, token), id) == CancelStatus::Cancelled,
{
}

/// A request that has finished answers a cancel with `already_completed`.
pub proof fn law_finished_request_is_already_completed<T>(r: RegistryView<T>, id: u128)
    ensures
        cancel_status_of(finished(r, id), id) == CancelStatus::AlreadyCompleted,
{
}

/// A registry that has seen no request answers every cancel with
/// `not_found`.
pub proof fn law_unknown_request_is_not_found<T>(id: u128)
    ensures
        cancel_status_of(
            RegistryView::<T> { inflight: Map::empty(), completed: Set::empty() },
            id,
        ) == CancelStatus::NotFound,
{
}

/// Starting or finishing one request leaves the answer for every other
/// request as it was.
pub proof fn law_other_requests_unaffected<T>(r: RegistryView<T>, id: u128, other: u128, token: T)
    requires
        id != other,
    ensures
        cancel_status_of(started(r, id, token), other) == cancel_status_of(r, other),
        cancel_status_of(finished(r, id), other) == cancel_status_of(r, other),
{
}

/// Starting and finishing requests keep every request either in flight or
/// completed, never both.
pub proof fn law_requests_stay_exclusive<T>(r: RegistryView<T>, id: u128, token: T)
    requires
        exclusive(r),
    ensures
        exclusive(started(r, id, token)),
        exclusive(finished(r, id)),
        exclusive(RegistryView::<T> { inflight: Map::empty(), completed: Set::empty() }),
{
}

impl<T> RequestRegistry<T> {
    pub fn new() -> (res: Self)
        ensures
            res@.inflight == Map::<u128, T>::empty(),
            res@.completed == Set::<u128>::empty(),
    {
        RequestRegistry { inflight: HashMap::new(), completed: HashSet::new() }
    }

    /// Records that request `request_id` started with `token`, and hands
    /// back the token of an earlier run of the same request, which the
    /// caller cancels.
    pub fn start(&mut self, request_id: u128, token: T) -> (previous: Option<T>)
        ensures
            final(self)@ == started(old(self)@, request_id, token),
            previous == (if old(self)@.inflight.contains_key(request_id) {
                Some(old(self)@.inflight[request_id])
            } else {
                None
            }),
    {
        let previous = self.inflight.insert(request_id, token);
        self.completed.remove(&request_id);
        previous
    }

    /// Records that request `request_id` completed.
    pub fn finish(&mut self, request_id: u128)
        ensures
            final(self)@ == finished(old(self)@, request_id),
    {
        self.inflight.remove(&request_id);
        self.completed.insert(request_id);
    }

    /// The answer to a cancel request, with the token to cancel when the
    /// request is in flight.
    pub fn cancel_request(&self, request_id: u128) -> (res: (CancelStatus, Option<&T>))
        ensures
            res.0 == cancel_status_of(self@, request_id),
            res.1 == (if self@.inflight.contains_key(request_id) {
                Some(&self@.inflight[request_id])
            } else {
                None
            }),
    {
        match self.inflight.get(&request_id) {
            Some(token) => (CancelStatus::Cancelled, Some(token)),
            None => {
                if self.completed.contains(&request_id) {
                    (CancelStatus::AlreadyCompleted, None)
                } else {
                    (CancelStatus::NotFound, None)
                }
            },
        }
    }
}

} // verus!
