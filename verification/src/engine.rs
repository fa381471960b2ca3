//! The engine's decisions around a provider call: which requests reach the
//! provider, and which response a provider outcome becomes. Running the
//! provider under its deadline and cancellation is left to the caller, which
//! reports elapsed times in milliseconds.

use crate::postprocess::{outcome_view, pipeline_result, PostprocessStep, PostprocessorPipeline};
use crate::protocol::{
    clamp_unit, clamp_unit_bits, field_message_text, request_errors, AutocompleteRequest,
    AutocompleteResponse, ErrorCode, FieldMessage, ProtocolError, ResponseMetadata,
    ResponseModel, Validate, ValidationErrors, ValidationLimits, PROTOCOL_VERSION,
};
use crate::provider::{ProviderError, ProviderOutput, ProviderResult};
use crate::text::{chars_of, is_blank, is_blank_chars};
use vstd::prelude::*;
use vstd::string::*;

verus! {

/// Milliseconds as a `u64`, saturating.
pub open spec fn saturate_millis(ms: u128) -> u64 {
    if ms > u64::MAX as u128 {
        u64::MAX
    } else {
        ms as u64
    }
}

pub fn millis_saturating(ms: u128) -> (res: u64)
    ensures
        res == saturate_millis(ms),
{
    if ms > u64::MAX as u128 {
        u64::MAX
    } else {
        ms as u64
    }
}

pub open spec fn metadata_model(latency_ms: u128, provider_ms: u128, postprocessed: bool) -> ResponseMetadata {
    ResponseMetadata {
        latency_ms: saturate_millis(latency_ms),
        provider_latency_ms: saturate_millis(provider_ms),
        postprocessed,
    }
}

pub fn metadata(latency_ms: u128, provider_ms: u128, postprocessed: bool) -> (res: ResponseMetadata)
    ensures
        res == metadata_model(latency_ms, provider_ms, postprocessed),
{
    ResponseMetadata {
        latency_ms: millis_saturating(latency_ms),
        provider_latency_ms: millis_saturating(provider_ms),
        postprocessed,
    }
}

pub fn cancelled_response(request_id: u128, latency_ms: u128, provider_ms: u128) -> (res: AutocompleteResponse)
    ensures
        res@ == (ResponseModel::Cancelled {
            protocol_version: PROTOCOL_VERSION,
            request_id,
            metadata: Some(metadata_model(latency_ms, provider_ms, false)),
        }),
{
    AutocompleteResponse::Cancelled {
        protocol_version: PROTOCOL_VERSION,
        request_id,
        metadata: Some(metadata(latency_ms, provider_ms, false)),
    }
}

/// The validation messages `"{field}: {message}"` joined with `"; "`.
pub open spec fn joined_errors(es: Seq<FieldMessage>) -> Seq<char>
    decreases es.len(),
{
    if es.len() == 0 {
        Seq::empty()
    } else if es.len() == 1 {
        field_message_text(es[0])
    } else {
        joined_errors(es.drop_last()) + "; "@ + field_message_text(es.last())
    }
}

pub fn join_errors(errors: &ValidationErrors) -> (res: String)
    ensures
        res@ == joined_errors(errors@),
{
    let mut res = String::new();
    let n = errors.0.len();
    for i in 0..n
        invariant
            n == errors.0@.len(),
            res@ == joined_errors(errors@.take(i as int)),
    {
        assert(errors@.take(i + 1).drop_last() =~= errors@.take(i as int));
        if i > 0 {
            res.append("; ");
        }
        let t = errors.0[i].display_text();
        res.append(t.as_str());
        assert(errors@.take(i + 1).last() == crate::protocol::error_view(errors.0@[i as int]));
    }
    assert(errors@.take(n as int) =~= errors@);
    res
}

/// The response a request gets before any provider runs, if any: a request
/// that fails validation is an error listing every problem, coded
/// `unsupported_protocol_version` when its version is not this protocol's
/// and `invalid_request` otherwise; a request already cancelled is
/// cancelled.
pub open spec fn admission(request: AutocompleteRequest, cancelled: bool, latency_ms: u128) -> Option<
    ResponseModel,
> {
    let problems = request_errors(request, ValidationLimits::spec_default());
    if problems.len() > 0 {
        Some(
            ResponseModel::Error {
                protocol_version: PROTOCOL_VERSION,
                request_id: request.request_id,
                code: if request.protocol_version != PROTOCOL_VERSION {
                    ErrorCode::UnsupportedProtocolVersion
                } else {
                    ErrorCode::InvalidRequest
                },
                message: joined_errors(problems),
                metadata: Some(metadata_model(latency_ms, 0, false)),
            },
        )
    } else if cancelled {
        Some(
            ResponseModel::Cancelled {
                protocol_version: PROTOCOL_VERSION,
                request_id: request.request_id,
                metadata: Some(metadata_model(latency_ms, 0, false)),
            },
        )
    } else {
        None
    }
}

pub open spec fn response_option_view(r: Option<AutocompleteResponse>) -> Option<ResponseModel> {
    match r {
        Some(x) => Some(x@),
        None => None,
    }
}

/// The model of a provider outcome.
pub enum OutcomeModel {
    Candidate { insert_text: Seq<char>, confidence_bits: u64, source: Seq<char> },
    NoSuggestion,
    Timeout,
    Cancelled,
    Malformed { message: Seq<char> },
    Failed { message: Seq<char> },
}

pub open spec fn outcome_model(o: ProviderResult) -> OutcomeModel {
    match o {
        Ok(ProviderOutput::Candidate(c)) => OutcomeModel::Candidate {
            insert_text: c.insert_text@,
            confidence_bits: c.confidence_bits,
            source: c.source@,
        },
        Ok(ProviderOutput::NoSuggestion) => OutcomeModel::NoSuggestion,
        Err(ProviderError::Timeout) => OutcomeModel::Timeout,
        Err(ProviderError::Cancelled) => OutcomeModel::Cancelled,
        Err(ProviderError::MalformedOutput { message, .. }) => OutcomeModel::Malformed {
            message: message@,
        },
        Err(ProviderError::Failed { message, .. }) => OutcomeModel::Failed { message: message@ },
    }
}

/// The response a provider outcome becomes. A candidate goes through the
/// postprocessing steps: text that survives is the suggestion (confidence
/// clamped to `[0, 1]`), text that is rejected or empty is no suggestion.
/// Provider failures map to their error codes.
pub open spec fn completion(
    steps: Seq<PostprocessStep>,
    request: AutocompleteRequest,
    outcome: OutcomeModel,
    latency_ms: u128,
    provider_ms: u128,
) -> ResponseModel {
    let id = request.request_id;
    match outcome {
        OutcomeModel::Candidate { insert_text, confidence_bits, source } => match pipeline_result(
            steps,
            request,
            insert_text,
        ) {
            Ok(t) => if !is_blank(t) {
                ResponseModel::Suggestion {
                    protocol_version: PROTOCOL_VERSION,
                    request_id: id,
                    insert_text: t,
                    confidence_bits: clamp_unit_bits(confidence_bits),
                    source,
                    metadata: Some(metadata_model(latency_ms, provider_ms, true)),
                }
            } else {
                ResponseModel::NoSuggestion {
                    protocol_version: PROTOCOL_VERSION,
                    request_id: id,
                    metadata: Some(metadata_model(latency_ms, provider_ms, true)),
                }
            },
            Err(_) => ResponseModel::NoSuggestion {
                protocol_version: PROTOCOL_VERSION,
                request_id: id,
                metadata: Some(metadata_model(latency_ms, provider_ms, true)),
            },
        },
        OutcomeModel::NoSuggestion => ResponseModel::NoSuggestion {
            protocol_version: PROTOCOL_VERSION,
            request_id: id,
            metadata: Some(metadata_model(latency_ms, provider_ms, false)),
        },
        OutcomeModel::Cancelled => ResponseModel::Cancelled {
            protocol_version: PROTOCOL_VERSION,
            request_id: id,
            metadata: Some(metadata_model(latency_ms, provider_ms, false)),
        },
        OutcomeModel::Timeout => ResponseModel::Error {
            protocol_version: PROTOCOL_VERSION,
            request_id: id,
            code: ErrorCode::ProviderTimeout,
            message: "Autocomplete provider exceeded deadline."@,
            metadata: Some(metadata_model(latency_ms, provider_ms, false)),
        },
        OutcomeModel::Malformed { message } => ResponseModel::Error {
            protocol_version: PROTOCOL_VERSION,
            request_id: id,
            code: ErrorCode::ProviderMalformedOutput,
            message,
            metadata: Some(metadata_model(latency_ms, provider_ms, false)),
        },
        OutcomeModel::Failed { message } => ResponseModel::Error {
            protocol_version: PROTOCOL_VERSION,
            request_id: id,
            code: ErrorCode::ProviderError,
            message,
            metadata: Some(metadata_model(latency_ms, provider_ms, false)),
        },
    }
}

/// The engine's postprocessing and its decisions around a provider call.
#[derive(Debug, Clone)]
pub struct EngineCore {
    postprocessors: PostprocessorPipeline,
}

impl EngineCore {
    pub closed spec fn steps(&self) -> Seq<PostprocessStep> {
        self.postprocessors.steps()
    }

    pub fn new(postprocessors: PostprocessorPipeline) -> (res: Self)
        ensures
            res.steps() == postprocessors.steps(),
    {
        EngineCore { postprocessors }
    }

    /// The response a request gets before the provider runs, or `None` when
    /// the provider should run.
    pub fn screen(&self, request: &AutocompleteRequest, cancelled: bool, latency_ms: u128) -> (res:
        Option<AutocompleteResponse>)
        ensures
            response_option_view(res) == admission(*request, cancelled, latency_ms),
    {
        match request.validate() {
            Err(errors) => {
                let message = join_errors(&errors);
                let code = if request.protocol_version != PROTOCOL_VERSION {
                    ErrorCode::UnsupportedProtocolVersion
                } else {
                    ErrorCode::InvalidRequest
                };
                Some(
                    AutocompleteResponse::Error {
                        protocol_version: PROTOCOL_VERSION,
                        request_id: request.request_id,
                        error: ProtocolError { code, message },
                        metadata: Some(metadata(latency_ms, 0, false)),
                    },
                )
            },
            Ok(()) => {
                if cancelled {
                    Some(cancelled_response(request.request_id, latency_ms, 0))
                } else {
                    None
                }
            },
        }
    }

    /// The response a provider outcome becomes.
    pub fn finish(
        &self,
        request: &AutocompleteRequest,
        outcome: ProviderResult,
        latency_ms: u128,
        provider_ms: u128,
    ) -> (res: AutocompleteResponse)
        ensures
            res@ == completion(self.steps(), *request, outcome_model(outcome), latency_ms, provider_ms),
            res matches AutocompleteResponse::Suggestion { confidence_bits, .. }
                ==> crate::protocol::unit_interval_bits(confidence_bits),
    {
        let request_id = request.request_id;
        match outcome {
            Ok(ProviderOutput::Candidate(candidate)) => {
                let ghost text = candidate.insert_text@;
                match self.postprocessors.process(request, candidate.insert_text) {
                    Ok(insert_text) => {
                        let chars = chars_of(insert_text.as_str());
                        if !is_blank_chars(chars.as_slice()) {
                            AutocompleteResponse::Suggestion {
                                protocol_version: PROTOCOL_VERSION,
                                request_id,
                                insert_text,
                                confidence_bits: clamp_unit(candidate.confidence_bits),
                                source: candidate.source,
                                metadata: Some(metadata(latency_ms, provider_ms, true)),
                            }
                        } else {
                            AutocompleteResponse::NoSuggestion {
                                protocol_version: PROTOCOL_VERSION,
                                request_id,
                                metadata: Some(metadata(latency_ms, provider_ms, true)),
                            }
                        }
                    },
                    Err(_) => AutocompleteResponse::NoSuggestion {
                        protocol_version: PROTOCOL_VERSION,
                        request_id,
                        metadata: Some(metadata(latency_ms, provider_ms, true)),
                    },
                }
            },
            Ok(ProviderOutput::NoSuggestion) => AutocompleteResponse::NoSuggestion {
                protocol_version: PROTOCOL_VERSION,
                request_id,
                metadata: Some(metadata(latency_ms, provider_ms, false)),
            },
            Err(ProviderError::Cancelled) => cancelled_response(request_id, latency_ms, provider_ms),
            Err(ProviderError::Timeout) => AutocompleteResponse::Error {
                protocol_version: PROTOCOL_VERSION,
                request_id,
                error: ProtocolError {
                    code: ErrorCode::ProviderTimeout,
                    message: String::from_str("Autocomplete provider exceeded deadline."),
                },
                metadata: Some(metadata(latency_ms, provider_ms, false)),
            },
            Err(ProviderError::MalformedOutput { message, .. }) => AutocompleteResponse::Error {
                protocol_version: PROTOCOL_VERSION,
                request_id,
                error: ProtocolError { code: ErrorCode::ProviderMalformedOutput, message },
                metadata: Some(metadata(latency_ms, provider_ms, false)),
            },
            Err(ProviderError::Failed { message, .. }) => AutocompleteResponse::Error {
                protocol_version: PROTOCOL_VERSION,
                request_id,
                error: ProtocolError { code: ErrorCode::ProviderError, message },
                metadata: Some(metadata(latency_ms, provider_ms, false)),
            },
        }
    }
}

} // verus!

verus! {

/// A suggestion is always the postprocessed text of a provider candidate:
/// the steps accepted it, it is not blank, and its confidence is the
/// candidate's brought into `[0, 1]` (a NaN confidence becomes `0.0`).
pub proof fn law_suggestion_is_postprocessed(
    steps: Seq<PostprocessStep>,
    request: AutocompleteRequest,
    outcome: OutcomeModel,
    latency_ms: u128,
    provider_ms: u128,
)
    ensures
        completion(steps, request, outcome, latency_ms, provider_ms) matches ResponseModel::Suggestion {
            insert_text,
            confidence_bits,
            ..
        } ==> {
            &&& outcome matches OutcomeModel::Candidate { insert_text: raw, confidence_bits: raw_bits, .. }
            &&& pipeline_result(steps, request, raw) == Ok::<Seq<char>, crate::postprocess::PostprocessFault>(insert_text)
            &&& !is_blank(insert_text)
            &&& confidence_bits == clamp_unit_bits(raw_bits)
            &&& crate::protocol::unit_interval_bits(confidence_bits)
        },
{
}

/// With the standard steps, a suggestion never has more characters than the
/// request's `max_chars`.
pub proof fn law_default_suggestion_fits_max_chars(
    request: AutocompleteRequest,
    outcome: OutcomeModel,
    latency_ms: u128,
    provider_ms: u128,
)
    ensures
        completion(crate::postprocess::default_steps(), request, outcome, latency_ms, provider_ms) matches ResponseModel::Suggestion {
            insert_text,
            ..
        } ==> insert_text.len() <= request.options.max_chars,
{
    if let OutcomeModel::Candidate { insert_text: raw, .. } = outcome {
        let steps = crate::postprocess::default_steps();
        reveal_with_fuel(crate::postprocess::run_steps, 6);
        assert(steps.drop_last().drop_last().drop_last().drop_last().drop_last() =~= Seq::<PostprocessStep>::empty());
        assert(steps.last() == PostprocessStep::EnforceMaxChars);
        assert(steps.drop_last().len() == 4);
        assert(steps.drop_last().drop_last().len() == 3);
        assert(steps.drop_last().drop_last().drop_last().len() == 2);
        assert(steps.drop_last().drop_last().drop_last().drop_last().len() == 1);
    }
}

/// A request cancelled before or during the provider call never gets a
/// suggestion: it is answered `cancelled` (or, when it is also invalid, with
/// the validation error).
pub proof fn law_cancelled_requests_get_no_suggestion(
    steps: Seq<PostprocessStep>,
    request: AutocompleteRequest,
    latency_ms: u128,
    provider_ms: u128,
)
    ensures
        admission(request, true, latency_ms) matches Some(r) && !(r is Suggestion),
        request_errors(request, ValidationLimits::spec_default()).len() == 0 ==> admission(
            request,
            true,
            latency_ms,
        ) matches Some(ResponseModel::Cancelled { .. }),
        completion(steps, request, OutcomeModel::Cancelled, latency_ms, provider_ms) is Cancelled,
{
}

/// The request id a response answers.
pub open spec fn answered_request_id(r: ResponseModel) -> u128 {
    match r {
        ResponseModel::Suggestion { request_id, .. } => request_id,
        ResponseModel::NoSuggestion { request_id, .. } => request_id,
        ResponseModel::Cancelled { request_id, .. } => request_id,
        ResponseModel::Error { request_id, .. } => request_id,
    }
}

/// The protocol version a response carries.
pub open spec fn answered_protocol_version(r: ResponseModel) -> u32 {
    match r {
        ResponseModel::Suggestion { protocol_version, .. } => protocol_version,
        ResponseModel::NoSuggestion { protocol_version, .. } => protocol_version,
        ResponseModel::Cancelled { protocol_version, .. } => protocol_version,
        ResponseModel::Error { protocol_version, .. } => protocol_version,
    }
}

/// Every response the engine gives carries the request's id, so that a
/// client can drop late answers, and this protocol's version.
pub proof fn law_responses_echo_request_id(
    steps: Seq<PostprocessStep>,
    request: AutocompleteRequest,
    cancelled: bool,
    outcome: OutcomeModel,
    latency_ms: u128,
    provider_ms: u128,
)
    ensures
        admission(request, cancelled, latency_ms) matches Some(r) ==> answered_request_id(r)
            == request.request_id && answered_protocol_version(r) == PROTOCOL_VERSION,
        answered_request_id(completion(steps, request, outcome, latency_ms, provider_ms))
            == request.request_id,
        answered_protocol_version(completion(steps, request, outcome, latency_ms, provider_ms))
            == PROTOCOL_VERSION,
{
}

/// A request of another protocol version is refused before any provider
/// runs, with `unsupported_protocol_version`, whatever else it holds.
pub proof fn law_other_versions_are_unsupported(
    request: AutocompleteRequest,
    cancelled: bool,
    latency_ms: u128,
)
    requires
        request.protocol_version != PROTOCOL_VERSION,
    ensures
        admission(request, cancelled, latency_ms) matches Some(ResponseModel::Error { code, .. })
            && code == ErrorCode::UnsupportedProtocolVersion,
{
    let problems = request_errors(request, ValidationLimits::spec_default());
    assert(problems.len() >= crate::protocol::version_errors(request.protocol_version).len());
}

} // verus!
