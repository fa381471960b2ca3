//! Protocol types for the local autocomplete broker and their semantic
//! validation.
//!
//! Request identifiers are carried as the 128-bit integer of the UUID, and a
//! response's confidence as the IEEE-754 binary64 bit pattern of the value.

use crate::text::{decimal, decimal_string, is_blank, is_blank_chars, chars_of, byte_len, utf8_len};
use vstd::prelude::*;
use vstd::string::*;

verus! {

/// The protocol payload version this library speaks.
pub const PROTOCOL_VERSION: u32 = 1;

#[derive(Debug, Clone, PartialEq, Eq)]
pub struct AutocompleteRequest {
    pub protocol_version: u32,
    pub request_id: u128,
    pub client: ClientInfo,
    pub document: DocumentInfo,
    pub cursor: CursorPosition,
    pub context: AutocompleteContext,
    pub options: AutocompleteOptions,
}

#[derive(Debug, Clone, PartialEq, Eq)]
pub struct ClientInfo {
    pub name: String,
    pub version: String,
}

#[derive(Debug, Clone, PartialEq, Eq)]
pub struct DocumentInfo {
    pub uri: String,
    pub language_id: String,
    pub version: u64,
}

#[derive(Debug, Clone, Copy, PartialEq, Eq)]
pub struct CursorPosition {
    pub line: u64,
    pub character: u64,
    pub offset: u64,
}

#[derive(Debug, Clone, PartialEq, Eq)]
pub struct AutocompleteContext {
    pub prefix: String,
    pub suffix: String,
    pub selected_text: String,
}

#[derive(Debug, Clone, Copy, PartialEq, Eq)]
pub struct AutocompleteOptions {
    pub mode: AutocompleteMode,
    pub max_chars: u32,
    pub deadline_ms: u64,
    pub trigger: TriggerKind,
}

/// A response, tagged by its status. `confidence_bits` is the bit pattern of
/// the binary64 confidence (`f64::to_bits`).
#[derive(Debug, Clone, PartialEq, Eq)]
pub enum AutocompleteResponse {
    /// A suggestion to insert (wire status `ok`).
    Suggestion {
        protocol_version: u32,
        request_id: u128,
        insert_text: String,
        confidence_bits: u64,
        source: String,
        metadata: Option<ResponseMetadata>,
    },
    NoSuggestion { protocol_version: u32, request_id: u128, metadata: Option<ResponseMetadata> },
    Cancelled { protocol_version: u32, request_id: u128, metadata: Option<ResponseMetadata> },
    Error {
        protocol_version: u32,
        request_id: u128,
        error: ProtocolError,
        metadata: Option<ResponseMetadata>,
    },
}

#[derive(Debug, Clone, Copy, PartialEq, Eq)]
pub struct ResponseMetadata {
    pub latency_ms: u64,
    pub provider_latency_ms: u64,
    pub postprocessed: bool,
}

#[derive(Debug, Clone, PartialEq, Eq)]
pub struct ProtocolError {
    pub code: ErrorCode,
    pub message: String,
}

#[derive(Debug, Clone, PartialEq, Eq)]
pub struct HealthResponse {
    pub protocol_version: u32,
    pub status: HealthStatus,
    pub provider: ProviderHealth,
}

#[derive(Debug, Clone, Copy, PartialEq, Eq, Structural)]
pub enum HealthStatus {
    /// The broker is serving (wire status `ok`).
    Healthy,
    Degraded,
    Error,
}

#[derive(Debug, Clone, PartialEq, Eq)]
pub struct ProviderHealth {
    pub name: String,
    pub status: ProviderStatus,
}

#[derive(Debug, Clone, Copy, PartialEq, Eq, Structural)]
pub enum ProviderStatus {
    Available,
    Unavailable,
    Unknown,
}

#[derive(Debug, Clone, Copy, PartialEq, Eq)]
pub struct CancelResponse {
    pub protocol_version: u32,
    pub request_id: u128,
    pub status: CancelStatus,
}

#[derive(Debug, Clone, Copy, PartialEq, Eq, Structural)]
pub enum CancelStatus {
    Cancelled,
    NotFound,
    AlreadyCompleted,
}

#[derive(Debug, Clone, Copy, PartialEq, Eq)]
pub struct ReloadResponse {
    pub protocol_version: u32,
    pub status: ReloadStatus,
}

#[derive(Debug, Clone, Copy, PartialEq, Eq, Structural)]
pub enum ReloadStatus {
    Reloaded,
    Unchanged,
}

#[derive(Debug, Clone, Copy, PartialEq, Eq, Structural)]
pub enum ErrorCode {
    UnsupportedProtocolVersion,
    InvalidRequest,
    ContextTooLarge,
    MaxCharsOutOfRange,
    DeadlineOutOfRange,
    ProviderTimeout,
    ProviderError,
    ProviderMalformedOutput,
    Cancelled,
    InternalError,
}

#[derive(Debug, Clone, Copy, PartialEq, Eq, Structural)]
pub enum AutocompleteMode {
    InlineTab,
}

#[derive(Debug, Clone, Copy, PartialEq, Eq, Structural)]
pub enum TriggerKind {
    Idle,
    Manual,
    DocumentChange,
}

/// The binary64 value with bit pattern `bits` lies in `[0, 1]` (it is not
/// NaN). Non-negative values are ordered as their bit patterns, `1.0` is
/// `0x3FF0_0000_0000_0000`, and the only sign-bit pattern in range is `-0.0`.
pub open spec fn unit_interval_bits(bits: u64) -> bool {
    bits <= 0x3FF0_0000_0000_0000 || bits == 0x8000_0000_0000_0000
}

/// A confidence brought into `[0, 1]`, on bit patterns: as
/// `f64::clamp(x, 0.0, 1.0)` does (`-0.0` stays, other negatives become
/// `0.0`, values above `1.0` become `1.0`), except that NaN, which has no
/// place in the interval, becomes `0.0`.
pub open spec fn clamp_unit_bits(bits: u64) -> u64 {
    if (bits & 0x7FFF_FFFF_FFFF_FFFF) > 0x7FF0_0000_0000_0000 {
        0
    } else if bits >= 0x8000_0000_0000_0000 {
        if bits == 0x8000_0000_0000_0000 {
            bits
        } else {
            0
        }
    } else if bits > 0x3FF0_0000_0000_0000 {
        0x3FF0_0000_0000_0000
    } else {
        bits
    }
}

pub fn clamp_unit(bits: u64) -> (res: u64)
    ensures
        res == clamp_unit_bits(bits),
        unit_interval_bits(res),
{
    if (bits & 0x7FFF_FFFF_FFFF_FFFF) > 0x7FF0_0000_0000_0000 {
        0
    } else if bits >= 0x8000_0000_0000_0000 {
        if bits == 0x8000_0000_0000_0000 {
            bits
        } else {
            0
        }
    } else if bits > 0x3FF0_0000_0000_0000 {
        0x3FF0_0000_0000_0000
    } else {
        bits
    }
}

#[derive(Debug, Clone, Copy, PartialEq, Eq)]
pub struct ValidationLimits {
    pub max_client_name_bytes: usize,
    pub max_client_version_bytes: usize,
    pub max_document_uri_bytes: usize,
    pub max_language_id_bytes: usize,
    pub max_context_bytes: usize,
    pub max_selected_text_bytes: usize,
    pub max_insert_text_bytes: usize,
    pub max_deadline_ms: u64,
}

impl ValidationLimits {
    pub open spec fn spec_default() -> ValidationLimits {
        ValidationLimits {
            max_client_name_bytes: 64,
            max_client_version_bytes: 64,
            max_document_uri_bytes: 2048,
            max_language_id_bytes: 64,
            max_context_bytes: 131072,
            max_selected_text_bytes: 65536,
            max_insert_text_bytes: 4096,
            max_deadline_ms: 30000,
        }
    }
}

impl Default for ValidationLimits {
    fn default() -> (res: Self)
        ensures
            res == ValidationLimits::spec_default(),
    {
        ValidationLimits {
            max_client_name_bytes: 64,
            max_client_version_bytes: 64,
            max_document_uri_bytes: 2048,
            max_language_id_bytes: 64,
            max_context_bytes: 128 * 1024,
            max_selected_text_bytes: 64 * 1024,
            max_insert_text_bytes: 4096,
            max_deadline_ms: 30_000,
        }
    }
}

/// One semantic validation failure: the field path and what is wrong.
#[derive(Debug, Clone, PartialEq, Eq)]
pub struct ValidationError {
    pub field: String,
    pub message: String,
}

/// All validation failures of one value, in field order.
#[derive(Debug, Clone, PartialEq, Eq)]
pub struct ValidationErrors(pub Vec<ValidationError>);

/// A validation failure as (field, message).
pub type FieldMessage = (Seq<char>, Seq<char>);

pub open spec fn error_view(e: ValidationError) -> FieldMessage {
    (e.field@, e.message@)
}

pub open spec fn errors_view(es: Seq<ValidationError>) -> Seq<FieldMessage> {
    es.map_values(|e: ValidationError| error_view(e))
}

/// `"{field}: {message}"`, the text a validation error displays.
pub open spec fn field_message_text(fm: FieldMessage) -> Seq<char> {
    fm.0 + ": "@ + fm.1
}

impl ValidationError {
    /// The text this error displays, `"{field}: {message}"`.
    pub fn display_text(&self) -> (res: String)
        ensures
            res@ == field_message_text(error_view(*self)),
    {
        let mut res = self.field.clone();
        res.append(": ");
        res.append(self.message.as_str());
        res
    }
}

impl ValidationErrors {
    pub open spec fn view(&self) -> Seq<FieldMessage> {
        errors_view(self.0@)
    }

    pub fn is_empty(&self) -> (b: bool)
        ensures
            b == (self.0@.len() == 0),
    {
        self.0.len() == 0
    }

    pub fn iter(&self) -> (it: std::slice::Iter<'_, ValidationError>)
        ensures
            vstd::std_specs::iter::IteratorSpec::remaining(&it) == self.0@.as_ref(),
    {
        broadcast use vstd::std_specs::slice::axiom_spec_slice_iter;

        self.0.as_slice().iter()
    }

    pub fn into_inner(self) -> (res: Vec<ValidationError>)
        ensures
            res == self.0,
    {
        self.0
    }
}

} // verus!

verus! {

pub open spec fn version_errors(protocol_version: u32) -> Seq<FieldMessage> {
    if protocol_version != PROTOCOL_VERSION {
        seq![("protocol_version"@, "expected 1, got "@ + decimal(protocol_version as nat))]
    } else {
        Seq::empty()
    }
}

/// `"must be at most {max} bytes, got {got}"`.
pub open spec fn at_most_bytes_text(max: nat, got: nat) -> Seq<char> {
    "must be at most "@ + decimal(max) + " bytes, got "@ + decimal(got)
}

/// `"must be between 1 and {max}, got {got}"`.
pub open spec fn between_one_and_text(max: nat, got: nat) -> Seq<char> {
    "must be between 1 and "@ + decimal(max) + ", got "@ + decimal(got)
}

/// A required text field: not blank and at most `max` bytes.
pub open spec fn bounded_text_errors(field: Seq<char>, value: Seq<char>, max: nat) -> Seq<
    FieldMessage,
> {
    if is_blank(value) {
        seq![(field, "must not be empty"@)]
    } else if utf8_len(value) > max {
        seq![(field, at_most_bytes_text(max, utf8_len(value)))]
    } else {
        Seq::empty()
    }
}

pub open spec fn context_errors(c: AutocompleteContext, l: ValidationLimits) -> Seq<FieldMessage> {
    let context_bytes = utf8_len(c.prefix@) + utf8_len(c.suffix@);
    if context_bytes > l.max_context_bytes {
        seq![
            ("context"@, "prefix + suffix must be at most "@ + decimal(
                l.max_context_bytes as nat,
            ) + " bytes, got "@ + decimal(context_bytes)),
        ]
    } else {
        Seq::empty()
    }
}

pub open spec fn selected_text_errors(c: AutocompleteContext, l: ValidationLimits) -> Seq<
    FieldMessage,
> {
    if utf8_len(c.selected_text@) > l.max_selected_text_bytes {
        seq![
            ("context.selected_text"@, at_most_bytes_text(
                l.max_selected_text_bytes as nat,
                utf8_len(c.selected_text@),
            )),
        ]
    } else {
        Seq::empty()
    }
}

pub open spec fn options_errors(o: AutocompleteOptions, l: ValidationLimits) -> Seq<FieldMessage> {
    (if o.max_chars == 0 || o.max_chars > l.max_insert_text_bytes {
        seq![
            ("options.max_chars"@, between_one_and_text(
                l.max_insert_text_bytes as nat,
                o.max_chars as nat,
            )),
        ]
    } else {
        Seq::empty()
    }) + (if o.deadline_ms == 0 || o.deadline_ms > l.max_deadline_ms {
        seq![
            ("options.deadline_ms"@, between_one_and_text(
                l.max_deadline_ms as nat,
                o.deadline_ms as nat,
            )),
        ]
    } else {
        Seq::empty()
    })
}

/// Every semantic problem of a request, in the order the fields are checked.
pub open spec fn request_errors(r: AutocompleteRequest, l: ValidationLimits) -> Seq<FieldMessage> {
    version_errors(r.protocol_version) + bounded_text_errors(
        "client.name"@,
        r.client.name@,
        l.max_client_name_bytes as nat,
    ) + bounded_text_errors("client.version"@, r.client.version@, l.max_client_version_bytes as nat)
        + bounded_text_errors("document.uri"@, r.document.uri@, l.max_document_uri_bytes as nat)
        + bounded_text_errors(
        "document.language_id"@,
        r.document.language_id@,
        l.max_language_id_bytes as nat,
    ) + context_errors(r.context, l) + selected_text_errors(r.context, l) + options_errors(
        r.options,
        l,
    )
}

pub open spec fn insert_text_errors(text: Seq<char>, l: ValidationLimits) -> Seq<FieldMessage> {
    if text.len() == 0 {
        seq![("insert_text"@, "must not be empty for ok responses"@)]
    } else if utf8_len(text) > l.max_insert_text_bytes {
        seq![("insert_text"@, at_most_bytes_text(l.max_insert_text_bytes as nat, utf8_len(text)))]
    } else {
        Seq::empty()
    }
}

pub open spec fn confidence_errors(bits: u64) -> Seq<FieldMessage> {
    if !unit_interval_bits(bits) {
        seq![("confidence"@, "must be between 0 and 1"@)]
    } else {
        Seq::empty()
    }
}

/// Every semantic problem of a response, in the order the fields are checked.
pub open spec fn response_errors(r: AutocompleteResponse, l: ValidationLimits) -> Seq<
    FieldMessage,
> {
    match r {
        AutocompleteResponse::Suggestion {
            protocol_version,
            insert_text,
            confidence_bits,
            source,
            ..
        } => version_errors(protocol_version) + insert_text_errors(insert_text@, l)
            + confidence_errors(confidence_bits) + bounded_text_errors("source"@, source@, 256),
        AutocompleteResponse::NoSuggestion { protocol_version, .. } => version_errors(
            protocol_version,
        ),
        AutocompleteResponse::Cancelled { protocol_version, .. } => version_errors(
            protocol_version,
        ),
        AutocompleteResponse::Error { protocol_version, error, .. } => version_errors(
            protocol_version,
        ) + bounded_text_errors("error.message"@, error.message@, 1024),
    }
}

/// The outcome that `validate_with_limits` reports for a list of problems.
pub open spec fn validation_outcome(
    res: Result<(), ValidationErrors>,
    problems: Seq<FieldMessage>,
) -> bool {
    &&& res is Ok <==> problems.len() == 0
    &&& res matches Err(e) ==> e@ == problems
}

/// Validation against the default limits.
pub trait Validate {
    fn validate(&self) -> Result<(), ValidationErrors>;
}

impl Validate for AutocompleteRequest {
    fn validate(&self) -> (res: Result<(), ValidationErrors>)
        ensures
            validation_outcome(res, request_errors(*self, ValidationLimits::spec_default())),
    {
        self.validate_with_limits(ValidationLimits::default())
    }
}

impl Validate for AutocompleteResponse {
    fn validate(&self) -> (res: Result<(), ValidationErrors>)
        ensures
            validation_outcome(res, response_errors(*self, ValidationLimits::spec_default())),
    {
        self.validate_with_limits(ValidationLimits::default())
    }
}

/// A validation error for `field` with `message`.
pub fn error(field: &str, message: String) -> (res: ValidationError)
    ensures
        error_view(res) == (field@, message@),
{
    ValidationError { field: String::from_str(field), message }
}

fn push_error(errors: &mut Vec<ValidationError>, field: &str, message: String)
    ensures
        errors_view(final(errors)@) == errors_view(old(errors)@).push((field@, message@)),
{
    let e = error(field, message);
    errors.push(e);
    assert(errors_view(errors@) =~= errors_view(old(errors)@).push((field@, message@)));
}

fn at_most_bytes_message(max: usize, got: usize) -> (res: String)
    ensures
        res@ == at_most_bytes_text(max as nat, got as nat),
{
    let mut m = String::from_str("must be at most ");
    let a = decimal_string(max as u128);
    m.append(a.as_str());
    m.append(" bytes, got ");
    let b = decimal_string(got as u128);
    m.append(b.as_str());
    m
}

fn between_one_and_message(max: u64, got: u64) -> (res: String)
    ensures
        res@ == between_one_and_text(max as nat, got as nat),
{
    let mut m = String::from_str("must be between 1 and ");
    let a = decimal_string(max as u128);
    m.append(a.as_str());
    m.append(", got ");
    let b = decimal_string(got as u128);
    m.append(b.as_str());
    m
}

pub fn validate_protocol_version(errors: &mut Vec<ValidationError>, protocol_version: u32)
    ensures
        errors_view(final(errors)@) == errors_view(old(errors)@) + version_errors(protocol_version),
{
    if protocol_version != PROTOCOL_VERSION {
        let mut m = String::from_str("expected 1, got ");
        let d = decimal_string(protocol_version as u128);
        m.append(d.as_str());
        push_error(errors, "protocol_version", m);
    }
    assert(errors_view(errors@) =~= errors_view(old(errors)@) + version_errors(protocol_version));
}

pub fn require_non_empty_bounded(
    errors: &mut Vec<ValidationError>,
    field: &str,
    value: &str,
    max_bytes: usize,
)
    ensures
        errors_view(final(errors)@) == errors_view(old(errors)@) + bounded_text_errors(
            field@,
            value@,
            max_bytes as nat,
        ),
{
    let chars = chars_of(value);
    let len = byte_len(value);
    if is_blank_chars(chars.as_slice()) {
        push_error(errors, field, String::from_str("must not be empty"));
    } else if len > max_bytes {
        push_error(errors, field, at_most_bytes_message(max_bytes, len));
    }
    assert(errors_view(errors@) =~= errors_view(old(errors)@) + bounded_text_errors(
        field@,
        value@,
        max_bytes as nat,
    ));
}

impl AutocompleteRequest {
    pub fn validate_with_limits(&self, limits: ValidationLimits) -> (res: Result<
        (),
        ValidationErrors,
    >)
        ensures
            validation_outcome(res, request_errors(*self, limits)),
    {
        let mut errors: Vec<ValidationError> = Vec::new();
        let ghost e0 = errors_view(errors@);
        validate_protocol_version(&mut errors, self.protocol_version);
        let ghost e1 = errors_view(errors@);
        require_non_empty_bounded(
            &mut errors,
            "client.name",
            self.client.name.as_str(),
            limits.max_client_name_bytes,
        );
        let ghost e2 = errors_view(errors@);
        require_non_empty_bounded(
            &mut errors,
            "client.version",
            self.client.version.as_str(),
            limits.max_client_version_bytes,
        );
        let ghost e3 = errors_view(errors@);
        require_non_empty_bounded(
            &mut errors,
            "document.uri",
            self.document.uri.as_str(),
            limits.max_document_uri_bytes,
        );
        let ghost e4 = errors_view(errors@);
        require_non_empty_bounded(
            &mut errors,
            "document.language_id",
            self.document.language_id.as_str(),
            limits.max_language_id_bytes,
        );
        let ghost e5 = errors_view(errors@);

        let prefix_bytes = byte_len(self.context.prefix.as_str());
        let suffix_bytes = byte_len(self.context.suffix.as_str());
        let context_bytes: u128 = prefix_bytes as u128 + suffix_bytes as u128;
        if context_bytes > limits.max_context_bytes as u128 {
            let mut m = String::from_str("prefix + suffix must be at most ");
            let a = decimal_string(limits.max_context_bytes as u128);
            m.append(a.as_str());
            m.append(" bytes, got ");
            let b = decimal_string(context_bytes);
            m.append(b.as_str());
            push_error(&mut errors, "context", m);
        }
        let ghost e6 = errors_view(errors@);
        assert(e6 =~= e5 + context_errors(self.context, limits));

        let selected_bytes = byte_len(self.context.selected_text.as_str());
        if selected_bytes > limits.max_selected_text_bytes {
            push_error(
                &mut errors,
                "context.selected_text",
                at_most_bytes_message(limits.max_selected_text_bytes, selected_bytes),
            );
        }
        let ghost e7 = errors_view(errors@);
        assert(e7 =~= e6 + selected_text_errors(self.context, limits));

        if self.options.max_chars == 0 || self.options.max_chars as usize
            > limits.max_insert_text_bytes {
            push_error(
                &mut errors,
                "options.max_chars",
                between_one_and_message(
                    limits.max_insert_text_bytes as u64,
                    self.options.max_chars as u64,
                ),
            );
        }
        if self.options.deadline_ms == 0 || self.options.deadline_ms > limits.max_deadline_ms {
            push_error(
                &mut errors,
                "options.deadline_ms",
                between_one_and_message(limits.max_deadline_ms, self.options.deadline_ms),
            );
        }
        let ghost e8 = errors_view(errors@);
        assert(e8 =~= e7 + options_errors(self.options, limits));
        assert(e8 =~= request_errors(*self, limits));

        if errors.len() == 0 {
            Ok(())
        } else {
            Err(ValidationErrors(errors))
        }
    }
}

impl AutocompleteResponse {
    pub fn validate_with_limits(&self, limits: ValidationLimits) -> (res: Result<
        (),
        ValidationErrors,
    >)
        ensures
            validation_outcome(res, response_errors(*self, limits)),
    {
        let mut errors: Vec<ValidationError> = Vec::new();
        match self {
            AutocompleteResponse::Suggestion {
                protocol_version,
                insert_text,
                confidence_bits,
                source,
                ..
            } => {
                validate_protocol_version(&mut errors, *protocol_version);
                let ghost e1 = errors_view(errors@);
                let len = byte_len(insert_text.as_str());
                if insert_text.as_str().is_empty() {
                    push_error(
                        &mut errors,
                        "insert_text",
                        String::from_str("must not be empty for ok responses"),
                    );
                } else if len > limits.max_insert_text_bytes {
                    push_error(
                        &mut errors,
                        "insert_text",
                        at_most_bytes_message(limits.max_insert_text_bytes, len),
                    );
                }
                let ghost e2 = errors_view(errors@);
                assert(e2 =~= e1 + insert_text_errors(insert_text@, limits));
                let bits = *confidence_bits;
                if !(bits <= 0x3FF0_0000_0000_0000 || bits == 0x8000_0000_0000_0000) {
                    push_error(
                        &mut errors,
                        "confidence",
                        String::from_str("must be between 0 and 1"),
                    );
                }
                let ghost e3 = errors_view(errors@);
                assert(e3 =~= e2 + confidence_errors(bits));
                require_non_empty_bounded(&mut errors, "source", source.as_str(), 256);
                assert(errors_view(errors@) =~= response_errors(*self, limits));
            },
            AutocompleteResponse::NoSuggestion { protocol_version, .. } => {
                validate_protocol_version(&mut errors, *protocol_version);
                assert(errors_view(errors@) =~= response_errors(*self, limits));
            },
            AutocompleteResponse::Cancelled { protocol_version, .. } => {
                validate_protocol_version(&mut errors, *protocol_version);
                assert(errors_view(errors@) =~= response_errors(*self, limits));
            },
            AutocompleteResponse::Error { protocol_version, error: protocol_error, .. } => {
                validate_protocol_version(&mut errors, *protocol_version);
                require_non_empty_bounded(
                    &mut errors,
                    "error.message",
                    protocol_error.message.as_str(),
                    1024,
                );
                assert(errors_view(errors@) =~= response_errors(*self, limits));
            },
        }
        if errors.len() == 0 {
            Ok(())
        } else {
            Err(ValidationErrors(errors))
        }
    }
}

} // verus!

verus! {

/// The model of a response: its status and fields, texts as character
/// sequences.
pub enum ResponseModel {
    Suggestion {
        protocol_version: u32,
        request_id: u128,
        insert_text: Seq<char>,
        confidence_bits: u64,
        source: Seq<char>,
        metadata: Option<ResponseMetadata>,
    },
    NoSuggestion { protocol_version: u32, request_id: u128, metadata: Option<ResponseMetadata> },
    Cancelled { protocol_version: u32, request_id: u128, metadata: Option<ResponseMetadata> },
    Error {
        protocol_version: u32,
        request_id: u128,
        code: ErrorCode,
        message: Seq<char>,
        metadata: Option<ResponseMetadata>,
    },
}

impl View for AutocompleteResponse {
    type V = ResponseModel;

    open spec fn view(&self) -> ResponseModel {
        match self {
            AutocompleteResponse::Suggestion {
                protocol_version,
                request_id,
                insert_text,
                confidence_bits,
                source,
                metadata,
            } => ResponseModel::Suggestion {
                protocol_version: *protocol_version,
                request_id: *request_id,
                insert_text: insert_text@,
                confidence_bits: *confidence_bits,
                source: source@,
                metadata: *metadata,
            },
            AutocompleteResponse::NoSuggestion { protocol_version, request_id, metadata } =>
                ResponseModel::NoSuggestion {
                protocol_version: *protocol_version,
                request_id: *request_id,
                metadata: *metadata,
            },
            AutocompleteResponse::Cancelled { protocol_version, request_id, metadata } =>
                ResponseModel::Cancelled {
                protocol_version: *protocol_version,
                request_id: *request_id,
                metadata: *metadata,
            },
            AutocompleteResponse::Error { protocol_version, request_id, error, metadata } =>
                ResponseModel::Error {
                protocol_version: *protocol_version,
                request_id: *request_id,
                code: error.code,
                message: error.message@,
                metadata: *metadata,
            },
        }
    }
}

} // verus!
