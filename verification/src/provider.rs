//! What completion providers hand back to the engine.

use vstd::prelude::*;
use vstd::string::*;

verus! {

/// Prompt selection handed to a provider with a request.
#[derive(Debug, Clone, Default, PartialEq, Eq)]
pub struct ProviderRequestContext {
    pub prompt_name: Option<String>,
    pub system_prompt: Option<String>,
}

impl ProviderRequestContext {
    pub fn with_prompt(prompt_name: String, system_prompt: String) -> (res: Self)
        ensures
            res.prompt_name == Some(prompt_name),
            res.system_prompt == Some(system_prompt),
    {
        ProviderRequestContext { prompt_name: Some(prompt_name), system_prompt: Some(system_prompt) }
    }
}

/// A completion proposed by a provider. `confidence_bits` is the bit pattern
/// of the binary64 confidence.
#[derive(Debug, Clone, PartialEq, Eq)]
pub struct CompletionCandidate {
    pub insert_text: String,
    pub confidence_bits: u64,
    pub source: String,
}

impl CompletionCandidate {
    pub fn new(insert_text: String, confidence_bits: u64, source: String) -> (res: Self)
        ensures
            res.insert_text == insert_text,
            res.confidence_bits == confidence_bits,
            res.source == source,
    {
        CompletionCandidate { insert_text, confidence_bits, source }
    }
}

#[derive(Debug, Clone, PartialEq, Eq)]
pub enum ProviderOutput {
    Candidate(CompletionCandidate),
    NoSuggestion,
}

/// Provider process output kept for diagnosis.
#[derive(Debug, Clone, PartialEq, Eq, Default)]
pub struct ProviderDiagnostics {
    pub stdout: String,
    pub stderr: String,
}

impl ProviderDiagnostics {
    pub fn is_empty(&self) -> (b: bool)
        ensures
            b == (self.stdout@.len() == 0 && self.stderr@.len() == 0),
    {
        self.stdout.as_str().is_empty() && self.stderr.as_str().is_empty()
    }
}

#[derive(Debug, Clone, PartialEq, Eq)]
pub enum ProviderError {
    Timeout,
    Cancelled,
    MalformedOutput { message: String, diagnostics: ProviderDiagnostics },
    Failed { message: String, diagnostics: ProviderDiagnostics },
}

/// The text a provider error displays.
pub open spec fn provider_error_text(e: ProviderError) -> Seq<char> {
    match e {
        ProviderError::Timeout => "autocomplete provider exceeded deadline"@,
        ProviderError::Cancelled => "autocomplete request was cancelled"@,
        ProviderError::MalformedOutput { message, .. } => "provider returned malformed output: "@
            + message@,
        ProviderError::Failed { message, .. } => "provider failed: "@ + message@,
    }
}

impl ProviderError {
    pub fn malformed(message: String, diagnostics: ProviderDiagnostics) -> (res: Self)
        ensures
            res == (ProviderError::MalformedOutput { message, diagnostics }),
    {
        ProviderError::MalformedOutput { message, diagnostics }
    }

    pub fn failed(message: String, diagnostics: ProviderDiagnostics) -> (res: Self)
        ensures
            res == (ProviderError::Failed { message, diagnostics }),
    {
        ProviderError::Failed { message, diagnostics }
    }

    /// The diagnostics of a malformed-output or failure error.
    pub fn diagnostics(&self) -> (res: Option<&ProviderDiagnostics>)
        ensures
            match *self {
                ProviderError::MalformedOutput { diagnostics, .. } => res == Some(&diagnostics),
                ProviderError::Failed { diagnostics, .. } => res == Some(&diagnostics),
                _ => res.is_none(),
            },
    {
        match self {
            ProviderError::MalformedOutput { diagnostics, .. } => Some(diagnostics),
            ProviderError::Failed { diagnostics, .. } => Some(diagnostics),
            ProviderError::Timeout => None,
            ProviderError::Cancelled => None,
        }
    }

    /// The text this error displays.
    pub fn message(&self) -> (res: String)
        ensures
            res@ == provider_error_text(*self),
    {
        match self {
            ProviderError::Timeout => String::from_str("autocomplete provider exceeded deadline"),
            ProviderError::Cancelled => String::from_str("autocomplete request was cancelled"),
            ProviderError::MalformedOutput { message, .. } => {
                let mut m = String::from_str("provider returned malformed output: ");
                m.append(message.as_str());
                m
            },
            ProviderError::Failed { message, .. } => {
                let mut m = String::from_str("provider failed: ");
                m.append(message.as_str());
                m
            },
        }
    }
}

/// What a provider call produced.
pub type ProviderResult = Result<ProviderOutput, ProviderError>;

} // verus!
