//! A deterministic provider: it answers every request with the same
//! candidate, after an optional delay, unless the request was cancelled.
//! Waiting out the delay is left to the caller.

use crate::provider::{CompletionCandidate, ProviderError, ProviderOutput, ProviderResult};
use vstd::prelude::*;
use vstd::string::*;

verus! {

/// The bit pattern of the binary64 value 1.0, the mock's default confidence.
pub const MOCK_CONFIDENCE_BITS: u64 = 0x3ff0_0000_0000_0000;

/// What a mock provider answers with.
pub struct MockProviderView {
    pub insert_text: Seq<char>,
    pub confidence_bits: u64,
    pub source: Seq<char>,
    pub delay_ms: Option<u64>,
}

#[derive(Debug, Clone)]
pub struct MockProvider {
    insert_text: String,
    confidence_bits: u64,
    source: String,
    delay_ms: Option<u64>,
}

impl View for MockProvider {
    type V = MockProviderView;

    closed spec fn view(&self) -> MockProviderView {
        MockProviderView {
            insert_text: self.insert_text@,
            confidence_bits: self.confidence_bits,
            source: self.source@,
            delay_ms: self.delay_ms,
        }
    }
}

impl MockProvider {
    /// A mock answering `insert_text` with confidence 1.0 from source
    /// `mock`, without delay.
    pub fn new(insert_text: String) -> (res: Self)
        ensures
            res@ == (MockProviderView {
                insert_text: insert_text@,
                confidence_bits: MOCK_CONFIDENCE_BITS,
                source: "mock"@,
                delay_ms: None,
            }),
    {
        MockProvider {
            insert_text,
            confidence_bits: MOCK_CONFIDENCE_BITS,
            source: String::from_str("mock"),
            delay_ms: None,
        }
    }

    pub fn with_delay(self, delay_ms: u64) -> (res: Self)
        ensures
            res@ == (MockProviderView { delay_ms: Some(delay_ms), ..self@ }),
    {
        MockProvider { delay_ms: Some(delay_ms), ..self }
    }

    pub fn with_source(self, source: String) -> (res: Self)
        ensures
            res@ == (MockProviderView { source: source@, ..self@ }),
    {
        MockProvider { source, ..self }
    }

    pub fn with_confidence(self, confidence_bits: u64) -> (res: Self)
        ensures
            res@ == (MockProviderView { confidence_bits, ..self@ }),
    {
        MockProvider { confidence_bits, ..self }
    }

    /// How long to wait before answering, in milliseconds.
    pub fn delay_ms(&self) -> (res: Option<u64>)
        ensures
            res == self@.delay_ms,
    {
        self.delay_ms
    }

    /// The answer to a request: `Cancelled` when it was cancelled, else the
    /// configured candidate.
    pub fn respond(&self, cancelled: bool) -> (res: ProviderResult)
        ensures
            cancelled ==> res == Err::<ProviderOutput, ProviderError>(ProviderError::Cancelled),
            !cancelled ==> (res matches Ok(ProviderOutput::Candidate(c)) && c.insert_text@
                == self@.insert_text && c.confidence_bits == self@.confidence_bits && c.source@
                == self@.source),
    {
        if cancelled {
            return Err(ProviderError::Cancelled);
        }
        Ok(
            ProviderOutput::Candidate(
                CompletionCandidate::new(
                    self.insert_text.clone(),
                    self.confidence_bits,
                    self.source.clone(),
                ),
            ),
        )
    }
}

impl Default for MockProvider {
    fn default() -> (res: Self)
        ensures
            res@ == (MockProviderView {
                insert_text: "mock completion"@,
                confidence_bits: MOCK_CONFIDENCE_BITS,
                source: "mock"@,
                delay_ms: None,
            }),
    {
        MockProvider::new(String::from_str("mock completion"))
    }
}

} // verus!
