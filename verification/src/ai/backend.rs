//! The generation interface: what a code-generation vendor is given
//! and what it returns.
use vstd::prelude::*;

verus! {

/// Token counts reported by a generation vendor for one call.
#[derive(Clone, Copy, Debug, PartialEq, Eq, Structural)]
pub struct TokenUsage {
    pub prompt_tokens: u32,
    pub completion_tokens: u32,
    pub total_tokens: u32,
}

/// One successful generation: the produced body text and, if the
/// vendor reported them, its token counts.
#[derive(Debug)]
pub struct LLMResponse {
    pub body: Vec<u8>,
    pub usage: Option<TokenUsage>,
}

/// Generic LLM backend interface.
///
/// Implementations perform the outward call to their vendor; any
/// failure is reported as an opaque message.  The dispatcher treats a
/// single failed call as a single failed request: no retry is made.
pub trait LLMBackend {
    fn generate_function(
        &self,
        signature: &[u8],
        doc_comment: Option<&[u8]>,
        context_snippets: Option<&[Vec<u8>]>,
        language: &[u8],
    ) -> Result<LLMResponse, String>;
}

} // verus!
