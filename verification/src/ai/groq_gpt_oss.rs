//! Configuration of the Groq gpt-oss generation vendor.
use vstd::prelude::*;

use crate::ai::helpers::spec_clean_output;

verus! {

/// Groq gpt-oss backend configuration: held immutable for the lifetime
/// of the process and shared read-only by every connection.  The
/// outward HTTP call lives with the process plumbing, outside this
/// crate's verified core.
pub struct GGPTOSSBackend {
    pub api_key: String,
    pub model: String,
}

impl GGPTOSSBackend {
    /// Cleanup of markdown/code fences, extra text.
    pub fn clean_output(output: &[u8]) -> (r: Vec<u8>)
        ensures
            r@ == spec_clean_output(output@),
    {
        crate::ai::helpers::clean_output(output)
    }
}

} // verus!
