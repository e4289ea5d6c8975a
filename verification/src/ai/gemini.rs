//! Configuration of the Gemini generation vendor.
use vstd::prelude::*;

verus! {

/// Gemini backend configuration: held immutable for the lifetime of
/// the process and shared read-only by every connection.  The outward
/// HTTP call lives with the process plumbing, outside this crate's
/// verified core.
pub struct GeminiBackend {
    pub api_key: String,
    pub model: String,
}

} // verus!
