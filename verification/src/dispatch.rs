//! The request dispatcher: a pure mapping from one parsed request to
//! one response, composing a grammar locator with a generation vendor.
//!
//! Error policy, applied uniformly: a request that fails before a
//! generation call is attempted (unknown language key, no empty
//! function at the cursor, unknown vendor key) reports the zero byte
//! range, so a located range is only ever reported once generation was
//! actually attempted.  A generation call that fails keeps the located
//! range, an empty body and the failure message, so the client still
//! learns where the function was.
use vstd::prelude::*;

use crate::ai::backend::{LLMBackend, LLMResponse, TokenUsage};
use crate::languages::grammar::{javascript_tree_of, rust_tree_of, typescript_tree_of};
use crate::languages::js_backend::js_profile_spec;
use crate::languages::jsx_backend::jsx_profile_spec;
use crate::languages::language_standard::{FunctionInfo, FunctionInfoV, LanguageStandard};
use crate::languages::locator::spec_locate_opt;
use crate::languages::rust_backend::{RustBackend, rust_profile_spec};
use crate::languages::ts_backend::{TsBackend, ts_profile_spec};

verus! {

/// One parsed request line.
pub struct GenerateRequest {
    pub source_code: Vec<u8>,
    pub cursor_byte: usize,
    pub backend: String,
    pub file_type: String,
    pub context_snippets: Option<Vec<Vec<u8>>>,
}

/// One response line.
pub struct GenerateResponse {
    pub start_byte: usize,
    pub end_byte: usize,
    pub body: Vec<u8>,
    pub usage: Option<TokenUsage>,
    pub error: Option<String>,
}

/// Mathematical model of a `GenerateResponse`.
pub struct GenerateResponseV {
    pub start_byte: nat,
    pub end_byte: nat,
    pub body: Seq<u8>,
    pub usage: Option<TokenUsage>,
    pub error: Option<Seq<char>>,
}

impl View for GenerateResponse {
    type V = GenerateResponseV;

    open spec fn view(&self) -> GenerateResponseV {
        GenerateResponseV {
            start_byte: self.start_byte as nat,
            end_byte: self.end_byte as nat,
            body: self.body@,
            usage: self.usage,
            error: match self.error {
                Some(e) => Some(e@),
                None => None,
            },
        }
    }
}

/// The registered grammar locators.
#[derive(PartialEq, Eq, Structural, Clone, Copy, Debug)]
pub enum LangChoice {
    RustLang,
    TypeScript,
    JavaScript,
    JavaScriptReact,
}

/// The registered generation vendors.
#[derive(PartialEq, Eq, Structural, Clone, Copy, Debug)]
pub enum Vendor {
    Gemini,
    Groq,
}

/// The locator registry: which grammar serves a `file_type` key.
pub open spec fn spec_lang_of(ft: Seq<char>) -> Option<LangChoice> {
    if ft == "rust"@ {
        Some(LangChoice::RustLang)
    } else if ft == "ts"@ || ft == "typescript"@ {
        Some(LangChoice::TypeScript)
    } else if ft == "js"@ || ft == "javascript"@ {
        Some(LangChoice::JavaScript)
    } else if ft == "jsx"@ || ft == "javascriptreact"@ || ft == "typescriptreact"@ {
        Some(LangChoice::JavaScriptReact)
    } else {
        None
    }
}

/// The vendor registry: which vendor serves a `backend` key.
pub open spec fn spec_vendor_of(b: Seq<char>) -> Option<Vendor> {
    if b == "Gemini"@ {
        Some(Vendor::Gemini)
    } else if b == "groq"@ {
        Some(Vendor::Groq)
    } else {
        None
    }
}

/// What the chosen grammar locates for this request.
pub open spec fn spec_located_info(req: GenerateRequest, lang: LangChoice) -> Option<
    FunctionInfoV,
> {
    match lang {
        LangChoice::RustLang => spec_locate_opt(
            rust_tree_of(req.source_code@),
            req.source_code@,
            req.cursor_byte as nat,
            rust_profile_spec(),
        ),
        LangChoice::TypeScript => spec_locate_opt(
            typescript_tree_of(req.source_code@),
            req.source_code@,
            req.cursor_byte as nat,
            ts_profile_spec(),
        ),
        LangChoice::JavaScript => spec_locate_opt(
            javascript_tree_of(req.source_code@),
            req.source_code@,
            req.cursor_byte as nat,
            js_profile_spec(),
        ),
        LangChoice::JavaScriptReact => spec_locate_opt(
            javascript_tree_of(req.source_code@),
            req.source_code@,
            req.cursor_byte as nat,
            jsx_profile_spec(),
        ),
    }
}

/// A pre-generation rejection: zero byte range, empty body, no usage,
/// the given message.
pub open spec fn spec_reject(msg: Seq<char>) -> GenerateResponseV {
    GenerateResponseV {
        start_byte: 0,
        end_byte: 0,
        body: Seq::empty(),
        usage: None,
        error: Some(msg),
    }
}

/// Mathematical model of a dispatch plan.
pub enum PlanV {
    Respond(GenerateResponseV),
    Call(FunctionInfoV, Vendor),
}

/// How one request is handled, up to the generation call: rejected
/// outright, or generation is called for a located function.
pub open spec fn spec_plan(req: GenerateRequest) -> PlanV {
    match spec_lang_of(req.file_type@) {
        None => PlanV::Respond(spec_reject("Unsupported language"@)),
        Some(lang) => match spec_located_info(req, lang) {
            None => PlanV::Respond(spec_reject("No empty function"@)),
            Some(f) => match spec_vendor_of(req.backend@) {
                None => PlanV::Respond(spec_reject("Unknown backend"@)),
                Some(v) => PlanV::Call(f, v),
            },
        },
    }
}

/// What to do with one request: answer at once, or call the given
/// vendor for the located function and then compose the response.
pub enum DispatchPlan {
    Respond(GenerateResponse),
    Call { func: FunctionInfo, vendor: Vendor },
}

/// `p` holds exactly the values that the model `m` describes.
pub open spec fn plan_matches(p: DispatchPlan, m: PlanV) -> bool {
    match p {
        DispatchPlan::Respond(resp) => m == PlanV::Respond(resp@),
        DispatchPlan::Call { func, vendor } => m == PlanV::Call(func@, vendor),
    }
}

fn reject_with(msg: &str) -> (r: GenerateResponse)
    ensures
        r@ == spec_reject(msg@),
{
    let r = GenerateResponse {
        start_byte: 0,
        end_byte: 0,
        body: Vec::new(),
        usage: None,
        error: Some(msg.to_owned()),
    };
    proof {
        assert(r@.body =~= spec_reject(msg@).body);
    }
    r
}

/// Maps a request to its dispatch plan: the registry lookups and the
/// locate call, with every rejection composed exactly.
pub fn plan_request(req: &GenerateRequest) -> (p: DispatchPlan)
    ensures
        plan_matches(p, spec_plan(*req)),
{
    let located: Option<FunctionInfo>;
    if req.file_type == "rust".to_owned() {
        located = RustBackend.find_empty_function_at_cursor(
            req.source_code.as_slice(),
            req.cursor_byte,
        );
    } else if req.file_type == "ts".to_owned() || req.file_type == "typescript".to_owned() {
        located = TsBackend.find_empty_function_at_cursor(
            req.source_code.as_slice(),
            req.cursor_byte,
        );
    } else if req.file_type == "js".to_owned() || req.file_type == "javascript".to_owned() {
        located = crate::languages::js_backend::JsBackend.find_empty_function_at_cursor(
            req.source_code.as_slice(),
            req.cursor_byte,
        );
    } else if req.file_type == "jsx".to_owned() || req.file_type == "javascriptreact".to_owned()
        || req.file_type == "typescriptreact".to_owned() {
        located = crate::languages::jsx_backend::JsxBackend.find_empty_function_at_cursor(
            req.source_code.as_slice(),
            req.cursor_byte,
        );
    } else {
        return DispatchPlan::Respond(reject_with("Unsupported language"));
    }
    let func = match located {
        Some(f) => f,
        None => {
            return DispatchPlan::Respond(reject_with("No empty function"));
        },
    };
    let vendor: Vendor;
    if req.backend == "Gemini".to_owned() {
        vendor = Vendor::Gemini;
    } else if req.backend == "groq".to_owned() {
        vendor = Vendor::Groq;
    } else {
        return DispatchPlan::Respond(reject_with("Unknown backend"));
    }
    DispatchPlan::Call { func, vendor }
}

/// The response composed for a located function once the generation
/// call has returned: on success the generated body and any usage, on
/// failure an empty body and the failure message; the located interior
/// range either way.
pub open spec fn spec_finish(f: FunctionInfoV, outcome: Result<LLMResponse, String>) -> GenerateResponseV {
    match outcome {
        Ok(res) => GenerateResponseV {
            start_byte: f.start_byte,
            end_byte: f.end_byte,
            body: res.body@,
            usage: res.usage,
            error: None,
        },
        Err(e) => GenerateResponseV {
            start_byte: f.start_byte,
            end_byte: f.end_byte,
            body: Seq::empty(),
            usage: None,
            error: Some(e@),
        },
    }
}

/// Composes the response for a located function from the generation
/// outcome.
pub fn finish_request(func: &FunctionInfo, outcome: Result<LLMResponse, String>) -> (r: GenerateResponse)
    ensures
        r@ == spec_finish(func@, outcome),
{
    match outcome {
        Ok(res) => GenerateResponse {
            start_byte: func.start_byte,
            end_byte: func.end_byte,
            body: res.body,
            usage: res.usage,
            error: None,
        },
        Err(e) => {
            let r = GenerateResponse {
                start_byte: func.start_byte,
                end_byte: func.end_byte,
                body: Vec::new(),
                usage: None,
                error: Some(e),
            };
            proof {
                assert(r@.body =~= Seq::<u8>::empty());
            }
            r
        },
    }
}

/// Handles one request end to end: plans it, makes the generation call
/// for a located function through the chosen vendor, and composes the
/// response.  Every rejection is exact; for an attempted generation the
/// response is the exact composition of some outcome of the call.
pub fn handle_request<G: LLMBackend, Q: LLMBackend>(
    req: &GenerateRequest,
    gemini: &G,
    groq: &Q,
) -> (r: GenerateResponse)
    ensures
        match spec_plan(*req) {
            PlanV::Respond(m) => r@ == m,
            PlanV::Call(f, v) => r@.start_byte == f.start_byte && r@.end_byte == f.end_byte
                && exists|outcome: Result<LLMResponse, String>| r@ == spec_finish(f, outcome),
        },
{
    match plan_request(req) {
        DispatchPlan::Respond(resp) => resp,
        DispatchPlan::Call { func, vendor } => {
            let doc: Option<&[u8]> = match &func.doc_comment {
                Some(d) => Some(d.as_slice()),
                None => None,
            };
            let snippets: Option<&[Vec<u8>]> = match &req.context_snippets {
                Some(s) => Some(s.as_slice()),
                None => None,
            };
            let language: &[u8] = req.file_type.as_str().as_bytes();
            let outcome = match vendor {
                Vendor::Gemini => gemini.generate_function(
                    func.signature.as_slice(),
                    doc,
                    snippets,
                    language,
                ),
                Vendor::Groq => groq.generate_function(
                    func.signature.as_slice(),
                    doc,
                    snippets,
                    language,
                ),
            };
            finish_request(&func, outcome)
        },
    }
}

} // verus!
