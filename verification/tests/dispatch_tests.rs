use chace::ai::backend::{LLMBackend, LLMResponse, TokenUsage};
use chace::dispatch::{DispatchPlan, GenerateRequest, Vendor, handle_request, plan_request};

struct FixedBackend {
    body: &'static str,
    usage: Option<TokenUsage>,
}

impl LLMBackend for FixedBackend {
    fn generate_function(
        &self,
        _signature: &[u8],
        _doc_comment: Option<&[u8]>,
        _context_snippets: Option<&[Vec<u8>]>,
        _language: &[u8],
    ) -> Result<LLMResponse, String> {
        Ok(LLMResponse { body: self.body.as_bytes().to_vec(), usage: self.usage })
    }
}

struct FailingBackend;

impl LLMBackend for FailingBackend {
    fn generate_function(
        &self,
        _signature: &[u8],
        _doc_comment: Option<&[u8]>,
        _context_snippets: Option<&[Vec<u8>]>,
        _language: &[u8],
    ) -> Result<LLMResponse, String> {
        Err("vendor unreachable".to_string())
    }
}

fn request(source: &str, cursor: usize, backend: &str, file_type: &str) -> GenerateRequest {
    GenerateRequest {
        source_code: source.as_bytes().to_vec(),
        cursor_byte: cursor,
        backend: backend.to_string(),
        file_type: file_type.to_string(),
        context_snippets: None,
    }
}

#[test]
fn test_unsupported_language() {
    let req = request("fn test() {}", 10, "Gemini", "python");
    let resp = handle_request(&req, &FixedBackend { body: "1", usage: None }, &FailingBackend);
    assert_eq!(resp.error, Some("Unsupported language".to_string()));
    assert_eq!((resp.start_byte, resp.end_byte), (0, 0));
    assert_eq!(resp.body, Vec::<u8>::new());
    assert!(resp.usage.is_none());
}

#[test]
fn test_no_empty_function_found() {
    let source = "fn has_code() { println!(\"hello\"); }";
    let req = request(source, 20, "Gemini", "rust");
    let resp = handle_request(&req, &FixedBackend { body: "1", usage: None }, &FailingBackend);
    assert_eq!(resp.error, Some("No empty function".to_string()));
    assert_eq!((resp.start_byte, resp.end_byte), (0, 0));
}

#[test]
fn test_unknown_backend() {
    let source = "fn empty() {}";
    let req = request(source, 11, "UnknownBackend", "rust");
    let resp = handle_request(&req, &FixedBackend { body: "1", usage: None }, &FailingBackend);
    assert_eq!(resp.error, Some("Unknown backend".to_string()));
    assert_eq!((resp.start_byte, resp.end_byte), (0, 0));
}

#[test]
fn generation_success_carries_interior_range_and_usage() {
    let source = "/// Adds two numbers together\nfn add(a: i32, b: i32) -> i32 {\n}";
    let cursor = source.find('}').unwrap() - 1;
    let req = request(source, cursor, "Gemini", "rust");
    let usage = TokenUsage { prompt_tokens: 10, completion_tokens: 5, total_tokens: 15 };
    let gemini = FixedBackend { body: "a + b", usage: Some(usage) };
    let resp = handle_request(&req, &gemini, &FailingBackend);
    assert_eq!(resp.error, None);
    assert_eq!(resp.body, b"a + b".to_vec());
    assert_eq!(resp.usage, Some(usage));
    // the reported range is the interior of the located body
    let open = source.find("{\n}").unwrap();
    assert_eq!(resp.start_byte, open + 1);
    assert_eq!(resp.end_byte, source.len() - 1);
}

#[test]
fn generation_failure_keeps_located_range() {
    let source = "fn empty() {\n}";
    let cursor = source.find('}').unwrap() - 1;
    let req = request(source, cursor, "groq", "rust");
    let resp = handle_request(&req, &FixedBackend { body: "1", usage: None }, &FailingBackend);
    assert_eq!(resp.error, Some("vendor unreachable".to_string()));
    assert_eq!(resp.body, Vec::<u8>::new());
    assert!(resp.usage.is_none());
    let open = source.find('{').unwrap();
    assert_eq!(resp.start_byte, open + 1);
    assert_eq!(resp.end_byte, source.len() - 1);
}

struct EchoBackend;

impl LLMBackend for EchoBackend {
    fn generate_function(
        &self,
        signature: &[u8],
        doc_comment: Option<&[u8]>,
        context_snippets: Option<&[Vec<u8>]>,
        language: &[u8],
    ) -> Result<LLMResponse, String> {
        let mut body = signature.to_vec();
        body.push(b'|');
        body.extend_from_slice(doc_comment.unwrap_or(b""));
        body.push(b'|');
        body.extend_from_slice(language);
        body.push(b'|');
        for s in context_snippets.unwrap_or(&[]) {
            body.extend_from_slice(s);
        }
        Ok(LLMResponse { body, usage: None })
    }
}

#[test]
fn located_metadata_reaches_the_vendor() {
    let source = "/// Helper function with context\nfn process_data(data: Vec<u8>) -> String {\n}";
    let cursor = source.find('}').unwrap() - 1;
    let mut req = request(source, cursor, "Gemini", "rust");
    req.context_snippets = Some(vec![
        b"const MAX_SIZE: usize = 1024;".to_vec(),
        b"fn validate(input: &[u8]) -> bool { true }".to_vec(),
    ]);
    let resp = handle_request(&req, &EchoBackend, &FailingBackend);
    assert_eq!(resp.error, None);
    let body = String::from_utf8(resp.body).unwrap();
    assert_eq!(
        body,
        "fn process_data(data: Vec<u8>) -> String|Helper function with context|rust|\
         const MAX_SIZE: usize = 1024;fn validate(input: &[u8]) -> bool { true }"
    );
}

#[test]
fn groq_vendor_is_dispatched() {
    let source = "fn empty() {\n}";
    let cursor = source.find('}').unwrap() - 1;
    let req = request(source, cursor, "groq", "rust");
    let groq = FixedBackend { body: "42", usage: None };
    let resp = handle_request(&req, &FailingBackend, &groq);
    assert_eq!(resp.error, None);
    assert_eq!(resp.body, b"42".to_vec());
}

#[test]
fn typescript_key_selects_typescript_locator() {
    let source = "function greet(name: string): string {\n}";
    let cursor = source.find('}').unwrap() - 1;
    let req = request(source, cursor, "Gemini", "typescript");
    match plan_request(&req) {
        DispatchPlan::Call { func, vendor } => {
            assert_eq!(func.signature, b"function greet(name: string): string".to_vec());
            assert_eq!(vendor, Vendor::Gemini);
        },
        DispatchPlan::Respond(resp) => {
            panic!("expected a generation call, got {:?}", resp.error);
        },
    }
}

#[test]
fn jsx_key_selects_arrow_aware_locator() {
    let source = "export const Widget = () => {\n}";
    let cursor = source.find('}').unwrap() - 1;
    let req = request(source, cursor, "groq", "javascriptreact");
    match plan_request(&req) {
        DispatchPlan::Call { func, vendor } => {
            let signature = String::from_utf8(func.signature).unwrap();
            assert!(signature.contains("export const Widget"));
            assert_eq!(vendor, Vendor::Groq);
        },
        DispatchPlan::Respond(resp) => {
            panic!("expected a generation call, got {:?}", resp.error);
        },
    }
}
