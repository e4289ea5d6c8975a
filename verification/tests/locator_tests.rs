use chace::languages::js_backend::JsBackend;
use chace::languages::jsx_backend::JsxBackend;
use chace::languages::language_standard::LanguageStandard;
use chace::languages::rust_backend::RustBackend;
use chace::languages::ts_backend::TsBackend;

#[test]
fn js_backend_test_find_simple_empty_function() {
    let backend = JsBackend;
    let code = "\n/**\n * This is a test function\n */\nfunction helloWorld(name) {\n}";
    let cursor_byte = code.find('}').unwrap() - 1;

    let result = backend.find_empty_function_at_cursor(code.as_bytes(), cursor_byte);

    assert!(result.is_some(), "Should find the empty function");
    let info = result.unwrap();

    assert_eq!(info.signature, b"function helloWorld(name)".to_vec());
    assert_eq!(info.doc_comment, Some(b"This is a test function".to_vec()));

    let body_content = &code.as_bytes()[info.start_byte..info.end_byte];
    assert!(body_content.iter().all(|b| b.is_ascii_whitespace()));
}

#[test]
fn test_find_async_function() {
    let backend = JsBackend;
    let code = "\n/**\n * Multi-line doc\n * second line\n */\nasync function fetchData(url) {\n}";
    let cursor_byte = code.find('{').unwrap() + 1;
    let result = backend
        .find_empty_function_at_cursor(code.as_bytes(), cursor_byte)
        .unwrap();

    let signature = String::from_utf8(result.signature).unwrap();
    assert!(signature.contains("async function fetchData"));
    assert_eq!(result.doc_comment, Some(b"Multi-line doc\nsecond line".to_vec()));
}

#[test]
fn js_backend_test_ignores_populated_function() {
    let backend = JsBackend;
    let code = "function hasCode() { console.log(\"hi\"); }";
    let cursor_byte = code.find('c').unwrap();

    let result = backend.find_empty_function_at_cursor(code.as_bytes(), cursor_byte);
    assert!(result.is_none(), "Should ignore functions with bodies");
}

#[test]
fn js_backend_test_cursor_outside_function() {
    let backend = JsBackend;
    let code = "function empty() {} \n // cursor is here";
    let cursor_byte = code.len() - 1;

    let result = backend.find_empty_function_at_cursor(code.as_bytes(), cursor_byte);
    assert!(result.is_none(), "Should ignore if cursor is outside bounds");
}

#[test]
fn jsx_backend_test_find_simple_empty_function() {
    let backend = JsxBackend;
    let code = "\n/**\n * This is a test function\n */\nfunction helloWorld(name) {\n}";
    let cursor_byte = code.find('}').unwrap() - 1;

    let result = backend.find_empty_function_at_cursor(code.as_bytes(), cursor_byte);

    assert!(result.is_some(), "Should find the empty function");
    let info = result.unwrap();

    assert_eq!(info.signature, b"function helloWorld(name)".to_vec());
    assert_eq!(info.doc_comment, Some(b"This is a test function".to_vec()));

    let body_content = &code.as_bytes()[info.start_byte..info.end_byte];
    assert!(body_content.iter().all(|b| b.is_ascii_whitespace()));
}

#[test]
fn test_find_arrow_function() {
    let backend = JsxBackend;
    let code = "\n/**\n * Arrow function test\n */\nexport const myFunc = (x) => {\n}";
    let cursor_byte = code.find('}').unwrap() - 1;

    let result = backend.find_empty_function_at_cursor(code.as_bytes(), cursor_byte);

    assert!(result.is_some(), "Should find the empty arrow function");
    let info = result.unwrap();

    let signature = String::from_utf8(info.signature).unwrap();
    assert!(signature.contains("export const myFunc"));
    assert_eq!(info.doc_comment, Some(b"Arrow function test".to_vec()));
}

#[test]
fn jsx_backend_test_ignores_populated_function() {
    let backend = JsxBackend;
    let code = "function hasCode() { console.log(\"hi\"); }";
    let cursor_byte = code.find('c').unwrap();

    let result = backend.find_empty_function_at_cursor(code.as_bytes(), cursor_byte);
    assert!(result.is_none(), "Should ignore functions with bodies");
}

#[test]
fn jsx_backend_test_cursor_outside_function() {
    let backend = JsxBackend;
    let code = "function empty() {} \n // cursor is here";
    let cursor_byte = code.len() - 1;

    let result = backend.find_empty_function_at_cursor(code.as_bytes(), cursor_byte);
    assert!(result.is_none(), "Should ignore if cursor is outside bounds");
}

#[test]
fn rust_backend_test_find_simple_empty_function() {
    let backend = RustBackend;
    let code = "\n/// This is a test function\nfn hello_world(name: &str) -> String {\n}";
    let cursor_byte = code.find('}').unwrap() - 1;

    let result = backend.find_empty_function_at_cursor(code.as_bytes(), cursor_byte);

    assert!(result.is_some(), "Should find the empty function");
    let info = result.unwrap();

    assert_eq!(info.signature, b"fn hello_world(name: &str) -> String".to_vec());
    assert_eq!(info.doc_comment, Some(b"This is a test function".to_vec()));

    // Check that start/end bytes are exactly between the braces
    let body_content = &code.as_bytes()[info.start_byte..info.end_byte];
    assert!(body_content.iter().all(|b| b.is_ascii_whitespace()));
}

#[test]
fn test_find_function_with_complex_signature() {
    let backend = RustBackend;
    let code = "\n/// Multi-line doc\n/// second line\npub async fn fetch_data<'a, T>(url: T) -> Result<Vec<u8>, Error> \nwhere T: Into<String> \n{\n}";
    let cursor_byte = code.find('{').unwrap() + 1;
    let result = backend
        .find_empty_function_at_cursor(code.as_bytes(), cursor_byte)
        .unwrap();

    let signature = String::from_utf8(result.signature).unwrap();
    assert!(signature.contains("pub async fn fetch_data"));
    assert!(signature.contains("where T: Into<String>"));
    assert_eq!(result.doc_comment, Some(b"Multi-line doc\nsecond line".to_vec()));
}

#[test]
fn rust_backend_test_ignores_populated_function() {
    let backend = RustBackend;
    let code = "fn has_code() { println!(\"hi\"); }";
    let cursor_byte = code.find('p').unwrap();

    let result = backend.find_empty_function_at_cursor(code.as_bytes(), cursor_byte);
    assert!(result.is_none(), "Should ignore functions with bodies");
}

#[test]
fn rust_backend_test_cursor_outside_function() {
    let backend = RustBackend;
    let code = "fn empty() {} \n // cursor is here";
    let cursor_byte = code.len() - 1;

    let result = backend.find_empty_function_at_cursor(code.as_bytes(), cursor_byte);
    assert!(result.is_none(), "Should ignore if cursor is outside bounds");
}

#[test]
fn ts_backend_finds_empty_function() {
    let backend = TsBackend;
    let code = "/**\n * Greets someone.\n */\nfunction greet(name: string): string {\n}";
    let cursor_byte = code.find('}').unwrap() - 1;

    let result = backend.find_empty_function_at_cursor(code.as_bytes(), cursor_byte);

    assert!(result.is_some());
    let info = result.unwrap();
    assert_eq!(info.signature, b"function greet(name: string): string".to_vec());
    assert_eq!(info.doc_comment, Some(b"Greets someone.".to_vec()));
}

#[test]
fn cursor_at_both_span_ends_inclusive() {
    let backend = RustBackend;
    let code = "fn blank() {\n}";
    // at the very first byte of the function
    let at_start = backend.find_empty_function_at_cursor(code.as_bytes(), 0);
    assert!(at_start.is_some());
    // at the very last byte of the function (the closing brace)
    let at_end = backend.find_empty_function_at_cursor(code.as_bytes(), code.len() - 1);
    assert!(at_end.is_some());
}

#[test]
fn interior_range_excludes_delimiters() {
    let backend = RustBackend;
    let code = "/// adds\nfn add(a: i32, b: i32) -> i32 {\n}";
    let cursor_byte = code.find('}').unwrap() - 1;
    let info = backend
        .find_empty_function_at_cursor(code.as_bytes(), cursor_byte)
        .unwrap();
    assert_eq!(info.signature, b"fn add(a: i32, b: i32) -> i32".to_vec());
    assert_eq!(info.doc_comment, Some(b"adds".to_vec()));
    let interior = &code[info.start_byte..info.end_byte];
    assert_eq!(interior.trim(), "");
    // the delimiters sit just outside the reported range
    assert_eq!(&code[info.start_byte - 1..info.start_byte], "{");
    assert_eq!(&code[info.end_byte..info.end_byte + 1], "}");
}

#[test]
fn doc_collection_stops_at_non_doc_comment() {
    let backend = RustBackend;
    let code = "// plain note\n/// first\n/// second\nfn blank() {\n}";
    let cursor_byte = code.find('}').unwrap() - 1;
    let info = backend
        .find_empty_function_at_cursor(code.as_bytes(), cursor_byte)
        .unwrap();
    assert_eq!(info.doc_comment, Some(b"first\nsecond".to_vec()));
}

#[test]
fn no_doc_comment_when_absent() {
    let backend = RustBackend;
    let code = "fn blank() {\n}";
    let cursor_byte = code.find('}').unwrap() - 1;
    let info = backend
        .find_empty_function_at_cursor(code.as_bytes(), cursor_byte)
        .unwrap();
    assert_eq!(info.doc_comment, None);
}

#[test]
fn second_function_is_found_when_first_is_populated() {
    let backend = RustBackend;
    let code = "fn full() { let x = 1; }\n\nfn blank() {\n}\n";
    let cursor_byte = code.rfind('}').unwrap() - 1;
    let info = backend
        .find_empty_function_at_cursor(code.as_bytes(), cursor_byte)
        .unwrap();
    assert_eq!(info.signature, b"fn blank()".to_vec());
}

#[test]
fn find_empty_functions_lists_all_in_order() {
    let backend = RustBackend;
    let code = "fn a() {\n}\nfn full() { let x = 1; }\n/// doc\nfn b() {\n}\n";
    let infos = backend.find_empty_functions(code.as_bytes());
    assert_eq!(infos.len(), 2);
    assert_eq!(infos[0].signature, b"fn a()".to_vec());
    assert_eq!(infos[1].signature, b"fn b()".to_vec());
    assert_eq!(infos[1].doc_comment, Some(b"doc".to_vec()));
    // batch entries carry the whole declaration span
    assert_eq!(&code[infos[0].start_byte..infos[0].end_byte], "fn a() {\n}");
}

#[test]
fn find_empty_functions_empty_when_none_qualify() {
    let backend = JsBackend;
    let code = "function full() { return 1; }";
    let infos = backend.find_empty_functions(code.as_bytes());
    assert_eq!(infos.len(), 0);
}

#[test]
fn empty_buffer_locates_nothing() {
    let backend = RustBackend;
    let result = backend.find_empty_function_at_cursor(b"", 0);
    assert!(result.is_none());
    assert_eq!(backend.find_empty_functions(b"").len(), 0);
}

#[test]
fn doc_run_spans_a_blank_line_between_comments() {
    // Comments separated only by blank lines are still adjacent
    // siblings in the tree, so the run continues across them.
    let backend = RustBackend;
    let code = "/// first\n\n/// second\nfn blank() {\n}";
    let cursor_byte = code.find('}').unwrap() - 1;
    let info = backend
        .find_empty_function_at_cursor(code.as_bytes(), cursor_byte)
        .unwrap();
    assert_eq!(info.doc_comment, Some(b"first\nsecond".to_vec()));
}

#[test]
fn single_line_block_doc_comment_is_reflowed() {
    let backend = JsBackend;
    let code = "/** One-liner */\nfunction f() {\n}";
    let cursor_byte = code.find('}').unwrap() - 1;
    let info = backend
        .find_empty_function_at_cursor(code.as_bytes(), cursor_byte)
        .unwrap();
    assert_eq!(info.doc_comment, Some(b"One-liner".to_vec()));
}

#[test]
fn comment_only_body_is_not_empty() {
    let backend = RustBackend;
    let code = "fn documented() {\n    // todo\n}";
    let cursor_byte = code.find('}').unwrap() - 1;
    let result = backend.find_empty_function_at_cursor(code.as_bytes(), cursor_byte);
    assert!(result.is_none());
}
