use chace::ai::groq_gpt_oss::GGPTOSSBackend;
use chace::ai::helpers::clean_output;
use chace::languages::helpers::is_empty_body;

#[test]
fn clean_output_strips_fences_with_language_tag() {
    let raw = "```rust\nlet x = 1;\nx + 1\n```";
    assert_eq!(clean_output(raw.as_bytes()), b"let x = 1;\nx + 1".to_vec());
}

#[test]
fn clean_output_plain_text_is_trimmed_only() {
    let raw = "   a + b \n";
    assert_eq!(clean_output(raw.as_bytes()), b"a + b".to_vec());
}

#[test]
fn clean_output_fence_without_newline_keeps_rest() {
    // an opening fence with no line break after it: nothing to cut at
    let raw = "```abc";
    assert_eq!(clean_output(raw.as_bytes()), b"abc".to_vec());
}

#[test]
fn clean_output_trailing_fence_only() {
    let raw = "result\n```";
    assert_eq!(clean_output(raw.as_bytes()), b"result".to_vec());
}

#[test]
fn clean_output_empty_input() {
    assert_eq!(clean_output(b""), Vec::<u8>::new());
}

#[test]
fn groq_clean_output_matches_shared_cleanup() {
    let raw = "```python\nreturn 1\n```";
    assert_eq!(GGPTOSSBackend::clean_output(raw.as_bytes()), b"return 1".to_vec());
    assert_eq!(
        GGPTOSSBackend::clean_output(raw.as_bytes()),
        clean_output(raw.as_bytes())
    );
}

#[test]
fn is_empty_body_accepts_whitespace_and_braces() {
    assert!(is_empty_body(b"{ \n\t }"));
    assert!(is_empty_body(b""));
    assert!(is_empty_body(b"{}"));
}

#[test]
fn is_empty_body_rejects_content() {
    assert!(!is_empty_body(b"{ return 1; }"));
    assert!(!is_empty_body(b"{ // comment }"));
}
