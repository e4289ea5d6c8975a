use chace::dispatch::GenerateRequest;
use chace::server::{ConnAction, ConnState, LineEvent, conn_step};

fn sample_request() -> GenerateRequest {
    GenerateRequest {
        source_code: b"fn empty() {\n}".to_vec(),
        cursor_byte: 13,
        backend: "Gemini".to_string(),
        file_type: "rust".to_string(),
        context_snippets: None,
    }
}

#[test]
fn request_line_is_dispatched_and_connection_stays_open() {
    let (state, action) = conn_step(ConnState::Reading, LineEvent::Request(sample_request()));
    assert_eq!(state, ConnState::Reading);
    assert!(matches!(action, ConnAction::Dispatch(_)));
}

#[test]
fn malformed_line_gets_one_error_and_connection_stays_open() {
    let (state, action) = conn_step(ConnState::Reading, LineEvent::Malformed);
    assert_eq!(state, ConnState::Reading);
    assert!(matches!(action, ConnAction::ReportError));
    // the connection is still usable for a well-formed line afterwards
    let (state, action) = conn_step(state, LineEvent::Request(sample_request()));
    assert_eq!(state, ConnState::Reading);
    assert!(matches!(action, ConnAction::Dispatch(_)));
}

#[test]
fn end_of_stream_closes_the_connection() {
    let (state, action) = conn_step(ConnState::Reading, LineEvent::Eof);
    assert_eq!(state, ConnState::Closed);
    assert!(matches!(action, ConnAction::Shutdown));
}

#[test]
fn one_reply_per_line_in_order() {
    let events = vec![
        LineEvent::Request(sample_request()),
        LineEvent::Malformed,
        LineEvent::Request(sample_request()),
    ];
    let mut state = ConnState::Reading;
    let mut replies: Vec<ConnAction> = Vec::new();
    for ev in events {
        let (next, action) = conn_step(state, ev);
        state = next;
        replies.push(action);
    }
    assert_eq!(replies.len(), 3);
    assert!(matches!(replies[0], ConnAction::Dispatch(_)));
    assert!(matches!(replies[1], ConnAction::ReportError));
    assert!(matches!(replies[2], ConnAction::Dispatch(_)));
    assert_eq!(state, ConnState::Reading);
}
