//! The request lifecycle: submitting, queueing, responses, and cancellation.

use pcli2_rig::config::Config;
use pcli2_rig::message::MessageRole;
use pcli2_rig::session::{Effect, SessionState};

fn idle_session() -> SessionState {
    SessionState::new(Config::default())
}

#[test]
fn submit_starts_thinking_and_returns_prompt() {
    let mut s = idle_session();
    let e = s.submit("hello".to_string(), 7);
    assert!(s.thinking);
    assert_eq!(s.thinking_since, 7);
    assert_eq!(s.status, "Thinking...");
    assert!(s.cancel_token.is_some());
    assert_eq!(s.conversation.len(), 1);
    assert_eq!(s.conversation[0].role, MessageRole::User);
    assert_eq!(s.conversation[0].content, "hello");
    match e {
        Effect::StartRequest { prompt } => {
            assert_eq!(prompt, "\n\nUser: hello");
        }
        other => panic!("expected a request to start, got {:?}", other),
    }
}

#[test]
fn response_success_scenario() {
    // Idle session, submit("hello") -> thinking; on_response(Ok("hi")) ->
    // exactly two entries, User then Assistant, thinking off, success status.
    let mut s = idle_session();
    s.submit("hello".to_string(), 0);
    assert!(s.thinking);
    let e = s.on_response(Ok("hi".to_string()), 1);
    assert!(matches!(e, Effect::Nothing));
    assert_eq!(s.conversation.len(), 2);
    assert_eq!(s.conversation[0].role, MessageRole::User);
    assert_eq!(s.conversation[0].content, "hello");
    assert_eq!(s.conversation[1].role, MessageRole::Assistant);
    assert_eq!(s.conversation[1].content, "hi");
    assert!(!s.thinking);
    assert!(s.cancel_token.is_none());
    assert_eq!(s.status, "\u{2713} Ready");
}

#[test]
fn queueing_three_messages_preserves_order_and_flushes_once() {
    // Three texts sent while thinking sit in the queue in submission order;
    // the response flattens them into one blank-line-joined submission and
    // the queue is empty immediately after.
    let mut s = idle_session();
    s.submit("first".to_string(), 0);
    s.submit("b".to_string(), 0);
    s.submit("c".to_string(), 0);
    s.submit("d".to_string(), 0);
    assert_eq!(s.message_queue, vec!["b", "c", "d"]);
    assert_eq!(s.status, "Thinking... (3 queued)");
    let e = s.on_response(Ok("answer".to_string()), 5);
    assert!(s.message_queue.is_empty());
    assert!(s.thinking);
    let last = s.conversation.last().unwrap();
    assert_eq!(last.role, MessageRole::User);
    assert_eq!(last.content, "b\n\nc\n\nd");
    assert!(matches!(e, Effect::StartRequest { .. }));
}

#[test]
fn single_queued_message_flushes_without_separators() {
    // submit("a"), then submit("b") before resolution -> queue == ["b"];
    // resolving flushes exactly "b", with no leftover separators.
    let mut s = idle_session();
    s.submit("a".to_string(), 0);
    s.submit("b".to_string(), 0);
    assert_eq!(s.message_queue, vec!["b"]);
    assert_eq!(s.status, "Thinking... (1 queued)");
    s.on_response(Ok("first answer".to_string()), 0);
    assert!(s.message_queue.is_empty());
    let last = s.conversation.last().unwrap();
    assert_eq!(last.role, MessageRole::User);
    assert_eq!(last.content, "b");
}

#[test]
fn error_response_surfaces_error_text_and_status() {
    // on_response(Err("boom")) appends one Assistant message containing
    // "boom" and sets an error-flavoured status.
    let mut s = idle_session();
    s.submit("hello".to_string(), 0);
    let e = s.on_response(Err("boom".to_string()), 0);
    assert!(matches!(e, Effect::Nothing));
    assert_eq!(s.conversation.len(), 2);
    let last = s.conversation.last().unwrap();
    assert_eq!(last.role, MessageRole::Assistant);
    assert!(last.content.contains("boom"));
    assert_eq!(last.content, "\u{26a0} **Error:** boom");
    assert!(s.status.contains("Error"));
    assert_eq!(s.status, "\u{2717} Error: boom");
    assert!(!s.thinking);
}

#[test]
fn error_response_cleans_tool_call_prefixes() {
    let mut s = idle_session();
    s.submit("go".to_string(), 0);
    s.on_response(
        Err("ToolCallError: ToolCallError: Tool call error:  connection refused ".to_string()),
        0,
    );
    assert_eq!(s.status, "\u{2717} Error: connection refused");
    let last = s.conversation.last().unwrap();
    assert_eq!(last.content, "\u{26a0} **Error:** connection refused");
}

#[test]
fn empty_response_downgrades_to_warning() {
    let mut s = idle_session();
    s.submit("hello".to_string(), 0);
    s.on_response(Ok("  \n ".to_string()), 0);
    assert_eq!(s.status, "\u{26a0} Empty response from model");
    let last = s.conversation.last().unwrap();
    assert_eq!(last.role, MessageRole::Assistant);
    assert!(last.content.contains("empty response"));
    assert!(!s.thinking);
}

#[test]
fn cancel_without_request_is_noop() {
    // Status unchanged, no token created or destroyed.
    let mut s = idle_session();
    assert_eq!(s.status, "Ready");
    assert!(s.cancel_token.is_none());
    s.cancel();
    assert_eq!(s.status, "Ready");
    assert!(s.cancel_token.is_none());
    assert!(!s.thinking);
}

#[test]
fn cancel_inflight_request_stops_thinking_once() {
    let mut s = idle_session();
    s.submit("hello".to_string(), 0);
    assert!(s.thinking);
    s.cancel();
    assert!(!s.thinking);
    assert!(s.cancel_token.is_none());
    assert_eq!(s.status, "Request cancelled");
    // A second cancel is again a no-op.
    s.status = "sentinel".to_string();
    s.cancel();
    assert_eq!(s.status, "sentinel");
}

#[test]
fn response_resets_scroll_offsets() {
    let mut s = idle_session();
    s.submit("hello".to_string(), 0);
    s.scroll_offset = 4;
    s.log_scroll_offset = 2;
    s.log_hscroll_offset = 9;
    s.on_response(Ok("hi".to_string()), 0);
    assert_eq!(s.scroll_offset, 0);
    assert_eq!(s.log_scroll_offset, 0);
    assert_eq!(s.log_hscroll_offset, 0);
}

#[test]
fn submit_records_input_history() {
    let mut s = idle_session();
    s.submit("one".to_string(), 0);
    s.on_response(Ok("ok".to_string()), 0);
    s.submit("two".to_string(), 0);
    assert_eq!(s.input_history, vec!["one", "two"]);
    assert_eq!(s.history_index, 0);
}

#[test]
fn stale_response_after_cancel_is_status_only() {
    // A user-initiated cancellation is status-only: when the cancelled
    // task's outcome lands later, it injects no message into the
    // conversation and leaves the cancellation status in place.
    let mut s = idle_session();
    s.submit("hello".to_string(), 0);
    s.cancel();
    assert_eq!(s.conversation.len(), 1);
    assert_eq!(s.status, "Request cancelled");
    let e = s.on_response(Err("Request cancelled by user".to_string()), 9);
    assert!(matches!(e, Effect::Nothing));
    assert_eq!(s.conversation.len(), 1);
    assert_eq!(s.status, "Request cancelled");
    assert!(!s.thinking);
    assert!(s.cancel_token.is_none());
}

#[test]
fn queued_texts_survive_a_cancellation() {
    // Cancelling keeps queued texts; they flush with the next request's
    // response rather than being dropped.
    let mut s = idle_session();
    s.submit("a".to_string(), 0);
    s.submit("b".to_string(), 0);
    s.cancel();
    assert_eq!(s.message_queue, vec!["b"]);
    s.on_response(Err("Request cancelled by user".to_string()), 0);
    assert_eq!(s.message_queue, vec!["b"]);
    s.submit("c".to_string(), 0);
    s.on_response(Ok("answer".to_string()), 0);
    assert!(s.message_queue.is_empty());
    let last = s.conversation.last().unwrap();
    assert_eq!(last.role, MessageRole::User);
    assert_eq!(last.content, "b");
}

#[test]
fn command_input_never_reaches_the_model() {
    let mut s = idle_session();
    let e = s.submit("  /help".to_string(), 0);
    assert!(matches!(e, Effect::Nothing));
    assert!(!s.thinking);
    assert!(s.cancel_token.is_none());
    assert!(s.show_help);
    assert!(s.conversation.is_empty());
    assert!(s.input_history.is_empty());
}
