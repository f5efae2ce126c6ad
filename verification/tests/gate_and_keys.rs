//! The tool-confirmation gate's strict modal capture, and keyboard/mouse
//! routing.

use pcli2_rig::config::Config;
use pcli2_rig::event::{Event, Key, MouseKind, PaneLayout};
use pcli2_rig::message::{MessageRole, PendingToolCall};
use pcli2_rig::session::{Effect, SessionState};

fn layout() -> PaneLayout {
    PaneLayout {
        chat_top: 0,
        chat_bottom: 10,
        input_top: 10,
        input_bottom: 13,
        logs_top: 13,
        logs_bottom: 19,
    }
}

fn session_with_pending() -> SessionState {
    let mut s = SessionState::new(Config::default());
    s.propose_tool_call(PendingToolCall {
        tool_name: "read_file".to_string(),
        arguments: "{\"path\":\"/tmp/x\"}".to_string(),
        call_id: "call-1".to_string(),
    });
    s
}

#[test]
fn fifty_arbitrary_keys_leave_pending_state_unchanged() {
    // While a confirmation is pending, any key that is not a confirm or
    // cancel key is swallowed without any state change.
    let mut s = session_with_pending();
    let keys: Vec<(Key, bool)> = vec![
        (Key::Char('a'), false),
        (Key::Char('b'), false),
        (Key::Char('z'), false),
        (Key::Char('0'), false),
        (Key::Char('9'), false),
        (Key::Char(' '), false),
        (Key::Char('/'), false),
        (Key::Char('!'), false),
        (Key::Char('@'), false),
        (Key::Char('#'), false),
        (Key::Char('$'), false),
        (Key::Char('%'), false),
        (Key::Char('^'), false),
        (Key::Char('&'), false),
        (Key::Char('*'), false),
        (Key::Char('('), false),
        (Key::Char(')'), false),
        (Key::Char('-'), false),
        (Key::Char('_'), false),
        (Key::Char('='), false),
        (Key::Char('+'), false),
        (Key::Char('['), false),
        (Key::Char(']'), false),
        (Key::Char('{'), false),
        (Key::Char('}'), false),
        (Key::Char(';'), false),
        (Key::Char(':'), false),
        (Key::Char('\''), false),
        (Key::Char('"'), false),
        (Key::Char(','), false),
        (Key::Char('.'), false),
        (Key::Char('<'), false),
        (Key::Char('>'), false),
        (Key::Char('?'), false),
        (Key::Char('q'), false),
        (Key::Char('w'), false),
        (Key::Char('e'), false),
        (Key::Char('c'), true),
        (Key::Char('k'), true),
        (Key::Char('m'), true),
        (Key::Backspace, false),
        (Key::Delete, false),
        (Key::Left, false),
        (Key::Right, false),
        (Key::Up, false),
        (Key::Down, false),
        (Key::Home, false),
        (Key::End, false),
        (Key::Tab, false),
        (Key::PageUp, false),
    ];
    assert_eq!(keys.len(), 50);
    for (code, ctrl) in keys {
        let e = s.handle_event(Event::Key { code, ctrl }, layout(), 0);
        assert!(matches!(e, Effect::Nothing), "key {:?} produced an effect", code);
        let p = s.pending_tool_call.as_ref().expect("pending call vanished");
        assert_eq!(p.tool_name, "read_file");
        assert_eq!(p.arguments, "{\"path\":\"/tmp/x\"}");
        assert!(!s.should_quit);
        assert!(s.conversation.is_empty());
        assert!(s.input.is_empty());
        assert_eq!(s.status, "Ready");
        assert_eq!(s.focus_pane, 1);
        assert!(!s.show_help);
    }
}

#[test]
fn mouse_and_resize_are_swallowed_while_pending() {
    let mut s = session_with_pending();
    s.mouse_enabled = true;
    let e = s.handle_event(
        Event::Mouse { kind: MouseKind::LeftDown, row: 2 },
        layout(),
        0,
    );
    assert!(matches!(e, Effect::Nothing));
    assert_eq!(s.focus_pane, 1);
    let e = s.handle_event(Event::Resize, layout(), 0);
    assert!(matches!(e, Effect::Nothing));
    assert!(s.pending_tool_call.is_some());
}

#[test]
fn confirm_key_executes_pending_tool() {
    let mut s = session_with_pending();
    let e = s.handle_event(Event::Key { code: Key::Char('y'), ctrl: false }, layout(), 0);
    assert!(s.pending_tool_call.is_none());
    assert_eq!(s.status, "Executing read_file...");
    match e {
        Effect::ExecuteTool { tool_name, arguments } => {
            assert_eq!(tool_name, "read_file");
            assert_eq!(arguments, "{\"path\":\"/tmp/x\"}");
        }
        other => panic!("expected tool execution, got {:?}", other),
    }
}

#[test]
fn deny_key_cancels_pending_tool() {
    let mut s = session_with_pending();
    let e = s.handle_event(Event::Key { code: Key::Esc, ctrl: false }, layout(), 0);
    assert!(matches!(e, Effect::Nothing));
    assert!(s.pending_tool_call.is_none());
    assert_eq!(s.status, "Tool execution cancelled");
}

#[test]
fn tool_success_feeds_follow_up_submission() {
    let mut s = session_with_pending();
    s.handle_event(Event::Key { code: Key::Enter, ctrl: false }, layout(), 0);
    let e = s.on_tool_result(Ok("file text".to_string()), 3);
    assert_eq!(s.conversation.len(), 2);
    assert_eq!(s.conversation[0].role, MessageRole::ToolResult);
    assert_eq!(s.conversation[0].content, "file text");
    assert_eq!(s.conversation[1].role, MessageRole::User);
    assert_eq!(s.conversation[1].content, "The tool returned:\nfile text");
    assert!(s.thinking);
    assert!(matches!(e, Effect::StartRequest { .. }));
}

#[test]
fn tool_failure_appends_error_tool_result() {
    let mut s = session_with_pending();
    s.handle_event(Event::Key { code: Key::Char('Y'), ctrl: false }, layout(), 0);
    let e = s.on_tool_result(Err("Tool call error: no such file".to_string()), 0);
    assert!(matches!(e, Effect::Nothing));
    assert_eq!(s.conversation.len(), 1);
    assert_eq!(s.conversation[0].role, MessageRole::ToolResult);
    assert_eq!(s.conversation[0].content, "Error: no such file");
    assert_eq!(s.status, "Tool execution failed: no such file");
    assert!(!s.thinking);
}

#[test]
fn typing_and_enter_submit_the_input_line() {
    let mut s = SessionState::new(Config::default());
    for c in ['h', 'i', '!'] {
        s.handle_event(Event::Key { code: Key::Char(c), ctrl: false }, layout(), 0);
    }
    assert_eq!(s.input, vec!['h', 'i', '!']);
    assert_eq!(s.cursor_pos, 3);
    let e = s.handle_event(Event::Key { code: Key::Enter, ctrl: false }, layout(), 9);
    assert!(s.input.is_empty());
    assert_eq!(s.cursor_pos, 0);
    assert!(s.thinking);
    assert_eq!(s.conversation[0].content, "hi!");
    assert!(matches!(e, Effect::StartRequest { .. }));
}

#[test]
fn enter_on_blank_input_does_nothing() {
    let mut s = SessionState::new(Config::default());
    s.handle_event(Event::Key { code: Key::Char(' '), ctrl: false }, layout(), 0);
    let e = s.handle_event(Event::Key { code: Key::Enter, ctrl: false }, layout(), 0);
    assert!(matches!(e, Effect::Nothing));
    assert!(!s.thinking);
    assert!(s.conversation.is_empty());
    assert_eq!(s.input, vec![' ']);
}

#[test]
fn editing_keys_move_and_delete() {
    let mut s = SessionState::new(Config::default());
    for c in ['a', 'b', 'c'] {
        s.handle_key_event(Key::Char(c), false, 0);
    }
    s.handle_key_event(Key::Left, false, 0);
    s.handle_key_event(Key::Backspace, false, 0);
    assert_eq!(s.input, vec!['a', 'c']);
    assert_eq!(s.cursor_pos, 1);
    s.handle_key_event(Key::Delete, false, 0);
    assert_eq!(s.input, vec!['a']);
    s.handle_key_event(Key::Home, false, 0);
    assert_eq!(s.cursor_pos, 0);
    s.handle_key_event(Key::End, false, 0);
    assert_eq!(s.cursor_pos, 1);
}

#[test]
fn ctrl_c_quits_and_ctrl_k_clears() {
    let mut s = SessionState::new(Config::default());
    s.add_assistant_message("old".to_string());
    s.handle_key_event(Key::Char('k'), true, 0);
    assert!(s.conversation.is_empty());
    assert_eq!(s.status, "Chat history cleared");
    assert!(!s.should_quit);
    s.handle_key_event(Key::Char('c'), true, 0);
    assert!(s.should_quit);
}

#[test]
fn esc_cancels_only_while_thinking() {
    let mut s = SessionState::new(Config::default());
    s.handle_key_event(Key::Esc, false, 0);
    assert_eq!(s.status, "Ready");
    s.submit("hey".to_string(), 0);
    s.handle_key_event(Key::Esc, false, 0);
    assert!(!s.thinking);
    assert_eq!(s.status, "Request cancelled");
}

#[test]
fn tab_cycles_focus_both_ways() {
    let mut s = SessionState::new(Config::default());
    assert_eq!(s.focus_pane, 1);
    s.handle_key_event(Key::Tab, false, 0);
    assert_eq!(s.focus_pane, 2);
    s.handle_key_event(Key::Tab, false, 0);
    assert_eq!(s.focus_pane, 0);
    s.handle_key_event(Key::BackTab, false, 0);
    assert_eq!(s.focus_pane, 2);
}

#[test]
fn arrow_keys_scroll_focused_pane() {
    let mut s = SessionState::new(Config::default());
    s.focus_pane = 0;
    s.handle_key_event(Key::Up, false, 0);
    s.handle_key_event(Key::PageUp, false, 0);
    assert_eq!(s.scroll_offset, 6);
    s.handle_key_event(Key::PageDown, false, 0);
    s.handle_key_event(Key::Down, false, 0);
    assert_eq!(s.scroll_offset, 0);
    s.focus_pane = 2;
    s.handle_key_event(Key::Right, false, 0);
    s.handle_key_event(Key::Right, false, 0);
    s.handle_key_event(Key::Left, false, 0);
    assert_eq!(s.log_hscroll_offset, 1);
}

#[test]
fn history_navigation_restores_original_input() {
    let mut s = SessionState::new(Config::default());
    s.submit("alpha".to_string(), 0);
    s.on_response(Ok("ok".to_string()), 0);
    s.submit("beta".to_string(), 0);
    s.on_response(Ok("ok".to_string()), 0);
    s.focus_pane = 1;
    s.input = vec!['d', 'r'];
    s.cursor_pos = 2;
    s.handle_key_event(Key::Up, false, 0);
    assert_eq!(s.input, vec!['b', 'e', 't', 'a']);
    s.handle_key_event(Key::Up, false, 0);
    assert_eq!(s.input, vec!['a', 'l', 'p', 'h', 'a']);
    s.handle_key_event(Key::Up, false, 0);
    assert_eq!(s.input, vec!['a', 'l', 'p', 'h', 'a']);
    s.handle_key_event(Key::Down, false, 0);
    assert_eq!(s.input, vec!['b', 'e', 't', 'a']);
    s.handle_key_event(Key::Down, false, 0);
    assert_eq!(s.input, vec!['d', 'r']);
    assert_eq!(s.cursor_pos, 2);
}

#[test]
fn ctrl_m_toggles_mouse_capture() {
    let mut s = SessionState::new(Config::default());
    let e = s.handle_event(Event::Key { code: Key::Char('m'), ctrl: true }, layout(), 0);
    assert!(matches!(e, Effect::EnableMouseCapture));
    assert!(s.mouse_enabled);
    assert_eq!(s.status, "Mouse enabled (click/scroll enabled)");
    let e = s.handle_event(Event::Key { code: Key::Char('m'), ctrl: true }, layout(), 0);
    assert!(matches!(e, Effect::DisableMouseCapture));
    assert!(!s.mouse_enabled);
    assert_eq!(s.status, "Mouse disabled (text selection enabled)");
}

#[test]
fn mouse_click_changes_focus_and_wheel_scrolls() {
    let mut s = SessionState::new(Config::default());
    s.mouse_enabled = true;
    s.handle_event(Event::Mouse { kind: MouseKind::LeftDown, row: 3 }, layout(), 0);
    assert_eq!(s.focus_pane, 0);
    s.handle_event(Event::Mouse { kind: MouseKind::ScrollUp, row: 3 }, layout(), 0);
    assert_eq!(s.scroll_offset, 3);
    s.handle_event(Event::Mouse { kind: MouseKind::ScrollDown, row: 3 }, layout(), 0);
    assert_eq!(s.scroll_offset, 0);
    s.handle_event(Event::Mouse { kind: MouseKind::LeftDown, row: 15 }, layout(), 0);
    assert_eq!(s.focus_pane, 2);
    s.handle_event(Event::Mouse { kind: MouseKind::ScrollRight, row: 15 }, layout(), 0);
    assert_eq!(s.log_hscroll_offset, 5);
}

#[test]
fn mouse_events_ignored_when_capture_off() {
    let mut s = SessionState::new(Config::default());
    assert!(!s.mouse_enabled);
    s.handle_event(Event::Mouse { kind: MouseKind::LeftDown, row: 3 }, layout(), 0);
    assert_eq!(s.focus_pane, 1);
}

#[test]
fn help_overlay_captures_keys() {
    let mut s = SessionState::new(Config::default());
    s.handle_command("/help");
    assert!(s.show_help);
    s.handle_key_event(Key::Down, false, 0);
    s.handle_key_event(Key::PageDown, false, 0);
    assert_eq!(s.help_scroll_offset, 11);
    s.handle_key_event(Key::PageUp, false, 0);
    assert_eq!(s.help_scroll_offset, 1);
    s.handle_key_event(Key::Char('q'), false, 0);
    assert!(!s.show_help);
    assert!(s.input.is_empty());
}
