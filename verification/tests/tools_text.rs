//! Tool-argument validation and the fixed texts of the session.

use pcli2_rig::prompt::{
    build_prompt, default_preamble, format_msg_content, get_help_text, preamble_with_tools,
    request_failure_message, welcome_banner,
};
use pcli2_rig::message::{ChatMessage, MessageRole};
use pcli2_rig::tools::{
    build_tool_invocation, format_list_directory_result, format_read_file_result,
    format_run_command_result, format_search_results, format_write_file_result,
    prepare_tool_invocation, DirEntryInfo, ToolInvocation,
};

#[test]
fn prepare_read_file_invocation_from_json() {
    let r = prepare_tool_invocation("read_file", "{\"path\": \"/tmp/a.txt\"}");
    match r {
        Ok(ToolInvocation::ReadFile { path }) => assert_eq!(path, "/tmp/a.txt"),
        other => panic!("expected a read invocation, got {:?}", other),
    }
}

#[test]
fn prepare_write_file_requires_both_arguments() {
    let r = prepare_tool_invocation("write_file", "{\"path\": \"x\"}");
    assert_eq!(r.unwrap_err(), "Missing 'content' argument");
    let r = prepare_tool_invocation("write_file", "{\"content\": \"hello\"}");
    assert_eq!(r.unwrap_err(), "Missing 'path' argument");
    let r = prepare_tool_invocation("write_file", "{\"path\": \"x\", \"content\": \"y\"}");
    match r {
        Ok(ToolInvocation::WriteFile { path, content }) => {
            assert_eq!(path, "x");
            assert_eq!(content, "y");
        }
        other => panic!("expected a write invocation, got {:?}", other),
    }
}

#[test]
fn prepare_rejects_invalid_json() {
    let r = prepare_tool_invocation("read_file", "not json at all");
    assert_eq!(r.unwrap_err(), "Failed to parse tool arguments");
}

#[test]
fn prepare_rejects_unknown_tools() {
    let r = prepare_tool_invocation("teleport", "{}");
    assert_eq!(r.unwrap_err(), "Unknown tool: teleport");
}

#[test]
fn run_command_and_search_invocations() {
    let r = prepare_tool_invocation("run_command", "{\"command\": \"ls -l\"}");
    assert!(matches!(r, Ok(ToolInvocation::RunCommand { .. })));
    let r = prepare_tool_invocation("run_command", "{}");
    assert_eq!(r.unwrap_err(), "Missing 'command' argument");
    let r = prepare_tool_invocation(
        "search_code",
        "{\"pattern\": \"fn main\", \"glob\": \"*.rs\"}",
    );
    match r {
        Ok(ToolInvocation::SearchCode { pattern, glob }) => {
            assert_eq!(pattern, "fn main");
            assert_eq!(glob.as_deref(), Some("*.rs"));
        }
        other => panic!("expected a search invocation, got {:?}", other),
    }
    let r = prepare_tool_invocation("list_directory", "{\"path\": \"/tmp\"}");
    assert!(matches!(r, Ok(ToolInvocation::ListDirectory { .. })));
}

#[test]
fn build_invocation_validates_without_json() {
    let r = build_tool_invocation("read_file", None, None, None, None, None);
    assert_eq!(r.unwrap_err(), "Missing 'path' argument");
    let r = build_tool_invocation(
        "search_code",
        None,
        None,
        None,
        Some("x".to_string()),
        None,
    );
    assert!(matches!(r, Ok(ToolInvocation::SearchCode { .. })));
}

#[test]
fn tool_result_texts_are_exact() {
    assert_eq!(
        format_read_file_result("/tmp/a", "hello"),
        "Contents of /tmp/a:\n\nhello"
    );
    assert_eq!(
        format_write_file_result("/tmp/a", 42),
        "Successfully wrote 42 bytes to /tmp/a"
    );
    let entries = vec![
        DirEntryInfo { name: "src".to_string(), is_dir: true },
        DirEntryInfo { name: "lib.rs".to_string(), is_dir: false },
    ];
    assert_eq!(
        format_list_directory_result("/tmp", &entries),
        "Contents of /tmp:\n\n\u{1f4c1} src/\n\u{1f4c4} lib.rs\n"
    );
    assert_eq!(
        format_run_command_result("true", "", "", 0),
        "Command: true\n\nExit code: 0"
    );
    assert_eq!(
        format_run_command_result("ls", "a\nb", "oops", -1),
        "Command: ls\n\nSTDOUT:\na\nb\nSTDERR:\noops\nExit code: -1"
    );
    assert_eq!(format_search_results("x", ""), "No matches found.");
    assert_eq!(
        format_search_results("x", "lib.rs:1:x"),
        "Search results for 'x':\n\nlib.rs:1:x"
    );
}

#[test]
fn prompt_is_built_from_roles_in_order() {
    let msgs = vec![
        ChatMessage { role: MessageRole::User, content: "hi".to_string() },
        ChatMessage { role: MessageRole::Assistant, content: "hello".to_string() },
        ChatMessage { role: MessageRole::System, content: "sys".to_string() },
        ChatMessage { role: MessageRole::ToolResult, content: "out".to_string() },
    ];
    assert_eq!(
        build_prompt(&msgs),
        "\n\nUser: hi\n\nAssistant: hello\n\nSystem: sys\n\nTool Result: out"
    );
}

#[test]
fn preambles_and_banner_have_their_fixed_shapes() {
    assert!(default_preamble().starts_with("You are PCLI2-RIG"));
    let p = preamble_with_tools(&vec!["a".to_string(), "b".to_string(), "c".to_string()]);
    assert!(p.contains("You have access to these MCP tools: a, b, c\n"));
    assert!(welcome_banner().contains("Type /help for available commands"));
}

#[test]
fn request_failure_message_names_the_model() {
    let m = request_failure_message("connection refused", "mistral");
    assert_eq!(
        m,
        "Ollama request failed: connection refused\n\nMake sure Ollama is running (`ollama serve`) and the model is pulled (`ollama pull mistral`)."
    );
}

#[test]
fn help_text_splices_the_config_path() {
    let h = get_help_text("/home/me/.config/pcli2-rig/config.toml");
    assert!(h.starts_with("PCLI2-RIG - Local AI Agent\n"));
    assert!(h.contains("Config file: /home/me/.config/pcli2-rig/config.toml\n"));
    assert!(h.ends_with("Press Esc, Enter, or 'q' to close this help."));
}

#[test]
fn message_content_wraps_at_the_width() {
    assert_eq!(format_msg_content("alpha beta gamma", 10), "alpha beta\ngamma");
    assert_eq!(format_msg_content("one  two", 80), "one two");
    assert_eq!(format_msg_content("", 80), "");
    assert_eq!(format_msg_content("word", 2), "\nword");
}
