//! The local control surface: commands interpreted inside the session.

use pcli2_rig::config::{Config, McpServerConfig};
use pcli2_rig::message::{MessageRole, ToolDef};
use pcli2_rig::session::{Effect, SessionState};

fn idle_session() -> SessionState {
    SessionState::new(Config::default())
}

fn last_text(s: &SessionState) -> &str {
    &s.conversation.last().unwrap().content
}

#[test]
fn help_command_opens_the_overlay() {
    let mut s = idle_session();
    s.help_scroll_offset = 4;
    let e = s.handle_command("/help");
    assert!(matches!(e, Effect::Nothing));
    assert!(s.show_help);
    assert_eq!(s.help_scroll_offset, 0);
    assert!(s.conversation.is_empty());
}

#[test]
fn command_names_match_case_insensitively() {
    let mut s = idle_session();
    s.handle_command("/HeLp");
    assert!(s.show_help);
    let mut s2 = idle_session();
    s2.handle_command("/QUIT");
    assert!(s2.should_quit);
}

#[test]
fn quit_aliases_set_should_quit() {
    for cmd in ["/quit", "/exit", "/q"] {
        let mut s = idle_session();
        s.handle_command(cmd);
        assert!(s.should_quit, "{} did not quit", cmd);
    }
}

#[test]
fn clear_command_leaves_one_notice() {
    let mut s = idle_session();
    s.add_user_message("a".to_string());
    s.add_assistant_message("b".to_string());
    s.handle_command("/clear");
    assert_eq!(s.conversation.len(), 1);
    assert_eq!(s.conversation[0].role, MessageRole::Assistant);
    assert_eq!(s.conversation[0].content, "Chat history has been cleared.");
    assert_eq!(s.status, "Chat history cleared");
}

#[test]
fn model_command_shows_and_sets() {
    let mut s = idle_session();
    s.handle_command("/model");
    assert_eq!(last_text(&s), "Current model: qwen2.5-coder:3b");
    s.handle_command("/model llama3");
    assert_eq!(s.status, "Model changed to: llama3");
    assert_eq!(
        last_text(&s),
        "Model setting updated to 'llama3' (requires restart to apply)"
    );
}

#[test]
fn history_command_counts_messages() {
    let mut s = idle_session();
    s.add_user_message("x".to_string());
    s.add_assistant_message("y".to_string());
    s.handle_command("/history");
    assert_eq!(last_text(&s), "Chat history contains 2 messages.");
}

#[test]
fn status_command_reports_state() {
    let mut s = idle_session();
    s.handle_command("/status");
    assert_eq!(
        last_text(&s),
        "Status: Ready\nModel: qwen2.5-coder:3b\nMessages: 0"
    );
    assert_eq!(s.status, "Ready");
}

#[test]
fn yolo_command_is_announced_only() {
    let mut s = idle_session();
    s.handle_command("/yolo");
    assert_eq!(s.status, "YOLO mode toggled (feature pending)");
    assert_eq!(
        last_text(&s),
        "YOLO mode toggle requested. This feature is coming soon!"
    );
}

#[test]
fn unknown_command_is_reported() {
    let mut s = idle_session();
    s.handle_command("/frobnicate now");
    assert_eq!(
        last_text(&s),
        "Unknown command: /frobnicate. Type /help for available commands."
    );
}

fn config_with_servers() -> Config {
    let mut c = Config::default();
    c.mcp_servers.push(McpServerConfig {
        name: "filesystem".to_string(),
        url: "http://localhost:3000".to_string(),
        token: None,
        enabled: true,
    });
    c.mcp_servers.push(McpServerConfig {
        name: "paused".to_string(),
        url: "http://localhost:4000".to_string(),
        token: None,
        enabled: false,
    });
    c
}

#[test]
fn mcp_status_counts_servers() {
    let mut s = SessionState::new(config_with_servers());
    s.on_server_connected("filesystem".to_string());
    s.handle_command("/mcp");
    let text = last_text(&s);
    assert!(text.starts_with(
        "MCP Configuration:\n  Configured servers: 2\n  Enabled: 1\n  Connected: 1\n\n"
    ));
    assert!(text.contains("Connected servers:\n  \u{2713} filesystem\n"));
    assert!(text.contains("/mcp add <name> <url> - Add a new server"));
}

#[test]
fn mcp_status_without_servers_points_at_the_config_file() {
    let mut s = idle_session();
    s.handle_command("/mcp");
    let text = last_text(&s);
    assert!(text.contains("No MCP servers configured."));
    assert!(text.contains("config.toml"));
}

#[test]
fn mcp_list_shows_enabled_marks() {
    let mut s = SessionState::new(config_with_servers());
    s.handle_command("/mcp list");
    assert_eq!(
        last_text(&s),
        "Configured MCP servers:\n  \u{2713} filesystem (http://localhost:3000)\n  \u{2717} paused (http://localhost:4000)\n"
    );
}

#[test]
fn mcp_tools_requires_a_connected_server() {
    let mut s = idle_session();
    let e = s.handle_command("/mcp tools");
    assert!(matches!(e, Effect::Nothing));
    assert_eq!(
        last_text(&s),
        "No MCP server connected. Configure with --setup-mcp or --mcp-remote."
    );
    s.set_tool_server_available(true);
    let e = s.handle_command("/mcp tools");
    assert!(matches!(e, Effect::FetchToolDefs));
}

#[test]
fn tool_defs_are_listed_numbered() {
    let mut s = idle_session();
    s.on_tool_defs(Ok(vec![
        ToolDef { name: "ls".to_string(), description: "list things".to_string() },
        ToolDef { name: "cat".to_string(), description: "show a file".to_string() },
    ]));
    assert_eq!(
        last_text(&s),
        "**Available MCP tools** (2 total):\n\n**1.** `ls`\n    list things\n\n**2.** `cat`\n    show a file\n\n"
    );
}

#[test]
fn empty_and_failed_tool_defs_are_reported() {
    let mut s = idle_session();
    s.on_tool_defs(Ok(vec![]));
    assert_eq!(last_text(&s), "No MCP tools available.");
    s.on_tool_defs(Err("connection reset".to_string()));
    assert_eq!(last_text(&s), "Failed to get tool definitions: connection reset");
}

#[test]
fn mcp_add_explains_the_config_edit() {
    let mut s = idle_session();
    s.handle_command("/mcp add");
    assert_eq!(last_text(&s), "Usage: /mcp add <name> <url>");
    s.handle_command("/mcp add files http://x:1");
    assert_eq!(
        last_text(&s),
        "To add MCP server 'files', edit ~/.config/pcli2-rig/config.toml\nAdd this section:\n[[mcp_servers]]\nname = \"files\"\nurl = \"http://x:1\"\nenabled = true"
    );
}

#[test]
fn unknown_mcp_subcommand_is_reported() {
    let mut s = idle_session();
    s.handle_command("/mcp dance");
    assert_eq!(last_text(&s), "Unknown MCP command: dance. Type /mcp for help.");
}

#[test]
fn enabled_mcp_servers_filters_disabled_ones() {
    let c = config_with_servers();
    let enabled = c.enabled_mcp_servers();
    assert_eq!(enabled.len(), 1);
    assert_eq!(enabled[0].name, "filesystem");
    assert!(pcli2_rig::config::default_true());
}

#[test]
fn connected_status_names_the_count() {
    let mut s = SessionState::new(config_with_servers());
    s.on_server_connected("filesystem".to_string());
    s.set_connected_status();
    assert_eq!(s.status, "Ready | 1 MCP server(s) connected");
}
