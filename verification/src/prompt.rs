//! Prompt assembly and the session's fixed texts: the preamble handed to the
//! completion provider, the conversation flattened into one prompt, and the
//! word-wrapping used when messages are displayed.

use vstd::prelude::*;

use crate::message::{ChatMessage, MessageRole};
use crate::text::{joined_with, split_words, words_of};

verus! {

/// The marker written before a message of the given role inside a prompt.
pub open spec fn role_prefix(role: MessageRole) -> Seq<char> {
    match role {
        MessageRole::User => "\n\nUser: "@,
        MessageRole::Assistant => "\n\nAssistant: "@,
        MessageRole::System => "\n\nSystem: "@,
        MessageRole::ToolResult => "\n\nTool Result: "@,
    }
}

/// The whole conversation flattened into one prompt, oldest message first,
/// each introduced by its role marker.
pub open spec fn prompt_of(msgs: Seq<ChatMessage>) -> Seq<char>
    decreases msgs.len(),
{
    if msgs.len() == 0 {
        Seq::empty()
    } else {
        prompt_of(msgs.drop_last()) + role_prefix(msgs.last().role) + msgs.last().content@
    }
}

fn role_prefix_str(role: MessageRole) -> (s: &'static str)
    ensures
        s@ == role_prefix(role),
{
    match role {
        MessageRole::User => "\n\nUser: ",
        MessageRole::Assistant => "\n\nAssistant: ",
        MessageRole::System => "\n\nSystem: ",
        MessageRole::ToolResult => "\n\nTool Result: ",
    }
}

/// Flatten the conversation into the prompt text sent with a request.  The
/// caller passes a snapshot; the result shares no state with the session.
pub fn build_prompt(msgs: &Vec<ChatMessage>) -> (r: String)
    ensures
        r@ == prompt_of(msgs@),
{
    let mut r = String::new();
    let n = msgs.len();
    let mut i: usize = 0;
    while i < n
        invariant
            0 <= i <= n,
            n == msgs@.len(),
            r@ == prompt_of(msgs@.take(i as int)),
        decreases n - i,
    {
        r.append(role_prefix_str(msgs[i].role));
        r.append(msgs[i].content.as_str());
        proof {
            assert(msgs@.take(i + 1).drop_last() =~= msgs@.take(i as int));
        }
        i = i + 1;
    }
    proof {
        assert(msgs@.take(n as int) =~= msgs@);
    }
    r
}

/// The preamble used when no tool server is connected.
pub fn default_preamble() -> (s: String)
    ensures
        s@ == "You are PCLI2-RIG, a helpful AI coding assistant running in a terminal TUI.\n\nYou have access to tools that allow you to:\n- Read and write files\n- List directory contents  \n- Run shell commands\n- Search code with grep\n\nWhen using tools:\n1. Think carefully about what the user is asking\n2. Use the appropriate tool(s) to help\n3. Explain what you're doing and what the results mean\n\nBe concise but helpful. Use formatting like code blocks when appropriate.\nYou are running on the user's local machine via Ollama."@,
{
    "You are PCLI2-RIG, a helpful AI coding assistant running in a terminal TUI.\n\nYou have access to tools that allow you to:\n- Read and write files\n- List directory contents  \n- Run shell commands\n- Search code with grep\n\nWhen using tools:\n1. Think carefully about what the user is asking\n2. Use the appropriate tool(s) to help\n3. Explain what you're doing and what the results mean\n\nBe concise but helpful. Use formatting like code blocks when appropriate.\nYou are running on the user's local machine via Ollama.".to_owned()
}

/// The preamble used once tool servers are connected, naming the available
/// tools, comma-separated.
pub open spec fn tool_preamble(tool_names: Seq<Seq<char>>) -> Seq<char> {
    "You are PCLI2-RIG, a helpful AI coding assistant running in a terminal TUI.\n\nYou have access to these MCP tools: "@
        + joined_with(tool_names, ", "@)
        + "\n\nIMPORTANT: When the user asks about folders, assets, tenants, configuration, or any pcli2-related task, YOU MUST call the appropriate MCP tool directly. DO NOT just tell the user what command to run - actually execute the tool for them.\n\nFor example:\n- If asked to \"list folders\", call the pcli2 folder list tool\n- If asked to \"show tenants\", call the pcli2 tenant list tool\n- If asked about configuration, call the appropriate pcli2 config tool\n\nAlways prefer using MCP tools over suggesting shell commands. Only suggest shell commands if no relevant MCP tool exists.\n\nWhen using tools:\n1. Call the appropriate tool immediately\n2. Wait for the tool result\n3. Present the results to the user in a clear format\n\nBe concise but helpful. You are running on the user's local machine via Ollama."@
}

/// Build the tool-aware preamble from the connected tools' names.
pub fn preamble_with_tools(tool_names: &Vec<String>) -> (s: String)
    ensures
        s@ == tool_preamble(tool_names.deep_view()),
{
    let mut s =
        "You are PCLI2-RIG, a helpful AI coding assistant running in a terminal TUI.\n\nYou have access to these MCP tools: ".to_owned();
    let joined = crate::text::join_strings(tool_names, ", ");
    s.append(joined.as_str());
    s.append(
        "\n\nIMPORTANT: When the user asks about folders, assets, tenants, configuration, or any pcli2-related task, YOU MUST call the appropriate MCP tool directly. DO NOT just tell the user what command to run - actually execute the tool for them.\n\nFor example:\n- If asked to \"list folders\", call the pcli2 folder list tool\n- If asked to \"show tenants\", call the pcli2 tenant list tool\n- If asked about configuration, call the appropriate pcli2 config tool\n\nAlways prefer using MCP tools over suggesting shell commands. Only suggest shell commands if no relevant MCP tool exists.\n\nWhen using tools:\n1. Call the appropriate tool immediately\n2. Wait for the tool result\n3. Present the results to the user in a clear format\n\nBe concise but helpful. You are running on the user's local machine via Ollama.",
    );
    s
}

/// The greeting shown as the first conversation entry.
pub open spec fn banner_text() -> Seq<char> {
    "\n\u{1f916} PCLI2-RIG - Local AI Agent \u{b7} Powered by Ollama\n\nType /help for available commands \u{b7} Type /quit to exit\n"@
}

/// The greeting shown as the first conversation entry.
pub fn welcome_banner() -> (s: String)
    ensures
        s@ == banner_text(),
{
    "\n\u{1f916} PCLI2-RIG - Local AI Agent \u{b7} Powered by Ollama\n\nType /help for available commands \u{b7} Type /quit to exit\n".to_owned()
}

/// The error text a request task reports when the request ceiling passes
/// before the provider answers.
pub fn timeout_error_message() -> (s: String)
    ensures
        s@ == "Request timed out after 10 minutes"@,
{
    "Request timed out after 10 minutes".to_owned()
}

/// The error text a request task reports when it observes cancellation.
pub fn cancelled_error_message() -> (s: String)
    ensures
        s@ == "Request cancelled by user"@,
{
    "Request cancelled by user".to_owned()
}

/// The error text surfaced when a completion request fails outright.
pub open spec fn request_failure_text(err: Seq<char>, model: Seq<char>) -> Seq<char> {
    "Ollama request failed: "@ + err
        + "\n\nMake sure Ollama is running (`ollama serve`) and the model is pulled (`ollama pull "@
        + model + "`)."@
}

/// Render a failed completion request as the session's error text.
pub fn request_failure_message(err: &str, model: &str) -> (s: String)
    ensures
        s@ == request_failure_text(err@, model@),
{
    let mut s = "Ollama request failed: ".to_owned();
    s.append(err);
    s.append(
        "\n\nMake sure Ollama is running (`ollama serve`) and the model is pulled (`ollama pull ",
    );
    s.append(model);
    s.append("`).");
    s
}

/// The help overlay's text, with the configuration file's path spliced in.
pub open spec fn help_text(config_path: Seq<char>) -> Seq<char> {
    "PCLI2-RIG - Local AI Agent\n\u{2550}\u{2550}\u{2550}\u{2550}\u{2550}\u{2550}\u{2550}\u{2550}\u{2550}\u{2550}\u{2550}\u{2550}\u{2550}\u{2550}\u{2550}\u{2550}\u{2550}\u{2550}\u{2550}\u{2550}\u{2550}\u{2550}\u{2550}\u{2550}\u{2550}\u{2550}\u{2550}\u{2550}\u{2550}\u{2550}\u{2550}\u{2550}\u{2550}\u{2550}\u{2550}\u{2550}\u{2550}\u{2550}\u{2550}\u{2550}\u{2550}\u{2550}\u{2550}\u{2550}\u{2550}\u{2550}\u{2550}\u{2550}\u{2550}\u{2550}\u{2550}\u{2550}\u{2550}\u{2550}\u{2550}\u{2550}\u{2550}\u{2550}\u{2550}\n\nA beautiful TUI-based AI coding assistant powered by Ollama.\n\nCOMMANDS\n\u{2500}\u{2500}\u{2500}\u{2500}\u{2500}\u{2500}\u{2500}\u{2500}\u{2500}\u{2500}\u{2500}\u{2500}\u{2500}\u{2500}\u{2500}\u{2500}\u{2500}\u{2500}\u{2500}\u{2500}\u{2500}\u{2500}\u{2500}\u{2500}\u{2500}\u{2500}\u{2500}\u{2500}\u{2500}\u{2500}\u{2500}\u{2500}\u{2500}\u{2500}\u{2500}\u{2500}\u{2500}\u{2500}\u{2500}\u{2500}\u{2500}\u{2500}\u{2500}\u{2500}\u{2500}\u{2500}\u{2500}\u{2500}\u{2500}\u{2500}\u{2500}\u{2500}\u{2500}\u{2500}\u{2500}\u{2500}\u{2500}\u{2500}\u{2500}\n\n/help, /h, /?     Show this help message\n/quit, /exit, /q  Exit the application\n/clear, /cls      Clear chat history\n/model [name]     Show or set the current model\n/history, /hist   Show message count\n/status           Show current status\n/mcp              Show MCP server status\n/mcp list         List configured MCP servers\n/mcp tools        Show available MCP tools\n/yolo             Toggle YOLO mode (skip tool confirmation)\n\nMOUSE CONTROLS\n\u{2500}\u{2500}\u{2500}\u{2500}\u{2500}\u{2500}\u{2500}\u{2500}\u{2500}\u{2500}\u{2500}\u{2500}\u{2500}\u{2500}\u{2500}\u{2500}\u{2500}\u{2500}\u{2500}\u{2500}\u{2500}\u{2500}\u{2500}\u{2500}\u{2500}\u{2500}\u{2500}\u{2500}\u{2500}\u{2500}\u{2500}\u{2500}\u{2500}\u{2500}\u{2500}\u{2500}\u{2500}\u{2500}\u{2500}\u{2500}\u{2500}\u{2500}\u{2500}\u{2500}\u{2500}\u{2500}\u{2500}\u{2500}\u{2500}\u{2500}\u{2500}\u{2500}\u{2500}\u{2500}\u{2500}\u{2500}\u{2500}\u{2500}\u{2500}\n\nLeft Click       Focus on clicked pane\nScroll Wheel     Scroll in focused pane (3 lines)\n\nKEYBOARD SHORTCUTS\n\u{2500}\u{2500}\u{2500}\u{2500}\u{2500}\u{2500}\u{2500}\u{2500}\u{2500}\u{2500}\u{2500}\u{2500}\u{2500}\u{2500}\u{2500}\u{2500}\u{2500}\u{2500}\u{2500}\u{2500}\u{2500}\u{2500}\u{2500}\u{2500}\u{2500}\u{2500}\u{2500}\u{2500}\u{2500}\u{2500}\u{2500}\u{2500}\u{2500}\u{2500}\u{2500}\u{2500}\u{2500}\u{2500}\u{2500}\u{2500}\u{2500}\u{2500}\u{2500}\u{2500}\u{2500}\u{2500}\u{2500}\u{2500}\u{2500}\u{2500}\u{2500}\u{2500}\u{2500}\u{2500}\u{2500}\u{2500}\u{2500}\u{2500}\u{2500}\n\nGlobal:\n  Ctrl+C          Quit application\n  Ctrl+K          Clear chat history\n  Tab             Switch focus between panes\n  Shift+Tab       Switch focus backwards\n  Esc             Close modal dialogs\n\nInput Pane (when focused):\n  Enter           Send message\n  \u{2191}/\u{2193}             Previous/next command in history (or move cursor)\n  Home/End        Jump to start/end of input\n  Backspace       Delete character before cursor\n  Delete          Delete character at cursor\n  Ctrl+\u{2190}/\u{2192}        Jump by word (if supported)\n\nChat History Pane (when focused):\n  \u{2191}/\u{2193}             Scroll 1 line\n  PageUp/PageDown Scroll 5 lines\n\nLogs Pane (when focused):\n  \u{2191}/\u{2193}             Scroll 1 line\n  PageUp/PageDown Scroll 5 lines\n\nTool Confirmation:\n  Y/Enter         Confirm tool execution\n  N/Esc           Cancel tool execution\n\nPANES\n\u{2500}\u{2500}\u{2500}\u{2500}\u{2500}\u{2500}\u{2500}\u{2500}\u{2500}\u{2500}\u{2500}\u{2500}\u{2500}\u{2500}\u{2500}\u{2500}\u{2500}\u{2500}\u{2500}\u{2500}\u{2500}\u{2500}\u{2500}\u{2500}\u{2500}\u{2500}\u{2500}\u{2500}\u{2500}\u{2500}\u{2500}\u{2500}\u{2500}\u{2500}\u{2500}\u{2500}\u{2500}\u{2500}\u{2500}\u{2500}\u{2500}\u{2500}\u{2500}\u{2500}\u{2500}\u{2500}\u{2500}\u{2500}\u{2500}\u{2500}\u{2500}\u{2500}\u{2500}\u{2500}\u{2500}\u{2500}\u{2500}\u{2500}\u{2500}\n\nChat History [N]  - Conversation with AI (N = message count)\n                  - Shows user messages and AI responses\n                  - Markdown rendered for AI responses\n\nInput \u{2502} model \u{2502} \u{1f50c}N - Text input for messages\n                  - Model name shown in title\n                  - \u{1f50c}N shows N connected MCP servers\n\nLogs              - Real-time application logs\n                  - Color-coded by log level:\n                    \u{2717} Red = Errors\n                    \u{26a0} Yellow = Warnings\n                    \u{2713} Green = Info/Success\n                    \u{22ef} Cyan = Debug\n                    \u{2022} Gray = Other\n\nStatus            - Current application status\n                  - Animated spinner when processing\n                  - CPU sparkline during LLM requests\n\nCONFIGURATION\n\u{2500}\u{2500}\u{2500}\u{2500}\u{2500}\u{2500}\u{2500}\u{2500}\u{2500}\u{2500}\u{2500}\u{2500}\u{2500}\u{2500}\u{2500}\u{2500}\u{2500}\u{2500}\u{2500}\u{2500}\u{2500}\u{2500}\u{2500}\u{2500}\u{2500}\u{2500}\u{2500}\u{2500}\u{2500}\u{2500}\u{2500}\u{2500}\u{2500}\u{2500}\u{2500}\u{2500}\u{2500}\u{2500}\u{2500}\u{2500}\u{2500}\u{2500}\u{2500}\u{2500}\u{2500}\u{2500}\u{2500}\u{2500}\u{2500}\u{2500}\u{2500}\u{2500}\u{2500}\u{2500}\u{2500}\u{2500}\u{2500}\u{2500}\u{2500}\n\nConfig file: "@
        + config_path
        + "\n\nExample configuration:\n  model = \"qwen2.5-coder:3b\"\n  host = \"http://localhost:11434\"\n  yolo = false\n\n  [[mcp_servers]]\n  name = \"filesystem\"\n  url = \"http://localhost:3000\"\n  enabled = true\n\nLOGS\n\u{2500}\u{2500}\u{2500}\u{2500}\u{2500}\u{2500}\u{2500}\u{2500}\u{2500}\u{2500}\u{2500}\u{2500}\u{2500}\u{2500}\u{2500}\u{2500}\u{2500}\u{2500}\u{2500}\u{2500}\u{2500}\u{2500}\u{2500}\u{2500}\u{2500}\u{2500}\u{2500}\u{2500}\u{2500}\u{2500}\u{2500}\u{2500}\u{2500}\u{2500}\u{2500}\u{2500}\u{2500}\u{2500}\u{2500}\u{2500}\u{2500}\u{2500}\u{2500}\u{2500}\u{2500}\u{2500}\u{2500}\u{2500}\u{2500}\u{2500}\u{2500}\u{2500}\u{2500}\u{2500}\u{2500}\u{2500}\u{2500}\u{2500}\u{2500}\n\nApplication logs: ~/.local/state/pcli2-rig/pcli2-rig.log\n\nPress Esc, Enter, or 'q' to close this help."@
}

/// The help overlay's text, with the configuration file's path spliced in.
pub fn get_help_text(config_path: &str) -> (s: String)
    ensures
        s@ == help_text(config_path@),
{
    let mut s =
        "PCLI2-RIG - Local AI Agent\n\u{2550}\u{2550}\u{2550}\u{2550}\u{2550}\u{2550}\u{2550}\u{2550}\u{2550}\u{2550}\u{2550}\u{2550}\u{2550}\u{2550}\u{2550}\u{2550}\u{2550}\u{2550}\u{2550}\u{2550}\u{2550}\u{2550}\u{2550}\u{2550}\u{2550}\u{2550}\u{2550}\u{2550}\u{2550}\u{2550}\u{2550}\u{2550}\u{2550}\u{2550}\u{2550}\u{2550}\u{2550}\u{2550}\u{2550}\u{2550}\u{2550}\u{2550}\u{2550}\u{2550}\u{2550}\u{2550}\u{2550}\u{2550}\u{2550}\u{2550}\u{2550}\u{2550}\u{2550}\u{2550}\u{2550}\u{2550}\u{2550}\u{2550}\u{2550}\n\nA beautiful TUI-based AI coding assistant powered by Ollama.\n\nCOMMANDS\n\u{2500}\u{2500}\u{2500}\u{2500}\u{2500}\u{2500}\u{2500}\u{2500}\u{2500}\u{2500}\u{2500}\u{2500}\u{2500}\u{2500}\u{2500}\u{2500}\u{2500}\u{2500}\u{2500}\u{2500}\u{2500}\u{2500}\u{2500}\u{2500}\u{2500}\u{2500}\u{2500}\u{2500}\u{2500}\u{2500}\u{2500}\u{2500}\u{2500}\u{2500}\u{2500}\u{2500}\u{2500}\u{2500}\u{2500}\u{2500}\u{2500}\u{2500}\u{2500}\u{2500}\u{2500}\u{2500}\u{2500}\u{2500}\u{2500}\u{2500}\u{2500}\u{2500}\u{2500}\u{2500}\u{2500}\u{2500}\u{2500}\u{2500}\u{2500}\n\n/help, /h, /?     Show this help message\n/quit, /exit, /q  Exit the application\n/clear, /cls      Clear chat history\n/model [name]     Show or set the current model\n/history, /hist   Show message count\n/status           Show current status\n/mcp              Show MCP server status\n/mcp list         List configured MCP servers\n/mcp tools        Show available MCP tools\n/yolo             Toggle YOLO mode (skip tool confirmation)\n\nMOUSE CONTROLS\n\u{2500}\u{2500}\u{2500}\u{2500}\u{2500}\u{2500}\u{2500}\u{2500}\u{2500}\u{2500}\u{2500}\u{2500}\u{2500}\u{2500}\u{2500}\u{2500}\u{2500}\u{2500}\u{2500}\u{2500}\u{2500}\u{2500}\u{2500}\u{2500}\u{2500}\u{2500}\u{2500}\u{2500}\u{2500}\u{2500}\u{2500}\u{2500}\u{2500}\u{2500}\u{2500}\u{2500}\u{2500}\u{2500}\u{2500}\u{2500}\u{2500}\u{2500}\u{2500}\u{2500}\u{2500}\u{2500}\u{2500}\u{2500}\u{2500}\u{2500}\u{2500}\u{2500}\u{2500}\u{2500}\u{2500}\u{2500}\u{2500}\u{2500}\u{2500}\n\nLeft Click       Focus on clicked pane\nScroll Wheel     Scroll in focused pane (3 lines)\n\nKEYBOARD SHORTCUTS\n\u{2500}\u{2500}\u{2500}\u{2500}\u{2500}\u{2500}\u{2500}\u{2500}\u{2500}\u{2500}\u{2500}\u{2500}\u{2500}\u{2500}\u{2500}\u{2500}\u{2500}\u{2500}\u{2500}\u{2500}\u{2500}\u{2500}\u{2500}\u{2500}\u{2500}\u{2500}\u{2500}\u{2500}\u{2500}\u{2500}\u{2500}\u{2500}\u{2500}\u{2500}\u{2500}\u{2500}\u{2500}\u{2500}\u{2500}\u{2500}\u{2500}\u{2500}\u{2500}\u{2500}\u{2500}\u{2500}\u{2500}\u{2500}\u{2500}\u{2500}\u{2500}\u{2500}\u{2500}\u{2500}\u{2500}\u{2500}\u{2500}\u{2500}\u{2500}\n\nGlobal:\n  Ctrl+C          Quit application\n  Ctrl+K          Clear chat history\n  Tab             Switch focus between panes\n  Shift+Tab       Switch focus backwards\n  Esc             Close modal dialogs\n\nInput Pane (when focused):\n  Enter           Send message\n  \u{2191}/\u{2193}             Previous/next command in history (or move cursor)\n  Home/End        Jump to start/end of input\n  Backspace       Delete character before cursor\n  Delete          Delete character at cursor\n  Ctrl+\u{2190}/\u{2192}        Jump by word (if supported)\n\nChat History Pane (when focused):\n  \u{2191}/\u{2193}             Scroll 1 line\n  PageUp/PageDown Scroll 5 lines\n\nLogs Pane (when focused):\n  \u{2191}/\u{2193}             Scroll 1 line\n  PageUp/PageDown Scroll 5 lines\n\nTool Confirmation:\n  Y/Enter         Confirm tool execution\n  N/Esc           Cancel tool execution\n\nPANES\n\u{2500}\u{2500}\u{2500}\u{2500}\u{2500}\u{2500}\u{2500}\u{2500}\u{2500}\u{2500}\u{2500}\u{2500}\u{2500}\u{2500}\u{2500}\u{2500}\u{2500}\u{2500}\u{2500}\u{2500}\u{2500}\u{2500}\u{2500}\u{2500}\u{2500}\u{2500}\u{2500}\u{2500}\u{2500}\u{2500}\u{2500}\u{2500}\u{2500}\u{2500}\u{2500}\u{2500}\u{2500}\u{2500}\u{2500}\u{2500}\u{2500}\u{2500}\u{2500}\u{2500}\u{2500}\u{2500}\u{2500}\u{2500}\u{2500}\u{2500}\u{2500}\u{2500}\u{2500}\u{2500}\u{2500}\u{2500}\u{2500}\u{2500}\u{2500}\n\nChat History [N]  - Conversation with AI (N = message count)\n                  - Shows user messages and AI responses\n                  - Markdown rendered for AI responses\n\nInput \u{2502} model \u{2502} \u{1f50c}N - Text input for messages\n                  - Model name shown in title\n                  - \u{1f50c}N shows N connected MCP servers\n\nLogs              - Real-time application logs\n                  - Color-coded by log level:\n                    \u{2717} Red = Errors\n                    \u{26a0} Yellow = Warnings\n                    \u{2713} Green = Info/Success\n                    \u{22ef} Cyan = Debug\n                    \u{2022} Gray = Other\n\nStatus            - Current application status\n                  - Animated spinner when processing\n                  - CPU sparkline during LLM requests\n\nCONFIGURATION\n\u{2500}\u{2500}\u{2500}\u{2500}\u{2500}\u{2500}\u{2500}\u{2500}\u{2500}\u{2500}\u{2500}\u{2500}\u{2500}\u{2500}\u{2500}\u{2500}\u{2500}\u{2500}\u{2500}\u{2500}\u{2500}\u{2500}\u{2500}\u{2500}\u{2500}\u{2500}\u{2500}\u{2500}\u{2500}\u{2500}\u{2500}\u{2500}\u{2500}\u{2500}\u{2500}\u{2500}\u{2500}\u{2500}\u{2500}\u{2500}\u{2500}\u{2500}\u{2500}\u{2500}\u{2500}\u{2500}\u{2500}\u{2500}\u{2500}\u{2500}\u{2500}\u{2500}\u{2500}\u{2500}\u{2500}\u{2500}\u{2500}\u{2500}\u{2500}\n\nConfig file: ".to_owned();
    s.append(config_path);
    s.append(
        "\n\nExample configuration:\n  model = \"qwen2.5-coder:3b\"\n  host = \"http://localhost:11434\"\n  yolo = false\n\n  [[mcp_servers]]\n  name = \"filesystem\"\n  url = \"http://localhost:3000\"\n  enabled = true\n\nLOGS\n\u{2500}\u{2500}\u{2500}\u{2500}\u{2500}\u{2500}\u{2500}\u{2500}\u{2500}\u{2500}\u{2500}\u{2500}\u{2500}\u{2500}\u{2500}\u{2500}\u{2500}\u{2500}\u{2500}\u{2500}\u{2500}\u{2500}\u{2500}\u{2500}\u{2500}\u{2500}\u{2500}\u{2500}\u{2500}\u{2500}\u{2500}\u{2500}\u{2500}\u{2500}\u{2500}\u{2500}\u{2500}\u{2500}\u{2500}\u{2500}\u{2500}\u{2500}\u{2500}\u{2500}\u{2500}\u{2500}\u{2500}\u{2500}\u{2500}\u{2500}\u{2500}\u{2500}\u{2500}\u{2500}\u{2500}\u{2500}\u{2500}\u{2500}\u{2500}\n\nApplication logs: ~/.local/state/pcli2-rig/pcli2-rig.log\n\nPress Esc, Enter, or 'q' to close this help.",
    );
    s
}

/// One step of the display word wrap: place `w`, breaking the line first
/// when it would overflow `max`.
pub open spec fn wrap_step(current: Seq<char>, result: Seq<char>, w: Seq<char>, max: int) -> (
    Seq<char>,
    Seq<char>,
) {
    let broken = current.len() + w.len() + 1 > max;
    let result2 = if broken {
        result + current + "\n"@
    } else {
        result
    };
    let current2 = if broken {
        Seq::<char>::empty()
    } else {
        current
    };
    let current3 = if current2.len() > 0 {
        current2 + " "@ + w
    } else {
        current2 + w
    };
    (current3, result2)
}

/// The display word wrap over a word list, carrying the line being built and
/// the lines already emitted.
pub open spec fn wrap_words(words: Seq<Seq<char>>, max: int, current: Seq<char>, result: Seq<char>) -> Seq<char>
    decreases words.len(),
{
    if words.len() == 0 {
        if current.len() > 0 {
            result + current
        } else {
            result
        }
    } else {
        let step = wrap_step(current, result, words[0], max);
        wrap_words(words.drop_first(), max, step.0, step.1)
    }
}

/// `content` re-flowed into lines of at most `max_width` characters, long
/// words excepted.
pub open spec fn wrapped_content(content: Seq<char>, max_width: int) -> Seq<char> {
    wrap_words(words_of(content), max_width, Seq::empty(), Seq::empty())
}

/// Re-flow a message's text into lines of roughly `max_width` characters for
/// display.
pub fn format_msg_content(content: &str, max_width: usize) -> (r: String)
    ensures
        r@ == wrapped_content(content@, max_width as int),
{
    let words = split_words(content);
    let n = words.len();
    let mut current = String::new();
    let mut result = String::new();
    let mut i: usize = 0;
    proof {
        assert(words.deep_view().skip(0) =~= words.deep_view());
    }
    while i < n
        invariant
            0 <= i <= n,
            n == words@.len(),
            words.deep_view() == words_of(content@),
            wrap_words(words.deep_view().skip(i as int), max_width as int, current@, result@)
                == wrapped_content(content@, max_width as int),
        decreases n - i,
    {
        let w = &words[i];
        let ghost step = wrap_step(current@, result@, w@, max_width as int);
        let wlen = w.as_str().unicode_len();
        let clen = current.as_str().unicode_len();
        if (clen as u128) + (wlen as u128) + 1 > (max_width as u128) {
            result.append(current.as_str());
            result.append("\n");
            current = String::new();
        }
        if current.as_str().unicode_len() > 0 {
            current.append(" ");
            current.append(w.as_str());
        } else {
            current.append(w.as_str());
        }
        proof {
            assert(current@ == step.0 && result@ == step.1);
            assert(words.deep_view().skip(i as int).drop_first() =~= words.deep_view().skip(
                i + 1,
            ));
            assert(words.deep_view().skip(i as int)[0] == words@[i as int]@);
        }
        i = i + 1;
    }
    if current.as_str().unicode_len() > 0 {
        result.append(current.as_str());
    }
    proof {
        assert(words.deep_view().skip(n as int) =~= Seq::<Seq<char>>::empty());
    }
    result
}

} // verus!
