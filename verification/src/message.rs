//! The conversation data model: messages, their roles, and the requests and
//! results that move between the session and its collaborators.

use vstd::prelude::*;

verus! {

/// Who authored a conversation message.
#[derive(Clone, Copy, Debug, PartialEq, Eq, Structural)]
pub enum MessageRole {
    User,
    Assistant,
    System,
    ToolResult,
}

/// One entry of the conversation, in insertion order.
#[derive(Clone, Debug, PartialEq)]
pub struct ChatMessage {
    pub role: MessageRole,
    pub content: String,
}

/// A tool invocation proposed by a completion result.
#[derive(Clone, Debug)]
pub struct ToolCallRequest {
    pub tool_name: String,
    pub arguments: String,
    pub call_id: String,
}

/// A proposed tool invocation awaiting explicit user approval.
#[derive(Clone, Debug)]
pub struct PendingToolCall {
    pub tool_name: String,
    pub arguments: String,
    pub call_id: String,
}

/// A message delivered to the session's control loop from a request task.
/// The error side carries the failure rendered as text.
#[derive(Debug)]
pub enum AppMessage {
    Response(Result<String, String>),
}

/// A name plus description of one tool offered by a connected tool server.
#[derive(Clone, Debug)]
pub struct ToolDef {
    pub name: String,
    pub description: String,
}

} // verus!
