//! The conversation content model shared with the language-model layer.

use vstd::prelude::*;

verus! {

/// A JSON value carried through unchanged (tool-call arguments).
#[verifier::external_type_specification]
#[verifier::external_body]
pub struct ExJsonValue(serde_json::Value);

#[derive(PartialEq, Eq, Structural, Clone, Copy, Debug)]
pub enum Role {
    User,
    Assistant,
    System,
}

impl Role {
    /// The lower-case role name used by the UI.
    pub fn name(&self) -> (r: &'static str)
        ensures
            *self == Role::User ==> r@ == "user"@,
            *self == Role::Assistant ==> r@ == "assistant"@,
            *self == Role::System ==> r@ == "system"@,
    {
        match self {
            Role::User => "user",
            Role::Assistant => "assistant",
            Role::System => "system",
        }
    }
}

/// A call of a tool requested by the model.
pub struct ToolCall {
    pub id: String,
    pub name: String,
    pub arguments: serde_json::Value,
}

/// One piece of a tool's result.
pub enum ToolResultContent {
    Text { text: String },
    Image { data: String, mime_type: String },
    Audio { data: String, mime_type: String },
}

/// The result of a tool call.
pub struct ToolResult {
    pub tool_call_id: String,
    pub content: Vec<ToolResultContent>,
}

/// One block of a chat message.
pub enum ContentBlock {
    Text { text: String },
    /// Inline base64 image.
    Image { data: String, mime_type: String },
    /// Inline base64 audio.
    Audio { data: String, mime_type: String },
    ToolCall(ToolCall),
    ToolResult(ToolResult),
    DocumentRef { id: String },
}

pub struct ChatPayload {
    pub content: Vec<ContentBlock>,
}

pub struct ChatMessage {
    pub role: Role,
    pub payload: ChatPayload,
}

/// Stored message content after references to stored assets and documents
/// have been resolved.
pub enum ResolvedContent {
    Text { text: String },
    Asset { blob_hash: String, mime_type: String },
    Document { document_id: String },
    ToolCall(ToolCall),
    ToolResult(ToolResult),
}

pub struct ResolvedMessage {
    pub role: Role,
    pub content: Vec<ResolvedContent>,
    pub turn_id: String,
}

/// The characters of an optional string.
pub open spec fn opt_view(o: Option<String>) -> Option<Seq<char>> {
    match o {
        Some(s) => Some(s@),
        None => None,
    }
}

/// A copy of an optional string.
pub fn clone_opt_string(o: &Option<String>) -> (r: Option<String>)
    ensures
        r == *o,
{
    match o {
        Some(s) => Some(s.clone()),
        None => None,
    }
}

} // verus!
