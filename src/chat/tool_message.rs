//! Tool messages.
use crate::chat::role::Role;
use vstd::prelude::*;

verus! {

/// A message that answers a tool call.
#[derive(Debug, Clone, PartialEq, Eq)]
pub struct ToolMessage {
    /// The contents of the message.
    pub content: String,
    /// The role of the author, here `tool`.
    pub role: Role,
    /// The tool call that this message answers.
    pub tool_call_id: String,
}

impl ToolMessage {
    /// A tool message with the given contents, answering the given call.
    pub fn new(content: String, tool_call_id: String) -> (r: Self)
        ensures
            r.content == content,
            r.role == Role::Tool,
            r.tool_call_id == tool_call_id,
    {
        ToolMessage { content, role: Role::Tool, tool_call_id }
    }
}

impl Default for ToolMessage {
    fn default() -> (r: Self)
        ensures
            r.content@ == Seq::<char>::empty(),
            r.role == Role::Tool,
            r.tool_call_id@ == Seq::<char>::empty(),
    {
        ToolMessage { content: String::new(), role: Role::Tool, tool_call_id: String::new() }
    }
}

} // verus!
