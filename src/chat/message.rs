//! Messages of a chat, by the role of their author.
use crate::chat::role::Role;
use crate::chat::system_message::SystemMessage;
use crate::chat::tool::ToolType;
use crate::chat::tool_message::ToolMessage;
use crate::chat::user_message::{MessageContent, UserMessage};
use vstd::prelude::*;

verus! {

/// A message of a chat.
#[derive(Debug, Clone, PartialEq, Eq)]
pub enum Message {
    /// A system message.
    System(SystemMessage),
    /// A user message.
    User(UserMessage),
    /// An assistant message.
    Assistant(AssistantMessage),
    /// A tool message.
    Tool(ToolMessage),
}

impl Default for Message {
    fn default() -> (r: Self)
        ensures
            r matches Message::User(u) && u.role == Role::User && u.name is None && (
            u.content matches MessageContent::Text(t) && t@ == Seq::<char>::empty()),
    {
        Message::User(UserMessage::default())
    }
}

/// A message from the model.
#[derive(Debug, Clone, PartialEq, Eq)]
pub struct AssistantMessage {
    /// The contents of the message, if any.
    pub content: Option<String>,
    /// The role of the author, here `assistant`.
    pub role: Role,
    /// The name of the participant, if given.
    pub name: Option<String>,
    /// The tool calls that the model made, if any.
    pub tool_calls: Option<Vec<ToolCall>>,
}

impl Default for AssistantMessage {
    fn default() -> (r: Self)
        ensures
            r.content is None,
            r.role == Role::Assistant,
            r.name is None,
            r.tool_calls is None,
    {
        AssistantMessage { content: None, role: Role::Assistant, name: None, tool_calls: None }
    }
}

/// A tool call that the model made.
#[derive(Debug, Clone, PartialEq, Eq)]
pub struct ToolCall {
    /// The ID of the call.
    pub id: String,
    /// The type of the tool.
    pub _type: ToolType,
    /// The function called.
    pub function: CalledFunction,
}

/// A function that the model called.
#[derive(Debug, Clone, PartialEq, Eq)]
pub struct CalledFunction {
    /// The name of the function.
    pub name: String,
    /// The arguments, as JSON text.
    pub arguments: String,
}

impl From<SystemMessage> for Message {
    fn from(value: SystemMessage) -> (r: Self) {
        Message::System(value)
    }
}

impl vstd::std_specs::convert::FromSpecImpl<SystemMessage> for Message {
    open spec fn obeys_from_spec() -> bool {
        true
    }

    open spec fn from_spec(v: SystemMessage) -> Self {
        Message::System(v)
    }
}

impl From<UserMessage> for Message {
    fn from(value: UserMessage) -> (r: Self) {
        Message::User(value)
    }
}

impl vstd::std_specs::convert::FromSpecImpl<UserMessage> for Message {
    open spec fn obeys_from_spec() -> bool {
        true
    }

    open spec fn from_spec(v: UserMessage) -> Self {
        Message::User(v)
    }
}

impl From<AssistantMessage> for Message {
    fn from(value: AssistantMessage) -> (r: Self) {
        Message::Assistant(value)
    }
}

impl vstd::std_specs::convert::FromSpecImpl<AssistantMessage> for Message {
    open spec fn obeys_from_spec() -> bool {
        true
    }

    open spec fn from_spec(v: AssistantMessage) -> Self {
        Message::Assistant(v)
    }
}

impl From<ToolMessage> for Message {
    fn from(value: ToolMessage) -> (r: Self) {
        Message::Tool(value)
    }
}

impl vstd::std_specs::convert::FromSpecImpl<ToolMessage> for Message {
    open spec fn obeys_from_spec() -> bool {
        true
    }

    open spec fn from_spec(v: ToolMessage) -> Self {
        Message::Tool(v)
    }
}

} // verus!
