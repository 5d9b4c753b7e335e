//! System messages.
use crate::chat::role::Role;
use crate::prompt::Prompt;
use crate::text::owned;
use vstd::prelude::*;

verus! {

/// A message that sets the behaviour of the model. Its role is always
/// `system`.
#[derive(Debug, Clone, PartialEq, Eq)]
pub struct SystemMessage {
    content: String,
    role: Role,
    name: Option<String>,
}

impl SystemMessage {
    /// The text of the message.
    pub closed spec fn content_text(&self) -> Seq<char> {
        self.content@
    }

    /// The role of the author.
    pub closed spec fn author(&self) -> Role {
        self.role
    }

    /// The name of the participant, if given.
    pub closed spec fn participant(&self) -> Option<String> {
        self.name
    }

    /// A system message with the given text and participant name.
    pub fn new(content: &str, name: Option<String>) -> (r: Self)
        ensures
            r.content_text() == content@,
            r.author() == Role::System,
            r.participant() == name,
    {
        SystemMessage { content: owned(content), role: Role::System, name }
    }

    /// A system message whose text is the prompt's.
    pub fn from_prompt(prompt: Prompt, name: Option<String>) -> (r: Self)
        ensures
            r.content_text() == prompt@,
            r.author() == Role::System,
            r.participant() == name,
    {
        SystemMessage { content: prompt.format(), role: Role::System, name }
    }

    /// The text of the message.
    pub fn content(&self) -> (r: &str)
        ensures
            r@ == self.content_text(),
    {
        self.content.as_str()
    }

    /// The role of the author.
    pub fn role(&self) -> (r: Role)
        ensures
            r == self.author(),
    {
        self.role
    }

    /// The name of the participant, if given.
    pub fn name(&self) -> (r: &Option<String>)
        ensures
            *r == self.participant(),
    {
        &self.name
    }
}

impl Default for SystemMessage {
    fn default() -> (r: Self)
        ensures
            r.content_text() == Seq::<char>::empty(),
            r.author() == Role::System,
            r.participant() is None,
    {
        SystemMessage { content: String::new(), role: Role::System, name: None }
    }
}

} // verus!
