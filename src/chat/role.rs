//! Roles of message authors.
use crate::text::owned;
use vstd::prelude::*;

verus! {

/// The role of the author of a message.
#[derive(Debug, Clone, Copy, PartialEq, Eq, Structural, Hash)]
pub enum Role {
    /// `system`
    System,
    /// `user`
    User,
    /// `assistant`
    Assistant,
    /// `tool`
    Tool,
}

impl Role {
    /// The text that stands for this value on the wire.
    pub open spec fn text(self) -> Seq<char> {
        match self {
            Role::System => "system"@,
            Role::User => "user"@,
            Role::Assistant => "assistant"@,
            Role::Tool => "tool"@,
        }
    }

    /// The text that stands for this value on the wire.
    pub fn to_string(&self) -> (r: String)
        ensures
            r@ == self.text(),
    {
        match self {
            Role::System => owned("system"),
            Role::User => owned("user"),
            Role::Assistant => owned("assistant"),
            Role::Tool => owned("tool"),
        }
    }
}

impl Default for Role {
    fn default() -> (r: Self)
        ensures
            r == Role::User,
    {
        Role::User
    }
}

} // verus!
