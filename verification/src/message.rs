//! Role-tagged conversation messages.

use vstd::prelude::*;

verus! {

/// The speaker of a conversation message.
#[derive(Clone, Copy, Debug, PartialEq, Eq, Structural)]
pub enum Role {
    System,
    User,
    Assistant,
    Tool,
}

/// One immutable entry of the conversation log.
#[derive(Clone, Debug)]
pub struct Message {
    pub role: Role,
    pub content: String,
}

impl Message {
    /// Build a message; the constructor pins both fields.
    pub fn new(role: Role, content: String) -> (m: Message)
        ensures
            m.role == role,
            m.content == content,
    {
        Message { role, content }
    }
}

} // verus!
