//! What messages need to know of chats and contacts.
use vstd::prelude::*;

use crate::constants::Chattype;

verus! {

/// A chat.
#[derive(Debug, Clone, Copy, PartialEq, Eq, Structural)]
pub struct Chat {
    /// The identifier of the chat.
    pub id: u32,
    /// The kind of the chat.
    pub typ: Chattype,
    /// Whether it is the chat of the user with themselves.
    pub self_talk: bool,
}

impl Chat {
    /// Whether the chat is a group.
    pub open spec fn group(self) -> bool {
        self.typ == Chattype::Group || self.typ == Chattype::VerifiedGroup
    }

    /// Whether the chat is a group.
    pub fn is_group(&self) -> (r: bool)
        ensures
            r == self.group(),
    {
        self.typ == Chattype::Group || self.typ == Chattype::VerifiedGroup
    }

    /// Whether it is the chat of the user with themselves.
    pub fn is_self_talk(&self) -> (r: bool)
        ensures
            r == self.self_talk,
    {
        self.self_talk
    }
}

/// How a contact is called.
#[derive(Debug, Clone)]
pub struct Contact {
    /// The name, or the address where there is no name.
    pub display_name: String,
    /// The first name, or the address where there is no name.
    pub first_name: String,
    /// The name with the address.
    pub name_n_addr: String,
}

} // verus!
