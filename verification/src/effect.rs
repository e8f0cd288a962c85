//! What the library asks to be done besides answering.
use vstd::prelude::*;

use crate::msgid::MsgId;
use crate::sql::Statement;

verus! {

/// What a job does.
#[derive(Debug, Clone, Copy, PartialEq, Eq, Structural)]
pub enum Action {
    /// Deletes a message on the server.
    DeleteMsgOnImap,
    /// Marks a message as seen on the server.
    MarkseenMsgOnImap,
    /// Removes what is no longer needed.
    Housekeeping,
    /// Removes messages from the server.
    EmptyServer,
}

/// Work to be done later, without further parameters.
#[derive(Debug, Clone, Copy, PartialEq, Eq, Structural)]
pub struct Job {
    /// What is to be done.
    pub action: Action,
    /// What it is to be done to.
    pub foreign_id: i32,
    /// How long to wait.
    pub delay_seconds: i64,
}

/// Something that the user interface is told.
#[derive(Debug, Clone, Copy, PartialEq, Eq, Structural)]
pub enum Event {
    /// Messages changed; a chat or message of zero stands for any number of them.
    MsgsChanged {
        /// The chat.
        chat_id: u32,
        /// The message.
        msg_id: MsgId,
    },
    /// A message could not be sent.
    MsgFailed {
        /// The chat.
        chat_id: u32,
        /// The message.
        msg_id: MsgId,
    },
}

/// Something to be done. Whether it succeeds does not matter to what follows it.
#[derive(Debug, Clone)]
pub enum Effect {
    /// Put a statement to the database.
    Execute(Statement),
    /// Add a job.
    AddJob(Job),
    /// Remove all jobs that would do this.
    KillJobs(Action),
    /// Tell the user interface.
    Emit(Event),
}

} // verus!
