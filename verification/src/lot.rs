//! What a list of chats shows of a message.
use vstd::prelude::*;

use crate::state::MessageState;

verus! {

/// What the first text of a [`Lot`] is.
#[derive(Debug, Clone, Copy, PartialEq, Eq, Structural)]
pub enum Meaning {
    /// There is none.
    Nothing,
    /// The word for a draft.
    Text1Draft,
    /// The name of the sender.
    Text1Username,
    /// The word for the user.
    Text1Self,
}

/// The state of the message that a [`Lot`] sums up.
#[derive(Debug, Clone, Copy, PartialEq, Eq, Structural)]
pub enum LotState {
    /// See [`MessageState::Undefined`].
    Undefined,
    /// See [`MessageState::InFresh`].
    MsgInFresh,
    /// See [`MessageState::InNoticed`].
    MsgInNoticed,
    /// See [`MessageState::InSeen`].
    MsgInSeen,
    /// See [`MessageState::OutPreparing`].
    MsgOutPreparing,
    /// See [`MessageState::OutDraft`].
    MsgOutDraft,
    /// See [`MessageState::OutPending`].
    MsgOutPending,
    /// See [`MessageState::OutFailed`].
    MsgOutFailed,
    /// See [`MessageState::OutDelivered`].
    MsgOutDelivered,
    /// See [`MessageState::OutMdnRcvd`].
    MsgOutMdnRcvd,
}

impl LotState {
    /// The state that stands for the state of a message.
    pub open spec fn of_state(s: MessageState) -> LotState {
        match s {
            MessageState::Undefined => LotState::Undefined,
            MessageState::InFresh => LotState::MsgInFresh,
            MessageState::InNoticed => LotState::MsgInNoticed,
            MessageState::InSeen => LotState::MsgInSeen,
            MessageState::OutPreparing => LotState::MsgOutPreparing,
            MessageState::OutDraft => LotState::MsgOutDraft,
            MessageState::OutPending => LotState::MsgOutPending,
            MessageState::OutFailed => LotState::MsgOutFailed,
            MessageState::OutDelivered => LotState::MsgOutDelivered,
            MessageState::OutMdnRcvd => LotState::MsgOutMdnRcvd,
        }
    }
}

impl From<MessageState> for LotState {
    fn from(s: MessageState) -> (r: Self) {
        match s {
            MessageState::Undefined => LotState::Undefined,
            MessageState::InFresh => LotState::MsgInFresh,
            MessageState::InNoticed => LotState::MsgInNoticed,
            MessageState::InSeen => LotState::MsgInSeen,
            MessageState::OutPreparing => LotState::MsgOutPreparing,
            MessageState::OutDraft => LotState::MsgOutDraft,
            MessageState::OutPending => LotState::MsgOutPending,
            MessageState::OutFailed => LotState::MsgOutFailed,
            MessageState::OutDelivered => LotState::MsgOutDelivered,
            MessageState::OutMdnRcvd => LotState::MsgOutMdnRcvd,
        }
    }
}

impl vstd::std_specs::convert::FromSpecImpl<MessageState> for LotState {
    open spec fn obeys_from_spec() -> bool {
        true
    }

    open spec fn from_spec(s: MessageState) -> Self {
        LotState::of_state(s)
    }
}

/// Two states of messages are shown as one only if they are one.
pub proof fn lot_state_tells_states_apart(a: MessageState, b: MessageState)
    ensures
        LotState::of_state(a) == LotState::of_state(b) <==> a == b,
{
}

/// A summary: a first text, what it means, a second text, a time and a state.
#[derive(Debug, Clone)]
pub struct Lot {
    /// Stands in front of the second text.
    pub text1: Option<String>,
    /// What the first text is.
    pub text1_meaning: Meaning,
    /// The summary itself.
    pub text2: Option<String>,
    /// The time that is shown.
    pub timestamp: i64,
    /// The state that is shown.
    pub state: LotState,
}

impl Lot {
    /// Whether the summary says nothing.
    pub open spec fn is_blank(self) -> bool {
        &&& self.text1 is None
        &&& self.text1_meaning == Meaning::Nothing
        &&& self.text2 is None
        &&& self.timestamp == 0
        &&& self.state == LotState::Undefined
    }

    /// A summary that says nothing.
    pub fn new() -> (r: Lot)
        ensures
            r.is_blank(),
    {
        Lot {
            text1: None,
            text1_meaning: Meaning::Nothing,
            text2: None,
            timestamp: 0,
            state: LotState::Undefined,
        }
    }
}

} // verus!
