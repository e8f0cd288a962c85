//! The states that a message passes through.
use vstd::prelude::*;

verus! {

/// Where a message stands on its way.
#[derive(Debug, Clone, Copy, PartialEq, Eq, Structural)]
pub enum MessageState {
    Undefined,
    InFresh,
    InNoticed,
    InSeen,
    OutPreparing,
    OutDraft,
    OutPending,
    OutFailed,
    OutDelivered,
    OutMdnRcvd,
}

impl MessageState {
    /// The number under which the value is stored.
    pub open spec fn code(self) -> int {
        match self {
            MessageState::Undefined => 0,
            MessageState::InFresh => 10,
            MessageState::InNoticed => 13,
            MessageState::InSeen => 16,
            MessageState::OutPreparing => 18,
            MessageState::OutDraft => 19,
            MessageState::OutPending => 20,
            MessageState::OutFailed => 24,
            MessageState::OutDelivered => 26,
            MessageState::OutMdnRcvd => 28,
        }
    }

    /// The value stored under a number; numbers that stand for nothing give
    /// `Undefined`.
    pub open spec fn of_code(n: int) -> MessageState {
        if n == 10 {
            MessageState::InFresh
        } else if n == 13 {
            MessageState::InNoticed
        } else if n == 16 {
            MessageState::InSeen
        } else if n == 18 {
            MessageState::OutPreparing
        } else if n == 19 {
            MessageState::OutDraft
        } else if n == 20 {
            MessageState::OutPending
        } else if n == 24 {
            MessageState::OutFailed
        } else if n == 26 {
            MessageState::OutDelivered
        } else if n == 28 {
            MessageState::OutMdnRcvd
        } else {
            MessageState::Undefined
        }
    }

    /// The number under which the value is stored.
    pub fn to_i32(self) -> (r: i32)
        ensures
            r == self.code(),
    {
        match self {
            MessageState::Undefined => 0,
            MessageState::InFresh => 10,
            MessageState::InNoticed => 13,
            MessageState::InSeen => 16,
            MessageState::OutPreparing => 18,
            MessageState::OutDraft => 19,
            MessageState::OutPending => 20,
            MessageState::OutFailed => 24,
            MessageState::OutDelivered => 26,
            MessageState::OutMdnRcvd => 28,
        }
    }

    /// The value stored under a number, or the default for an unknown one.
    pub fn from_i64(n: i64) -> (r: MessageState)
        ensures
            r == MessageState::of_code(n as int),
    {
        match n {
            10 => MessageState::InFresh,
            13 => MessageState::InNoticed,
            16 => MessageState::InSeen,
            18 => MessageState::OutPreparing,
            19 => MessageState::OutDraft,
            20 => MessageState::OutPending,
            24 => MessageState::OutFailed,
            26 => MessageState::OutDelivered,
            28 => MessageState::OutMdnRcvd,
            _ => MessageState::Undefined,
        }
    }

    /// The name of the value.
    pub open spec fn name(self) -> Seq<char> {
        match self {
            MessageState::Undefined => "Undefined"@,
            MessageState::InFresh => "InFresh"@,
            MessageState::InNoticed => "InNoticed"@,
            MessageState::InSeen => "InSeen"@,
            MessageState::OutPreparing => "OutPreparing"@,
            MessageState::OutDraft => "OutDraft"@,
            MessageState::OutPending => "OutPending"@,
            MessageState::OutFailed => "OutFailed"@,
            MessageState::OutDelivered => "OutDelivered"@,
            MessageState::OutMdnRcvd => "OutMdnRcvd"@,
        }
    }

    /// The name of the value.
    pub fn to_string(&self) -> (r: String)
        ensures
            r@ == self.name(),
    {
        let name: &str = match self {
            MessageState::Undefined => "Undefined",
            MessageState::InFresh => "InFresh",
            MessageState::InNoticed => "InNoticed",
            MessageState::InSeen => "InSeen",
            MessageState::OutPreparing => "OutPreparing",
            MessageState::OutDraft => "OutDraft",
            MessageState::OutPending => "OutPending",
            MessageState::OutFailed => "OutFailed",
            MessageState::OutDelivered => "OutDelivered",
            MessageState::OutMdnRcvd => "OutMdnRcvd",
        };
        name.to_owned()
    }
}

impl Default for MessageState {
    fn default() -> (r: Self)
        ensures
            r == MessageState::Undefined,
    {
        MessageState::Undefined
    }
}

impl MessageState {
    /// Whether a message in this state may still turn out not to reach its recipients.
    pub open spec fn fallible(self) -> bool {
        self is OutPreparing || self is OutPending || self is OutDelivered
    }

    /// Whether a message in this state may still turn out not to reach its recipients.
    pub fn can_fail(self) -> (r: bool)
        ensures
            r == self.fallible(),
    {
        match self {
            MessageState::OutPreparing | MessageState::OutPending | MessageState::OutDelivered => {
                true
            },
            _ => false,
        }
    }
}

/// A stored state is read back as it was.
pub proof fn state_code_round_trip(s: MessageState)
    ensures
        MessageState::of_code(s.code()) == s,
{
}

/// The numbers that the states are stored under. Any other number stands for no state.
pub proof fn state_numbers(s: MessageState, n: int)
    ensures
        s.code() == (match s {
            MessageState::Undefined => 0int,
            MessageState::InFresh => 10,
            MessageState::InNoticed => 13,
            MessageState::InSeen => 16,
            MessageState::OutPreparing => 18,
            MessageState::OutDraft => 19,
            MessageState::OutPending => 20,
            MessageState::OutFailed => 24,
            MessageState::OutDelivered => 26,
            MessageState::OutMdnRcvd => 28,
        }),
        n == s.code() ==> MessageState::of_code(n) == s,
        MessageState::of_code(n) != MessageState::Undefined ==> MessageState::of_code(n).code() == n,
{
}

/// Just the messages that are being prepared (18), pending (20) or delivered (26) can fail.
pub proof fn fallible_states(n: int)
    ensures
        MessageState::of_code(n).fallible() <==> n == 18 || n == 20 || n == 26,
{
}

} // verus!
