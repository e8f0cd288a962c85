//! Receipts that tell that a message was read.
//!
//! A receipt is handled in steps. Each state asks for one thing, see [`MdnState::request`], and
//! [`MdnState::next`] takes the reply.
use vstd::prelude::*;

use crate::column;
use crate::column::read_isize;
use crate::constants::{Chattype, DC_MSG_ID_LAST_SPECIAL};
use crate::msgid::MsgId;
use crate::sql::{ColumnValue, Statement};
use crate::state::MessageState;

verus! {

/// The answer to [`Statement::FindSent`].
#[derive(Debug, Clone)]
pub struct SentRow {
    /// The identifier of the message.
    pub msg_id: ColumnValue,
    /// The chat that it is in.
    pub chat_id: ColumnValue,
    /// The kind of that chat.
    pub typ: ColumnValue,
    /// The state of the message.
    pub state: ColumnValue,
}

/// A message of the user that a receipt is for.
#[derive(Debug, Clone, Copy, PartialEq, Eq, Structural)]
pub struct SentMessage {
    /// The identifier of the message.
    pub msg_id: MsgId,
    /// The chat that it is in.
    pub chat_id: u32,
    /// The kind of that chat.
    pub chat_type: Chattype,
    /// The state of the message.
    pub state: MessageState,
}

impl SentRow {
    /// The message that the row holds, if it holds one.
    pub open spec fn sent_message(self) -> Option<SentMessage> {
        match (
            MsgId::of_column(self.msg_id),
            self.chat_id.as_number(),
            self.typ.as_chattype(),
            self.state.as_state(),
        ) {
            (Ok(msg_id), Ok(chat_id), Ok(chat_type), Ok(state)) => Some(
                SentMessage { msg_id, chat_id, chat_type, state },
            ),
            _ => None,
        }
    }

    /// Reads the message that the row holds.
    pub fn read(&self) -> (r: Option<SentMessage>)
        ensures
            r == self.sent_message(),
    {
        match (
            MsgId::column_result(&self.msg_id),
            self.chat_id.number(),
            self.typ.chattype(),
            self.state.state(),
        ) {
            (Ok(msg_id), Ok(chat_id), Ok(chat_type), Ok(state)) => Some(
                SentMessage { msg_id, chat_id, chat_type, state },
            ),
            _ => None,
        }
    }
}

/// Where the handling of a receipt stands.
#[derive(Debug, Clone)]
pub enum MdnState {
    /// The message that the receipt is for is looked for.
    Finding {
        /// The Message-ID that the receipt names.
        rfc724_mid: String,
        /// Who sent the receipt.
        from_id: u32,
        /// When it was sent.
        timestamp_sent: i64,
    },
    /// The message was found; whether the receipt is new is asked for.
    Checking {
        /// The message.
        sent: SentMessage,
        /// Who sent the receipt.
        from_id: u32,
        /// When it was sent.
        timestamp_sent: i64,
    },
    /// The receipt is new and is being stored.
    Adding {
        /// The message.
        sent: SentMessage,
        /// Who sent the receipt.
        from_id: u32,
        /// When it was sent.
        timestamp_sent: i64,
    },
    /// The receipts for a message to a group are counted.
    Counting {
        /// The message.
        sent: SentMessage,
    },
    /// The members of the group are counted.
    CountingMembers {
        /// The message.
        sent: SentMessage,
        /// The number of receipts.
        receipts: usize,
    },
    /// The message counts as read and is being marked.
    Marking {
        /// The message.
        sent: SentMessage,
    },
    /// Nothing is left to be done. Holds the chat and the message if the user interface is to be
    /// told.
    Done(Option<(u32, MsgId)>),
}

/// What a state asks for.
#[derive(Debug, Clone)]
pub enum MdnRequest {
    /// The first row that answers a statement.
    Find(Statement),
    /// Whether any row answers a statement.
    HasRow(Statement),
    /// That a statement is put to the database, whether it succeeds or not.
    Execute(Statement),
    /// The number that answers a statement.
    Count(Statement),
    /// The number of members of a chat.
    ChatContactCount(u32),
    /// Nothing more.
    Finished(Option<(u32, MsgId)>),
}

/// A reply to a request.
#[derive(Debug, Clone)]
pub enum MdnReply {
    /// To [`MdnRequest::Find`]: the row, if there is one.
    Found(Option<SentRow>),
    /// To [`MdnRequest::HasRow`]; no, if the database did not answer.
    HasRow(bool),
    /// To [`MdnRequest::Execute`].
    Executed,
    /// To [`MdnRequest::Count`]: the answer, if there is one.
    Counted(Option<ColumnValue>),
    /// To [`MdnRequest::ChatContactCount`].
    Members(usize),
}

/// The number of receipts from which on a message to a group counts as read by all.
///
/// ```text
/// Groupsize:  Min. MDNs
///
/// 1 S         n/a
/// 2 SR        1
/// 3 SRR       2
/// 4 SRRR      2
/// 5 SRRRR     3
/// 6 SRRRRR    3
///
/// (S=Sender, R=Recipient)
/// ```
pub open spec fn needed_receipts(members: nat) -> nat {
    (members + 1) / 2
}

/// An answer as a number of receipts: zero where it holds no number.
pub open spec fn receipt_count(count: Option<ColumnValue>) -> usize {
    match count {
        Some(value) => match column::answered_isize(Some(&value)) {
            Some(n) => n as usize,
            None => 0,
        },
        None => 0,
    }
}

impl MdnState {
    /// Whether a reply is of the kind that the state asks for.
    pub open spec fn expects(self, reply: MdnReply) -> bool {
        match self {
            MdnState::Finding { .. } => reply is Found,
            MdnState::Checking { .. } => reply is HasRow,
            MdnState::Adding { .. } => reply is Executed,
            MdnState::Counting { .. } => reply is Counted,
            MdnState::CountingMembers { .. } => reply is Members,
            MdnState::Marking { .. } => reply is Executed,
            MdnState::Done(_) => false,
        }
    }

    /// What follows once the receipt is stored: a message to one person is read by all, for one
    /// to a group the receipts have to be counted.
    pub open spec fn stored(sent: SentMessage) -> MdnState {
        if sent.chat_type == Chattype::Single {
            MdnState::Marking { sent }
        } else {
            MdnState::Counting { sent }
        }
    }

    /// The state that follows a reply: the same, if the reply is to something else.
    pub open spec fn step(self, reply: MdnReply) -> MdnState {
        match (self, reply) {
            (MdnState::Finding { rfc724_mid, from_id, timestamp_sent }, MdnReply::Found(row)) => {
                match row {
                    Some(row) => match row.sent_message() {
                        Some(sent) => if sent.state.fallible() {
                            MdnState::Checking { sent, from_id, timestamp_sent }
                        } else {
                            MdnState::Done(None)
                        },
                        None => MdnState::Done(None),
                    },
                    None => MdnState::Done(None),
                }
            },
            (MdnState::Checking { sent, from_id, timestamp_sent }, MdnReply::HasRow(known)) => {
                if known {
                    MdnState::stored(sent)
                } else {
                    MdnState::Adding { sent, from_id, timestamp_sent }
                }
            },
            (MdnState::Adding { sent, .. }, MdnReply::Executed) => MdnState::stored(sent),
            (MdnState::Counting { sent }, MdnReply::Counted(count)) => {
                MdnState::CountingMembers { sent, receipts: receipt_count(count) }
            },
            (MdnState::CountingMembers { sent, receipts }, MdnReply::Members(members)) => {
                if receipts >= needed_receipts(members as nat) {
                    MdnState::Marking { sent }
                } else {
                    MdnState::Done(None)
                }
            },
            (MdnState::Marking { sent }, MdnReply::Executed) => {
                MdnState::Done(Some((sent.chat_id, sent.msg_id)))
            },
            _ => self,
        }
    }

    /// What the state asks for.
    pub fn request(&self) -> (r: MdnRequest)
        ensures
            match *self {
                MdnState::Finding { rfc724_mid, .. } => r matches MdnRequest::Find(
                    Statement::FindSent(mid),
                ) && mid@ == rfc724_mid@,
                MdnState::Checking { sent, from_id, .. } => r == MdnRequest::HasRow(
                    Statement::HasReceipt { msg_id: sent.msg_id, contact_id: from_id },
                ),
                MdnState::Adding { sent, from_id, timestamp_sent } => r == MdnRequest::Execute(
                    Statement::AddReceipt {
                        msg_id: sent.msg_id,
                        contact_id: from_id,
                        timestamp_sent,
                    },
                ),
                MdnState::Counting { sent } => r == MdnRequest::Count(
                    Statement::CountReceipts(sent.msg_id),
                ),
                MdnState::CountingMembers { sent, .. } => r == MdnRequest::ChatContactCount(
                    sent.chat_id,
                ),
                MdnState::Marking { sent } => r == MdnRequest::Execute(
                    Statement::SetState { state: MessageState::OutMdnRcvd, msg_id: sent.msg_id },
                ),
                MdnState::Done(answer) => r == MdnRequest::Finished(answer),
            },
    {
        match self {
            MdnState::Finding { rfc724_mid, .. } => MdnRequest::Find(
                Statement::FindSent(rfc724_mid.clone()),
            ),
            MdnState::Checking { sent, from_id, .. } => MdnRequest::HasRow(
                Statement::HasReceipt { msg_id: sent.msg_id, contact_id: *from_id },
            ),
            MdnState::Adding { sent, from_id, timestamp_sent } => MdnRequest::Execute(
                Statement::AddReceipt {
                    msg_id: sent.msg_id,
                    contact_id: *from_id,
                    timestamp_sent: *timestamp_sent,
                },
            ),
            MdnState::Counting { sent } => MdnRequest::Count(
                Statement::CountReceipts(sent.msg_id),
            ),
            MdnState::CountingMembers { sent, .. } => MdnRequest::ChatContactCount(sent.chat_id),
            MdnState::Marking { sent } => MdnRequest::Execute(
                Statement::SetState { state: MessageState::OutMdnRcvd, msg_id: sent.msg_id },
            ),
            MdnState::Done(answer) => MdnRequest::Finished(*answer),
        }
    }

    fn after_storing(sent: SentMessage) -> (r: MdnState)
        ensures
            r == MdnState::stored(sent),
    {
        if sent.chat_type == Chattype::Single {
            // Normal chat? that's quite easy.
            MdnState::Marking { sent }
        } else {
            MdnState::Counting { sent }
        }
    }

    /// Takes the reply to what the state asked for. A reply to something else changes nothing.
    pub fn next(self, reply: MdnReply) -> (r: MdnState)
        ensures
            r == self.step(reply),
    {
        match (self, reply) {
            (MdnState::Finding { from_id, timestamp_sent, .. }, MdnReply::Found(row)) => {
                let sent: Option<SentMessage> = match row {
                    Some(row) => row.read(),
                    None => None,
                };
                match sent {
                    Some(sent) => if sent.state.can_fail() {
                        MdnState::Checking { sent, from_id, timestamp_sent }
                    } else {
                        MdnState::Done(None)
                    },
                    None => MdnState::Done(None),
                }
            },
            (MdnState::Checking { sent, from_id, timestamp_sent }, MdnReply::HasRow(known)) => {
                if known {
                    MdnState::after_storing(sent)
                } else {
                    MdnState::Adding { sent, from_id, timestamp_sent }
                }
            },
            (MdnState::Adding { sent, .. }, MdnReply::Executed) => MdnState::after_storing(sent),
            (MdnState::Counting { sent }, MdnReply::Counted(count)) => {
                let receipts: usize = match read_isize(count.as_ref()) {
                    Some(n) => n as usize,
                    None => 0,
                };
                MdnState::CountingMembers { sent, receipts }
            },
            (MdnState::CountingMembers { sent, receipts }, MdnReply::Members(members)) => {
                // for rounding, SELF is already included!
                let needed: usize = members / 2 + members % 2;
                if receipts >= needed {
                    MdnState::Marking { sent }
                } else {
                    // wait for more receipts
                    MdnState::Done(None)
                }
            },
            (MdnState::Marking { sent }, MdnReply::Executed) => {
                MdnState::Done(Some((sent.chat_id, sent.msg_id)))
            },
            (state, _) => state,
        }
    }
}

/// Whether a receipt is looked at: it is from a real contact and names a message.
pub open spec fn acceptable_receipt(from_id: u32, rfc724_mid: Seq<char>) -> bool {
    from_id > DC_MSG_ID_LAST_SPECIAL && rfc724_mid.len() > 0
}

/// Begins to handle a receipt. Once the state is [`MdnState::Done`], it holds the chat and the
/// message if an event should be sent.
pub fn mdn_from_ext(from_id: u32, rfc724_mid: &str, timestamp_sent: i64) -> (r: MdnState)
    ensures
        if acceptable_receipt(from_id, rfc724_mid@) {
            r matches MdnState::Finding { rfc724_mid: mid, from_id: from, timestamp_sent: at }
                && mid@ == rfc724_mid@ && from == from_id && at == timestamp_sent
        } else {
            r == MdnState::Done(None)
        },
{
    if from_id <= DC_MSG_ID_LAST_SPECIAL || rfc724_mid.is_empty() {
        return MdnState::Done(None);
    }
    MdnState::Finding { rfc724_mid: rfc724_mid.to_owned(), from_id, timestamp_sent }
}

/// All that may be replied while a receipt is handled.
pub ghost struct MdnAnswers {
    /// The row of the message.
    pub row: Option<SentRow>,
    /// Whether the receipt is known.
    pub known: bool,
    /// The number of receipts.
    pub count: Option<ColumnValue>,
    /// The number of members.
    pub members: usize,
}

impl MdnAnswers {
    /// The reply to what a state asks for.
    pub open spec fn reply(self, state: MdnState) -> MdnReply {
        match state {
            MdnState::Finding { .. } => MdnReply::Found(self.row),
            MdnState::Checking { .. } => MdnReply::HasRow(self.known),
            MdnState::Counting { .. } => MdnReply::Counted(self.count),
            MdnState::CountingMembers { .. } => MdnReply::Members(self.members),
            _ => MdnReply::Executed,
        }
    }

    /// The states that the handling of a receipt passes through, from `state` on, in at most
    /// `steps` steps.
    pub open spec fn states(self, state: MdnState, steps: nat) -> Seq<MdnState>
        decreases steps,
    {
        if steps == 0 || state is Done {
            seq![state]
        } else {
            seq![state] + self.states(state.step(self.reply(state)), (steps - 1) as nat)
        }
    }

    /// The message that the receipt is for, if it may still be marked as read.
    pub open spec fn markable(self) -> Option<SentMessage> {
        match self.row {
            Some(row) => match row.sent_message() {
                Some(sent) => if sent.state.fallible() {
                    Some(sent)
                } else {
                    None
                },
                None => None,
            },
            None => None,
        }
    }

    /// The message, if it counts as read by all.
    pub open spec fn read_by_all(self) -> Option<SentMessage> {
        match self.markable() {
            Some(sent) => if sent.chat_type == Chattype::Single || receipt_count(self.count)
                >= needed_receipts(self.members as nat) {
                Some(sent)
            } else {
                None
            },
            None => None,
        }
    }
}

/// A receipt that is looked at is handled in at most six steps, each of which asks for what the
/// next one needs. The user interface is told just if the message was found, may still be marked,
/// and counts as read by all. Just then the message is marked as read, and just if the message may
/// be marked and the receipt is new it is stored.
pub proof fn receipt_outcome(start: MdnState, answers: MdnAnswers)
    requires
        start is Finding,
    ensures
        ({
            let states = answers.states(start, 6);
            &&& states.last() == MdnState::Done(
                match answers.read_by_all() {
                    Some(sent) => Some((sent.chat_id, sent.msg_id)),
                    None => None,
                },
            )
            &&& forall|i: int|
                0 <= i < states.len() - 1 ==> (#[trigger] states[i]).expects(
                    answers.reply(states[i]),
                )
            &&& (exists|i: int| 0 <= i < states.len() && (#[trigger] states[i]) is Marking)
                <==> answers.read_by_all() is Some
            &&& (exists|i: int| 0 <= i < states.len() && (#[trigger] states[i]) is Adding)
                <==> answers.markable() is Some && !answers.known
        }),
{
    reveal_with_fuel(MdnAnswers::states, 7);
    let s0 = start;
    let s1 = s0.step(answers.reply(s0));
    let s2 = s1.step(answers.reply(s1));
    let s3 = s2.step(answers.reply(s2));
    let s4 = s3.step(answers.reply(s3));
    let s5 = s4.step(answers.reply(s4));
    let s6 = s5.step(answers.reply(s5));
    let states = answers.states(start, 6);
    if s1 is Done {
        assert(states =~= seq![s0, s1]);
    } else if s2 is Marking {
        assert(states =~= seq![s0, s1, s2, s3]);
        assert(states[2] is Marking);
    } else if s2 is Counting {
        if s4 is Done {
            assert(states =~= seq![s0, s1, s2, s3, s4]);
        } else {
            assert(states =~= seq![s0, s1, s2, s3, s4, s5]);
            assert(states[4] is Marking);
        }
    } else {
        assert(s2 is Adding);
        if s3 is Marking {
            assert(states =~= seq![s0, s1, s2, s3, s4]);
            assert(states[3] is Marking);
        } else if s5 is Done {
            assert(states =~= seq![s0, s1, s2, s3, s4, s5]);
        } else {
            assert(states =~= seq![s0, s1, s2, s3, s4, s5, s6]);
            assert(states[5] is Marking);
        }
        assert(states[2] is Adding);
    }
}

/// The message that a receipt is for, as handling the receipt leaves it: marked as read if it counts
/// as read by all, and as it was otherwise.
pub open spec fn left_behind(first: MdnAnswers) -> Option<SentMessage> {
    match first.row {
        Some(row) => match row.sent_message() {
            Some(sent) => if first.read_by_all() is Some {
                Some(SentMessage { state: MessageState::OutMdnRcvd, ..sent })
            } else {
                Some(sent)
            },
            None => None,
        },
        None => None,
    }
}

/// A second receipt from the same contact stores nothing, marks nothing and reports nothing: once
/// the first one is handled, the receipt is known, if the message could be marked at all, and the
/// message is as the first one left it.
/// Between the two no other receipt came, and nobody joined or left the chat.
pub proof fn second_receipt_changes_nothing(
    start: MdnState,
    first: MdnAnswers,
    second: MdnAnswers,
)
    requires
        start is Finding,
        (match second.row {
            Some(row) => row.sent_message(),
            None => None,
        }) == left_behind(first),
        first.markable() is Some ==> second.known,
        second.count == first.count,
        second.members == first.members,
    ensures
        ({
            let states = second.states(start, 6);
            &&& states.last() == MdnState::Done(None)
            &&& forall|i: int|
                0 <= i < states.len() ==> !((#[trigger] states[i]) is Adding)
                    && !(states[i] is Marking)
        }),
{
    receipt_outcome(start, second);
    assert(second.read_by_all() is None);
    assert(second.markable() is None || second.known);
}

/// A message to a group counts as read by all once half of the group, its sender included, has
/// read it, and not before.
pub proof fn needed_receipts_are_half(members: nat)
    ensures
        2 * needed_receipts(members) >= members,
        members > 0 ==> 2 * (needed_receipts(members) - 1) < members,
{
}

/// Marking a message as read moves it forward: only messages that are on their way are marked, and
/// a message that is marked is not marked again.
pub proof fn marking_moves_forward(sent: SentMessage)
    requires
        sent.state.fallible(),
    ensures
        MessageState::OutMdnRcvd.code() > sent.state.code(),
        !MessageState::OutMdnRcvd.fallible(),
{
}

/// A message to one person (chat type 100) is marked as read by the first receipt, without
/// counting. In any other chat, a group (120) or a verified group (130) among them, it is marked
/// just if twice the number of receipts reaches the number of members. The chat and the message are
/// reported just if it is marked, and the receipt is stored just if it was not known. Only a message
/// that is being prepared (18), pending (20) or delivered (26) is touched at all.
pub proof fn groups_wait_for_half_of_their_members(
    start: MdnState,
    answers: MdnAnswers,
    id: u32,
    chat_id: u32,
    chat_type: i64,
    state: i64,
    receipts: isize,
)
    requires
        start is Finding,
        answers.row == Some(
            SentRow {
                msg_id: ColumnValue::Integer(id as i64),
                chat_id: ColumnValue::Integer(chat_id as i64),
                typ: ColumnValue::Integer(chat_type),
                state: ColumnValue::Integer(state),
            },
        ),
        answers.count == Some(ColumnValue::Integer(receipts as i64)),
        receipts >= 0,
    ensures
        ({
            let states = answers.states(start, 6);
            let touched = state == 18 || state == 20 || state == 26;
            let read = touched && (chat_type == 100 || 2 * receipts >= answers.members);
            &&& states.last() == MdnState::Done(
                if read {
                    Some((chat_id, MsgId(id)))
                } else {
                    None
                },
            )
            &&& (exists|i: int| 0 <= i < states.len() && (#[trigger] states[i]) is Marking) <==> read
            &&& (exists|i: int| 0 <= i < states.len() && (#[trigger] states[i]) is Adding)
                <==> touched && !answers.known
            &&& (exists|i: int| 0 <= i < states.len() && (#[trigger] states[i]) is Counting)
                <==> touched && chat_type != 100
            &&& forall|i: int| #![trigger states[i]]
                0 <= i < states.len() ==> match states[i] {
                    MdnState::Finding { .. } => states[i] == start,
                    MdnState::Checking { sent, from_id, timestamp_sent } => sent.msg_id == MsgId(id)
                        && from_id == start->Finding_from_id && timestamp_sent
                        == start->Finding_timestamp_sent,
                    MdnState::Adding { sent, from_id, timestamp_sent } => sent.msg_id == MsgId(id)
                        && from_id == start->Finding_from_id && timestamp_sent
                        == start->Finding_timestamp_sent,
                    MdnState::Counting { sent } => sent.msg_id == MsgId(id),
                    MdnState::CountingMembers { sent, receipts: counted } => sent.chat_id == chat_id
                        && counted == receipts,
                    MdnState::Marking { sent } => sent.msg_id == MsgId(id),
                    MdnState::Done(_) => i == states.len() - 1,
                }
        }),
{
    receipt_outcome(start, answers);
    reveal_with_fuel(MdnAnswers::states, 7);
    let s0 = start;
    let s1 = s0.step(answers.reply(s0));
    let s2 = s1.step(answers.reply(s1));
    let s3 = s2.step(answers.reply(s2));
    let s4 = s3.step(answers.reply(s3));
    let s5 = s4.step(answers.reply(s4));
    let s6 = s5.step(answers.reply(s5));
    let states = answers.states(start, 6);
    if s1 is Done {
        assert(states =~= seq![s0, s1]);
    } else if s2 is Marking {
        assert(states =~= seq![s0, s1, s2, s3]);
    } else if s2 is Counting {
        assert(states[2] is Counting);
        if s4 is Done {
            assert(states =~= seq![s0, s1, s2, s3, s4]);
        } else {
            assert(states =~= seq![s0, s1, s2, s3, s4, s5]);
        }
    } else if s3 is Marking {
        assert(states =~= seq![s0, s1, s2, s3, s4]);
    } else {
        assert(states[3] is Counting);
        if s5 is Done {
            assert(states =~= seq![s0, s1, s2, s3, s4, s5]);
        } else {
            assert(states =~= seq![s0, s1, s2, s3, s4, s5, s6]);
        }
    }
}

/// An answer that holds no number counts for no receipt: a message to a group is then marked only
/// if nobody is in it.
pub proof fn no_count_is_no_receipt(start: MdnState, answers: MdnAnswers, row: SentRow, chat_type: i64)
    requires
        start is Finding,
        answers.row == Some(row),
        row.typ == ColumnValue::Integer(chat_type),
        chat_type != 100,
        answers.count is None || !(answers.count->0 is Integer),
        answers.members > 0,
    ensures
        answers.states(start, 6).last() == MdnState::Done(None),
{
    receipt_outcome(start, answers);
}

/// A row that does not hold a whole message is passed over, and so is one that is not there.
pub proof fn broken_rows_are_passed_over(start: MdnState, answers: MdnAnswers)
    requires
        start is Finding,
        match answers.row {
            Some(row) => {
                ||| !(row.msg_id matches ColumnValue::Integer(n) && 0 <= n <= 4294967295)
                ||| !(row.chat_id matches ColumnValue::Integer(n) && 0 <= n <= 4294967295)
                ||| !(row.typ is Integer)
                ||| !(row.state is Integer)
            },
            None => true,
        },
    ensures
        answers.states(start, 6) == seq![start, MdnState::Done(None)],
{
    receipt_outcome(start, answers);
    reveal_with_fuel(MdnAnswers::states, 3);
}

/// Receipts of the contacts 0 to 9, and receipts that name no message, are not looked at; all others
/// are.
pub proof fn receipts_of_real_contacts_are_looked_at(from_id: u32, rfc724_mid: Seq<char>)
    ensures
        acceptable_receipt(from_id, rfc724_mid) <==> from_id >= 10 && rfc724_mid != Seq::<
            char,
        >::empty(),
{
    if rfc724_mid.len() == 0 {
        assert(rfc724_mid =~= Seq::<char>::empty());
    }
}

} // verus!
