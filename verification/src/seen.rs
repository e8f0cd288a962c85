//! Marking messages as seen.
use vstd::prelude::*;

use crate::constants::Blocked;
use crate::effect::{Action, Effect, Event, Job};
use crate::msgid::MsgId;
use crate::sql;
use crate::sql::{wrap, ColumnValue, Statement};
use crate::state::MessageState;

verus! {

/// What the database answered to [`Statement::SeenState`] for a message.
#[derive(Debug, Clone)]
pub enum SeenLookup {
    /// The message is in a real chat.
    Row {
        /// The state of the message.
        state: ColumnValue,
        /// Whether the chat is blocked.
        blocked: ColumnValue,
    },
    /// There is no such message in a real chat.
    NoRow,
    /// The database did not answer.
    Failed,
}

/// The state that a message gets by being seen, if it gets another. In a blocked chat a message is
/// noticed at most.
pub open spec fn seen_next(state: MessageState, blocked: Blocked) -> Option<MessageState> {
    if blocked == Blocked::Not {
        if state is InFresh || state is InNoticed {
            Some(MessageState::InSeen)
        } else {
            None
        }
    } else if state is InFresh {
        Some(MessageState::InNoticed)
    } else {
        None
    }
}

/// Whether a lookup failed. Reserved identifiers cannot be looked up.
pub open spec fn lookup_fails(id: MsgId, lookup: SeenLookup) -> bool {
    ||| id.special()
    ||| match lookup {
        SeenLookup::Row { state, blocked } => state.as_state() is Err || blocked.as_blocked() is Err,
        SeenLookup::NoRow => false,
        SeenLookup::Failed => true,
    }
}

/// What is to be done for a message that was seen in a state.
pub open spec fn state_effects(id: MsgId, state: MessageState, blocked: Blocked) -> Seq<Effect> {
    match seen_next(state, blocked) {
        Some(next) => {
            let update = Effect::Execute(Statement::SetState { state: next, msg_id: id });
            if next is InSeen {
                seq![
                    update,
                    Effect::AddJob(
                        Job {
                            action: Action::MarkseenMsgOnImap,
                            foreign_id: sql::wrapped(id.0) as i32,
                            delay_seconds: 0,
                        },
                    ),
                ]
            } else {
                seq![update]
            }
        },
        None => Seq::empty(),
    }
}

/// What is to be done for one message that was seen, and looked up.
pub open spec fn seen_effects_of(id: MsgId, lookup: SeenLookup) -> Seq<Effect> {
    match lookup {
        SeenLookup::Row { state, blocked } => state_effects(
            id,
            state.as_state()->Ok_0,
            blocked.as_blocked()->Ok_0,
        ),
        _ => Seq::empty(),
    }
}

/// What is to be done for all messages that were seen.
pub open spec fn seen_effects(lookups: Seq<(MsgId, SeenLookup)>) -> Seq<Effect>
    decreases lookups.len(),
{
    if lookups.len() == 0 {
        Seq::empty()
    } else {
        seen_effects(lookups.drop_last()) + seen_effects_of(lookups.last().0, lookups.last().1)
    }
}

/// Whether messages are marked at all: there are some, and none could not be looked up.
pub open spec fn marks_seen(lookups: Seq<(MsgId, SeenLookup)>) -> bool {
    lookups.len() > 0 && forall|i: int|
        0 <= i < lookups.len() ==> !lookup_fails((#[trigger] lookups[i]).0, lookups[i].1)
}

/// What the user interface is told when any number of messages changed.
pub open spec fn any_msgs_changed() -> Effect {
    Effect::Emit(Event::MsgsChanged { chat_id: 0, msg_id: MsgId(0) })
}

/// All that is to be done when messages were seen, with what the user interface is told.
pub open spec fn markseen_effects(lookups: Seq<(MsgId, SeenLookup)>) -> Seq<Effect> {
    if !marks_seen(lookups) || seen_effects(lookups).len() == 0 {
        Seq::empty()
    } else {
        seen_effects(lookups).push(any_msgs_changed())
    }
}

/// The statement that looks up a message that was seen.
pub fn markseen_query(id: MsgId) -> (r: Statement)
    ensures
        r == Statement::SeenState(id),
{
    Statement::SeenState(id)
}

fn push_seen(
    effects: &mut Vec<Effect>,
    id: MsgId,
    curr_state: MessageState,
    curr_blocked: Blocked,
) -> (changed: bool)
    ensures
        changed == seen_next(curr_state, curr_blocked) is Some,
        final(effects)@ == old(effects)@ + state_effects(id, curr_state, curr_blocked),
{
    if curr_blocked == Blocked::Not {
        if curr_state == MessageState::InFresh || curr_state == MessageState::InNoticed {
            effects.push(
                Effect::Execute(Statement::SetState { state: MessageState::InSeen, msg_id: id }),
            );
            effects.push(
                Effect::AddJob(
                    Job {
                        action: Action::MarkseenMsgOnImap,
                        foreign_id: wrap(id.to_u32()),
                        delay_seconds: 0,
                    },
                ),
            );
            return true;
        }
        return false;
    }
    if curr_state == MessageState::InFresh {
        effects.push(
            Effect::Execute(Statement::SetState { state: MessageState::InNoticed, msg_id: id }),
        );
        return true;
    }
    false
}

/// Marks messages as seen, given what [`markseen_query`] found for each of them. Gives the answer
/// to the caller and what is to be done, in order. Nothing is done if one lookup failed.
pub fn markseen_msgs(lookups: &Vec<(MsgId, SeenLookup)>) -> (r: (bool, Vec<Effect>))
    ensures
        r.0 == marks_seen(lookups@),
        r.1@ == markseen_effects(lookups@),
{
    if lookups.len() == 0 {
        return (false, Vec::new());
    }
    let mut effects: Vec<Effect> = Vec::new();
    let mut send_event: bool = false;
    let mut i: usize = 0;
    assert(lookups@.take(0).len() == 0);
    while i < lookups.len()
        invariant
            i <= lookups@.len(),
            forall|j: int|
                0 <= j < i ==> !lookup_fails((#[trigger] lookups@[j]).0, lookups@[j].1),
            effects@ == seen_effects(lookups@.take(i as int)),
            send_event == (effects@.len() > 0),
        decreases lookups.len() - i,
    {
        let id: MsgId = lookups[i].0;
        assert(lookups@.take(i + 1).drop_last() == lookups@.take(i as int));
        if id.is_special() {
            return (false, Vec::new());
        }
        match &lookups[i].1 {
            SeenLookup::Row { state, blocked } => {
                match (state.state(), blocked.blocked()) {
                    (Ok(curr_state), Ok(curr_blocked)) => {
                        let changed: bool = push_seen(&mut effects, id, curr_state, curr_blocked);
                        send_event = send_event || changed;
                    },
                    _ => {
                        return (false, Vec::new());
                    },
                }
            },
            SeenLookup::NoRow => {
                assert(effects@ + Seq::<Effect>::empty() == effects@);
            },
            SeenLookup::Failed => {
                return (false, Vec::new());
            },
        }
        i += 1;
    }
    assert(lookups@.take(i as int) == lookups@);
    if send_event {
        effects.push(
            Effect::Emit(Event::MsgsChanged { chat_id: 0, msg_id: MsgId::new(0) }),
        );
    }
    (true, effects)
}

/// Being seen moves a message forward, from one incoming state to another, and seeing it again in
/// the same chat changes nothing more.
pub proof fn seen_moves_forward(state: MessageState, blocked: Blocked)
    ensures
        seen_next(state, blocked) matches Some(next) ==> {
            &&& next.code() > state.code()
            &&& state.code() >= MessageState::InFresh.code()
            &&& next.code() <= MessageState::InSeen.code()
            &&& seen_next(next, blocked) is None
        },
{
}

/// What is found for a message after it was marked as seen: the state that it got, if it got
/// another.
pub open spec fn lookup_after(lookup: SeenLookup) -> SeenLookup {
    match lookup {
        SeenLookup::Row { state, blocked } => match seen_next(
            state.as_state()->Ok_0,
            blocked.as_blocked()->Ok_0,
        ) {
            Some(next) => SeenLookup::Row {
                state: ColumnValue::Integer(next.code() as i64),
                blocked,
            },
            None => lookup,
        },
        _ => lookup,
    }
}

/// What is found for messages after all of them were marked as seen, or none.
pub open spec fn lookups_after(lookups: Seq<(MsgId, SeenLookup)>) -> Seq<(MsgId, SeenLookup)> {
    if marks_seen(lookups) {
        Seq::new(lookups.len(), |i: int| (lookups[i].0, lookup_after(lookups[i].1)))
    } else {
        lookups
    }
}

proof fn lemma_no_effects(lookups: Seq<(MsgId, SeenLookup)>)
    requires
        forall|i: int|
            0 <= i < lookups.len() ==> seen_effects_of((#[trigger] lookups[i]).0, lookups[i].1)
                == Seq::<Effect>::empty(),
    ensures
        seen_effects(lookups) == Seq::<Effect>::empty(),
    decreases lookups.len(),
{
    if lookups.len() > 0 {
        let rest = lookups.drop_last();
        assert forall|i: int| 0 <= i < rest.len() implies seen_effects_of(
            (#[trigger] rest[i]).0,
            rest[i].1,
        ) == Seq::<Effect>::empty() by {
            assert(rest[i] == lookups[i]);
        }
        lemma_no_effects(rest);
        assert(lookups.last() == lookups[lookups.len() - 1]);
    }
}

/// Marking messages as seen a second time is answered as the first time was, and has no effect.
pub proof fn seeing_twice_is_seeing_once(lookups: Seq<(MsgId, SeenLookup)>)
    ensures
        marks_seen(lookups_after(lookups)) == marks_seen(lookups),
        markseen_effects(lookups_after(lookups)) == Seq::<Effect>::empty(),
{
    if marks_seen(lookups) {
        let second = lookups_after(lookups);
        assert forall|i: int| 0 <= i < second.len() implies !lookup_fails(
            (#[trigger] second[i]).0,
            second[i].1,
        ) && seen_effects_of(second[i].0, second[i].1) == Seq::<Effect>::empty() by {
            assert(!lookup_fails(lookups[i].0, lookups[i].1));
        }
        lemma_no_effects(second);
    }
}

/// A fresh (10) or noticed (13) message is seen in a chat that is not blocked, and a fresh one is
/// noticed in a blocked chat. Nothing else changes a state.
pub proof fn states_that_change_by_being_seen(state: MessageState, blocked: Blocked)
    ensures
        blocked is Not && (state.code() == 10 || state.code() == 13) ==> seen_next(state, blocked)
            == Some(MessageState::InSeen),
        !(blocked is Not) && state.code() == 10 ==> seen_next(state, blocked) == Some(
            MessageState::InNoticed,
        ),
        blocked is Not && state.code() != 10 && state.code() != 13 ==> seen_next(state, blocked)
            is None,
        !(blocked is Not) && state.code() != 10 ==> seen_next(state, blocked) is None,
{
}

/// What one message more adds to what is to be done, behind all that comes before it: that it is
/// stored as seen and marked on the server, that it is stored as noticed, or nothing. `blocked` is one
/// or two for a chat that is blocked, and another number, or missing, for one that is not.
pub proof fn each_seen_message_adds_its_effects(
    before: Seq<(MsgId, SeenLookup)>,
    id: MsgId,
    state: i64,
    blocked: i64,
)
    ensures
        ({
            let row = SeenLookup::Row {
                state: ColumnValue::Integer(state),
                blocked: ColumnValue::Integer(blocked),
            };
            let unknown = SeenLookup::Row {
                state: ColumnValue::Integer(state),
                blocked: ColumnValue::Null,
            };
            let seen = seq![
                Effect::Execute(Statement::SetState { state: MessageState::InSeen, msg_id: id }),
                Effect::AddJob(
                    Job {
                        action: Action::MarkseenMsgOnImap,
                        foreign_id: sql::wrapped(id.0) as i32,
                        delay_seconds: 0,
                    },
                ),
            ];
            let noticed = seq![
                Effect::Execute(Statement::SetState { state: MessageState::InNoticed, msg_id: id }),
            ];
            let of_row = if blocked == 1 || blocked == 2 {
                if state == 10 {
                    noticed
                } else {
                    Seq::empty()
                }
            } else if state == 10 || state == 13 {
                seen
            } else {
                Seq::empty()
            };
            &&& seen_effects(before.push((id, row))) == seen_effects(before) + of_row
            &&& seen_effects(before.push((id, unknown))) == seen_effects(before) + (if state == 10
                || state == 13 {
                seen
            } else {
                Seq::empty()
            })
            &&& seen_effects(before.push((id, SeenLookup::NoRow))) == seen_effects(before)
            &&& seen_effects(Seq::empty()) == Seq::<Effect>::empty()
        }),
{
    let row = SeenLookup::Row {
        state: ColumnValue::Integer(state),
        blocked: ColumnValue::Integer(blocked),
    };
    let unknown = SeenLookup::Row {
        state: ColumnValue::Integer(state),
        blocked: ColumnValue::Null,
    };
    assert(before.push((id, row)).drop_last() =~= before);
    assert(before.push((id, unknown)).drop_last() =~= before);
    assert(before.push((id, SeenLookup::NoRow)).drop_last() =~= before);
    assert(seen_effects(before) + Seq::<Effect>::empty() =~= seen_effects(before));
}

/// Nothing is marked if no message is given, if an identifier is reserved, if the database did not
/// answer for one of them, or if a state is no integer. In all other cases the caller is told that
/// the messages are marked. The user interface is told once, at the end, if anything was done.
pub proof fn all_messages_are_marked_or_none(lookups: Seq<(MsgId, SeenLookup)>)
    ensures
        marks_seen(lookups) <==> lookups.len() > 0 && forall|i: int| #![trigger lookups[i]]
            0 <= i < lookups.len() ==> lookups[i].0.0 > 9 && match lookups[i].1 {
                SeenLookup::Row { state, blocked } => state is Integer && (blocked is Integer
                    || blocked is Null),
                SeenLookup::NoRow => true,
                SeenLookup::Failed => false,
            },
        !marks_seen(lookups) ==> markseen_effects(lookups) == Seq::<Effect>::empty(),
        marks_seen(lookups) && seen_effects(lookups) == Seq::<Effect>::empty() ==> markseen_effects(
            lookups,
        ) == Seq::<Effect>::empty(),
        marks_seen(lookups) && seen_effects(lookups) != Seq::<Effect>::empty() ==> markseen_effects(
            lookups,
        ) == seen_effects(lookups).push(
            Effect::Emit(Event::MsgsChanged { chat_id: 0, msg_id: MsgId(0) }),
        ),
{
    if seen_effects(lookups).len() == 0 {
        assert(seen_effects(lookups) =~= Seq::<Effect>::empty());
    }
    assert forall|i: int| #![trigger lookups[i]]
        0 <= i < lookups.len() implies (!lookup_fails(lookups[i].0, lookups[i].1) <==> (
    lookups[i].0.0 > 9 && match lookups[i].1 {
        SeenLookup::Row { state, blocked } => state is Integer && (blocked is Integer || blocked
            is Null),
        SeenLookup::NoRow => true,
        SeenLookup::Failed => false,
    })) by {}
}

} // verus!
