//! What is asked of the database, and done besides, when messages change.
use vstd::prelude::*;

use crate::column;
use crate::column::{read_i32, read_isize, read_number, read_text};
use crate::constants::DC_CHAT_ID_TRASH;
use crate::effect::{Action, Effect, Event, Job};
use crate::load;
use crate::message::Message;
use crate::msgid::MsgId;
use crate::param::Param;
use crate::seen;
use crate::sql;
use crate::sql::{wrap, ColumnValue, FromSqlError, Statement};
use crate::state::MessageState;
use crate::stored;
use crate::text;

verus! {

/// The statement that asks for the headers that a message came with.
pub fn mime_headers_query(msg_id: MsgId) -> (r: Statement)
    ensures
        r == Statement::MimeHeaders(msg_id),
{
    Statement::MimeHeaders(msg_id)
}

/// The headers that a message came with, given the answer to [`mime_headers_query`], if they were
/// kept.
pub fn get_mime_headers(reply: Option<&ColumnValue>) -> (r: Option<String>)
    ensures
        text::viewed_option(r) == column::answered_text(reply),
{
    read_text(reply)
}

/// The statement that asks for the text of a message as it came.
pub fn raw_text_query(msg_id: MsgId) -> (r: Statement)
    ensures
        r == Statement::RawText(msg_id),
{
    Statement::RawText(msg_id)
}

/// The statement that moves a message to a chat.
pub fn update_msg_chat_id(msg_id: MsgId, chat_id: u32) -> (r: Statement)
    ensures
        r == (Statement::SetChatId { chat_id, msg_id }),
{
    Statement::SetChatId { chat_id, msg_id }
}

/// The statement that deletes a location that was set by hand.
pub fn delete_poi_location(location_id: u32) -> (r: Statement)
    ensures
        r == Statement::DeletePoiLocation(location_id),
{
    Statement::DeletePoiLocation(location_id)
}

/// The statement that sets the state of a message.
pub fn update_msg_state(msg_id: MsgId, state: MessageState) -> (r: Statement)
    ensures
        r == (Statement::SetState { state, msg_id }),
{
    Statement::SetState { state, msg_id }
}

/// A job without delay.
pub open spec fn job_at_once(action: Action, foreign_id: u32) -> Effect {
    Effect::AddJob(
        Job { action, foreign_id: sql::wrapped(foreign_id) as i32, delay_seconds: 0 },
    )
}

/// What is to be done to delete one message, with the location that is bound to it, if it could be
/// loaded.
pub open spec fn delete_effects_of(id: MsgId, location: Option<u32>) -> Seq<Effect> {
    let trash = seq![
        Effect::Execute(Statement::SetChatId { chat_id: DC_CHAT_ID_TRASH, msg_id: id }),
        job_at_once(Action::DeleteMsgOnImap, id.0),
    ];
    match location {
        Some(location_id) => if location_id > 0 {
            seq![Effect::Execute(Statement::DeletePoiLocation(location_id))] + trash
        } else {
            trash
        },
        None => trash,
    }
}

/// What is to be done to delete messages, one after the other.
pub open spec fn delete_effects(msgs: Seq<(MsgId, Option<u32>)>) -> Seq<Effect>
    decreases msgs.len(),
{
    if msgs.len() == 0 {
        Seq::empty()
    } else {
        delete_effects(msgs.drop_last()) + delete_effects_of(msgs.last().0, msgs.last().1)
    }
}

/// What is to be done once messages are deleted.
pub open spec fn after_delete() -> Seq<Effect> {
    seq![
        seen::any_msgs_changed(),
        Effect::KillJobs(Action::Housekeeping),
        Effect::AddJob(Job { action: Action::Housekeeping, foreign_id: 0, delay_seconds: 10 }),
    ]
}

/// Deletes messages: moves them to the trash, and has them deleted on the server. Each identifier
/// comes with the location of the message, if that could be loaded. Gives what is to be done, in
/// order.
pub fn delete_msgs(msgs: &Vec<(MsgId, Option<u32>)>) -> (r: Vec<Effect>)
    ensures
        r@ == (if msgs@.len() == 0 {
            Seq::empty()
        } else {
            delete_effects(msgs@) + after_delete()
        }),
{
    let mut effects: Vec<Effect> = Vec::new();
    let mut i: usize = 0;
    assert(msgs@.take(0).len() == 0);
    while i < msgs.len()
        invariant
            i <= msgs@.len(),
            effects@ == delete_effects(msgs@.take(i as int)),
        decreases msgs.len() - i,
    {
        let (msg_id, location): (MsgId, Option<u32>) = msgs[i];
        let ghost before = effects@;
        if let Some(location_id) = location {
            if location_id > 0 {
                effects.push(Effect::Execute(delete_poi_location(location_id)));
            }
        }
        effects.push(Effect::Execute(update_msg_chat_id(msg_id, DC_CHAT_ID_TRASH)));
        effects.push(
            Effect::AddJob(
                Job {
                    action: Action::DeleteMsgOnImap,
                    foreign_id: wrap(msg_id.to_u32()),
                    delay_seconds: 0,
                },
            ),
        );
        assert(effects@ =~= before + delete_effects_of(msg_id, location));
        assert(msgs@.take(i + 1).drop_last() == msgs@.take(i as int));
        i += 1;
    }
    assert(msgs@.take(i as int) == msgs@);
    if msgs.len() != 0 {
        let ghost before = effects@;
        effects.push(Effect::Emit(Event::MsgsChanged { chat_id: 0, msg_id: MsgId::new(0) }));
        effects.push(Effect::KillJobs(Action::Housekeeping));
        effects.push(
            Effect::AddJob(Job { action: Action::Housekeeping, foreign_id: 0, delay_seconds: 10 }),
        );
        assert(effects@ =~= before + after_delete());
    }
    effects
}

/// Stars messages, or takes the stars away: the statements to be put to the database, as
/// [`star_next`] tells. None without any message.
pub fn star_msgs(msg_ids: &Vec<MsgId>, star: bool) -> (r: Option<Vec<Statement>>)
    ensures
        match r {
            Some(statements) => {
                &&& msg_ids@.len() > 0
                &&& statements@ == Seq::new(
                    msg_ids@.len(),
                    |i: int| Statement::SetStarred { star, msg_id: msg_ids@[i] },
                )
            },
            None => msg_ids@.len() == 0,
        },
{
    if msg_ids.len() == 0 {
        return None;
    }
    let mut statements: Vec<Statement> = Vec::new();
    let mut i: usize = 0;
    while i < msg_ids.len()
        invariant
            i <= msg_ids@.len(),
            statements@ == Seq::new(
                i as nat,
                |k: int| Statement::SetStarred { star, msg_id: msg_ids@[k] },
            ),
        decreases msg_ids.len() - i,
    {
        statements.push(Statement::SetStarred { star, msg_id: msg_ids[i] });
        i += 1;
    }
    Some(statements)
}

/// What is to be done next when messages are starred.
#[derive(Debug, Clone, Copy, PartialEq, Eq, Structural)]
pub enum StarStep {
    /// Put the statement at this place to the database.
    Put(usize),
    /// Answer whether the messages are starred.
    Answer(bool),
}

/// What follows when the first `succeeded` of a number of statements succeeded, and the next one
/// failed or was not put to the database yet.
pub open spec fn star_step(statements: nat, succeeded: nat, failed: bool) -> StarStep {
    if failed {
        StarStep::Answer(false)
    } else if succeeded < statements {
        StarStep::Put(succeeded as usize)
    } else {
        StarStep::Answer(statements > 0)
    }
}

/// Tells what is to be done next with the statements that [`star_msgs`] gave: the first failure ends
/// it.
pub fn star_next(statements: usize, succeeded: usize, failed: bool) -> (r: StarStep)
    ensures
        r == star_step(statements as nat, succeeded as nat, failed),
{
    if failed {
        StarStep::Answer(false)
    } else if succeeded < statements {
        StarStep::Put(succeeded)
    } else {
        StarStep::Answer(statements > 0)
    }
}

/// How many statements are put to the database from the one at `succeeded` on, and what is answered
/// then, if `outcomes` tells of each whether it succeeds.
pub open spec fn star_run(outcomes: Seq<bool>, succeeded: nat) -> (nat, bool)
    decreases outcomes.len() - succeeded,
{
    match star_step(outcomes.len(), succeeded, false) {
        StarStep::Put(_) => if outcomes[succeeded as int] {
            let (put, answer) = star_run(outcomes, succeeded + 1);
            (put + 1, answer)
        } else {
            (1, star_step(outcomes.len(), succeeded, true)->Answer_0)
        },
        StarStep::Answer(answer) => (0, answer),
    }
}

proof fn lemma_star_run(outcomes: Seq<bool>, succeeded: nat)
    requires
        succeeded <= outcomes.len(),
        forall|i: int| 0 <= i < succeeded ==> outcomes[i],
    ensures
        ({
            let (put, answer) = star_run(outcomes, succeeded);
            &&& answer == (outcomes.len() > 0 && forall|i: int|
                0 <= i < outcomes.len() ==> outcomes[i])
            &&& succeeded + put <= outcomes.len()
            &&& answer ==> succeeded + put == outcomes.len()
            &&& forall|i: int| 0 <= i < succeeded + put - 1 ==> outcomes[i]
            &&& outcomes.len() > 0 && !answer ==> put > 0 && !outcomes[succeeded + put - 1]
        }),
    decreases outcomes.len() - succeeded,
{
    if succeeded < outcomes.len() && outcomes[succeeded as int] {
        lemma_star_run(outcomes, succeeded + 1);
    }
}

/// Messages are starred, and the caller is told so, just if there are any and no statement fails.
/// The first statement that fails is the last one that is put to the database.
pub proof fn starring_stops_at_the_first_failure(outcomes: Seq<bool>)
    ensures
        ({
            let (put, answer) = star_run(outcomes, 0);
            &&& answer == (outcomes.len() > 0 && forall|i: int|
                0 <= i < outcomes.len() ==> outcomes[i])
            &&& put <= outcomes.len()
            &&& answer ==> put == outcomes.len()
            &&& forall|i: int| 0 <= i < put - 1 ==> outcomes[i]
            &&& outcomes.len() > 0 && !answer ==> put > 0 && !outcomes[put - 1]
        }),
{
    lemma_star_run(outcomes, 0);
}

/// The statement that asks whether a message exists: none for a reserved identifier.
pub fn msg_exists_query(msg_id: MsgId) -> (r: Option<Statement>)
    ensures
        r == (if msg_id.special() {
            None::<Statement>
        } else {
            Some(Statement::ChatIdOf(msg_id))
        }),
{
    if msg_id.is_special() {
        None
    } else {
        Some(Statement::ChatIdOf(msg_id))
    }
}

/// Whether a message exists that is known to be in a chat, or in none.
pub open spec fn existing(msg_id: MsgId, chat_id: Option<u32>) -> bool {
    !msg_id.special() && (chat_id matches Some(chat) && chat != DC_CHAT_ID_TRASH)
}

/// Whether a message exists, given the answer to [`msg_exists_query`]: the chat that it is in. What
/// is in the trash does not exist.
pub fn msg_exists(msg_id: MsgId, reply: Option<&ColumnValue>) -> (r: bool)
    ensures
        r == existing(msg_id, column::answered_number(reply)),
{
    if msg_id.is_special() {
        return false;
    }
    match read_number(reply) {
        Some(chat_id) => chat_id != DC_CHAT_ID_TRASH,
        None => false,
    }
}

/// Marks a message that was loaded as failed, if it may fail, and keeps the reason. Gives the
/// statement that stores it, and what [`failed_event`] takes once that was tried.
pub fn set_msg_failed(msg: &mut Message, msg_id: MsgId, error: Option<&str>) -> (r: (
    Statement,
    Event,
))
    ensures
        *final(msg) == (Message {
            state: final(msg).state,
            param: final(msg).param,
            ..*old(msg)
        }),
        final(msg).state == (if old(msg).state.fallible() {
            MessageState::OutFailed
        } else {
            old(msg).state
        }),
        final(msg).param@ == (match error {
            Some(error) => old(msg).param@.insert(Param::Error, error@),
            None => old(msg).param@,
        }),
        r.0 matches Statement::SetFailed { state, param, msg_id: id } && {
            &&& state == final(msg).state
            &&& param@ == stored::stored_text(final(msg).param@)
            &&& id == msg_id
        },
        r.1 == (Event::MsgFailed { chat_id: old(msg).chat_id, msg_id }),
{
    if msg.state.can_fail() {
        msg.state = MessageState::OutFailed;
    }
    if let Some(error) = error {
        msg.param.set(Param::Error, error);
    }
    (
        Statement::SetFailed { state: msg.state, param: msg.param.to_string(), msg_id },
        Event::MsgFailed { chat_id: msg.chat_id, msg_id },
    )
}

/// What the user interface is told of a message that was marked as failed: nothing, if that could
/// not be stored.
pub fn failed_event(stored: bool, event: Event) -> (r: Option<Event>)
    ensures
        r == (if stored {
            Some(event)
        } else {
            None
        }),
{
    if stored {
        Some(event)
    } else {
        None
    }
}

/// A message that failed cannot fail again, nor can one that was read; only a message on its way
/// out can.
pub proof fn failure_is_final(state: MessageState)
    ensures
        !MessageState::OutFailed.fallible(),
        !MessageState::OutMdnRcvd.fallible(),
        state.fallible() ==> state.code() >= MessageState::OutPreparing.code(),
{
}

/// The count in an answer of the database, or zero.
pub open spec fn count_in(reply: Option<&ColumnValue>) -> i32 {
    match column::answered_i32(reply) {
        Some(n) => n,
        None => 0,
    }
}

fn read_count(reply: Option<&ColumnValue>) -> (r: i32)
    ensures
        r == count_in(reply),
{
    match read_i32(reply) {
        Some(n) => n,
        None => 0,
    }
}

/// The statement that counts the messages in real chats.
pub fn real_msg_cnt_query() -> (r: Statement)
    ensures
        r == Statement::RealMsgCount,
{
    Statement::RealMsgCount
}

/// The number of messages assigned to real chat (!=deaddrop, !=trash), given the answer to
/// [`real_msg_cnt_query`]: zero if there was none.
pub fn get_real_msg_cnt(reply: Option<&ColumnValue>) -> (r: i32)
    ensures
        r == count_in(reply),
{
    read_count(reply)
}

/// The statement that counts the messages of unknown senders.
pub fn deaddrop_msg_cnt_query() -> (r: Statement)
    ensures
        r == Statement::DeaddropMsgCount,
{
    Statement::DeaddropMsgCount
}

/// The number of messages of unknown senders, given the answer to [`deaddrop_msg_cnt_query`]: zero
/// if there was none.
pub fn get_deaddrop_msg_cnt(reply: Option<&ColumnValue>) -> (r: usize)
    ensures
        r == (match column::answered_isize(reply) {
            Some(n) => n as usize,
            None => 0,
        }),
{
    match read_isize(reply) {
        Some(n) => n as usize,
        None => 0,
    }
}

/// The statement that counts the messages with a Message-ID.
pub fn rfc724_mid_cnt_query(rfc724_mid: &str) -> (r: Statement)
    ensures
        r matches Statement::MidCount(mid) && mid@ == rfc724_mid@,
{
    Statement::MidCount(rfc724_mid.to_owned())
}

/// The number of messages with the same Message-ID, given the answer to [`rfc724_mid_cnt_query`]:
/// zero if there was none.
pub fn rfc724_mid_cnt(reply: Option<&ColumnValue>) -> (r: i32)
    ensures
        r == count_in(reply),
{
    read_count(reply)
}

/// The answer to [`Statement::MidLookup`].
#[derive(Debug, Clone)]
pub struct MidRow {
    /// The folder on the server.
    pub server_folder: ColumnValue,
    /// The number in the folder.
    pub server_uid: ColumnValue,
    /// The identifier of the message.
    pub id: ColumnValue,
}

impl MidRow {
    /// What fails first, if the columns are read in order.
    pub open spec fn first_failure(self) -> Option<FromSqlError> {
        load::or_else(
            load::failure(self.server_folder.as_optional_text()),
            load::or_else(
                load::failure(self.server_uid.as_number()),
                load::failure(MsgId::of_column(self.id)),
            ),
        )
    }
}

/// Why a message was not found by its Message-ID.
#[derive(Debug, Clone, Copy, PartialEq, Eq, Structural)]
pub enum MidError {
    /// The Message-ID is empty.
    Empty,
    /// There is no such message, or the database did not answer.
    NotFound,
    /// What the database holds is no message.
    Row(FromSqlError),
}

/// The statement that looks a message up by its Message-ID.
///
/// # Errors
///
/// An empty Message-ID is not looked up.
pub fn rfc724_mid_exists_query(rfc724_mid: &str) -> (r: Result<Statement, MidError>)
    ensures
        match r {
            Ok(statement) => rfc724_mid@.len() > 0 && (statement matches Statement::MidLookup(mid)
                && mid@ == rfc724_mid@),
            Err(e) => rfc724_mid@.len() == 0 && e == MidError::Empty,
        },
{
    if rfc724_mid.is_empty() {
        return Err(MidError::Empty);
    }
    Ok(Statement::MidLookup(rfc724_mid.to_owned()))
}

fn read_mid_row(row: &MidRow) -> (r: Result<(String, u32, MsgId), FromSqlError>)
    ensures
        match r {
            Ok((folder, uid, id)) => {
                &&& row.first_failure() is None
                &&& folder@ == (match row.server_folder.as_optional_text()->Ok_0 {
                    Some(folder) => folder,
                    None => Seq::empty(),
                })
                &&& row.server_uid.as_number() == Ok::<u32, FromSqlError>(uid)
                &&& MsgId::of_column(row.id) == Ok::<MsgId, FromSqlError>(id)
            },
            Err(e) => row.first_failure() == Some(e),
        },
{
    let server_folder: String = match row.server_folder.optional_text()? {
        Some(folder) => folder,
        None => String::new(),
    };
    let server_uid: u32 = row.server_uid.number()?;
    let msg_id: MsgId = MsgId::column_result(&row.id)?;
    Ok((server_folder, server_uid, msg_id))
}

/// Where a message with a Message-ID was last seen, and which one it is, given what
/// [`rfc724_mid_exists_query`] found.
pub fn rfc724_mid_exists(rfc724_mid: &str, row: Option<&MidRow>) -> (r: Result<
    (String, u32, MsgId),
    MidError,
>)
    ensures
        match r {
            Ok((folder, uid, id)) => {
                &&& rfc724_mid@.len() > 0
                &&& row is Some
                &&& row->0.first_failure() is None
                &&& folder@ == (match row->0.server_folder.as_optional_text()->Ok_0 {
                    Some(folder) => folder,
                    None => Seq::empty(),
                })
                &&& row->0.server_uid.as_number() == Ok::<u32, FromSqlError>(uid)
                &&& MsgId::of_column(row->0.id) == Ok::<MsgId, FromSqlError>(id)
            },
            Err(MidError::Empty) => rfc724_mid@.len() == 0,
            Err(MidError::NotFound) => rfc724_mid@.len() > 0 && row is None,
            Err(MidError::Row(e)) => rfc724_mid@.len() > 0 && row is Some
                && row->0.first_failure() == Some(e),
        },
{
    if rfc724_mid.is_empty() {
        return Err(MidError::Empty);
    }
    match row {
        Some(row) => match read_mid_row(row) {
            Ok(found) => Ok(found),
            Err(e) => Err(MidError::Row(e)),
        },
        None => Err(MidError::NotFound),
    }
}

/// The statement that stores where the messages with a Message-ID were last seen.
pub fn update_server_uid(rfc724_mid: &str, server_folder: &str, server_uid: u32) -> (r: Statement)
    ensures
        r matches Statement::SetServerUid { server_folder: folder, server_uid: uid, rfc724_mid: mid }
            && folder@ == server_folder@ && uid == server_uid && mid@ == rfc724_mid@,
{
    Statement::SetServerUid {
        server_folder: server_folder.to_owned(),
        server_uid,
        rfc724_mid: rfc724_mid.to_owned(),
    }
}

/// Has messages removed from the server, and forgets what was asked of this kind before.
pub fn dc_empty_server(flags: u32) -> (r: Vec<Effect>)
    ensures
        r@ == seq![
            Effect::KillJobs(Action::EmptyServer),
            job_at_once(Action::EmptyServer, flags),
        ],
{
    vec![
        Effect::KillJobs(Action::EmptyServer),
        Effect::AddJob(
            Job { action: Action::EmptyServer, foreign_id: wrap(flags), delay_seconds: 0 },
        ),
    ]
}

/// Each message that is deleted is moved to the trash and has a job that deletes it on the server.
/// A message in the trash does not exist.
pub proof fn deleted_messages_go_to_the_trash(msgs: Seq<(MsgId, Option<u32>)>, i: int)
    requires
        0 <= i < msgs.len(),
    ensures
        delete_effects(msgs).contains(
            Effect::Execute(
                Statement::SetChatId { chat_id: DC_CHAT_ID_TRASH, msg_id: msgs[i].0 },
            ),
        ),
        delete_effects(msgs).contains(job_at_once(Action::DeleteMsgOnImap, msgs[i].0.0)),
        !existing(msgs[i].0, Some(DC_CHAT_ID_TRASH)),
    decreases msgs.len(),
{
    let (id, location) = msgs.last();
    let before = delete_effects(msgs.drop_last());
    let own = delete_effects_of(id, location);
    let all = delete_effects(msgs);
    assert(all == before + own);
    if i < msgs.len() - 1 {
        deleted_messages_go_to_the_trash(msgs.drop_last(), i);
        let trash = Effect::Execute(
            Statement::SetChatId { chat_id: DC_CHAT_ID_TRASH, msg_id: msgs[i].0 },
        );
        let job = job_at_once(Action::DeleteMsgOnImap, msgs[i].0.0);
        assert(msgs.drop_last()[i] == msgs[i]);
        let a = before.index_of(trash);
        let b = before.index_of(job);
        assert(before[a] == trash && all[a] == trash);
        assert(before[b] == job && all[b] == job);
    } else {
        let n = own.len();
        assert(all[before.len() + n - 2] == own[n - 2]);
        assert(all[before.len() + n - 1] == own[n - 1]);
    }
}

/// What one message more adds to what is to be done, behind all that comes before it: its location is
/// deleted if it has one, it is moved to chat 3, and it gets a job that deletes it on the server at
/// once.
pub proof fn each_deleted_message_adds_its_effects(
    before: Seq<(MsgId, Option<u32>)>,
    id: MsgId,
    location_id: u32,
)
    ensures
        ({
            let trash = seq![
                Effect::Execute(Statement::SetChatId { chat_id: 3, msg_id: id }),
                Effect::AddJob(
                    Job {
                        action: Action::DeleteMsgOnImap,
                        foreign_id: sql::wrapped(id.0) as i32,
                        delay_seconds: 0,
                    },
                ),
            ];
            let location = seq![Effect::Execute(Statement::DeletePoiLocation(location_id))];
            &&& delete_effects(Seq::empty()) == Seq::<Effect>::empty()
            &&& delete_effects(before.push((id, None))) == delete_effects(before) + trash
            &&& location_id == 0 ==> delete_effects(before.push((id, Some(location_id))))
                == delete_effects(before) + trash
            &&& location_id != 0 ==> delete_effects(before.push((id, Some(location_id))))
                == delete_effects(before) + (location + trash)
        }),
{
    assert(before.push((id, None::<u32>)).drop_last() =~= before);
    assert(before.push((id, Some(location_id))).drop_last() =~= before);
}

/// Once messages are deleted, the user interface is told, and cleaning up is put off by ten seconds.
/// What is asked of the server is asked at once, with the number handed on as it is.
pub proof fn jobs_that_follow(action: Action, foreign_id: u32)
    ensures
        after_delete() == seq![
            Effect::Emit(Event::MsgsChanged { chat_id: 0, msg_id: MsgId(0) }),
            Effect::KillJobs(Action::Housekeeping),
            Effect::AddJob(Job { action: Action::Housekeeping, foreign_id: 0, delay_seconds: 10 }),
        ],
        job_at_once(action, foreign_id) == Effect::AddJob(
            Job { action, foreign_id: sql::wrapped(foreign_id) as i32, delay_seconds: 0 },
        ),
{
}

/// A message exists if its identifier is not one of the first ten and it is in a chat other than the
/// third one.
pub proof fn messages_that_exist(id: MsgId, chat_id: u32)
    ensures
        existing(id, Some(chat_id)) <==> id.0 >= 10 && chat_id != 3,
        !existing(id, None),
{
}

/// The statements for starring are put to the database in their order.
pub proof fn stars_are_put_in_order(statements: nat, succeeded: nat)
    requires
        statements <= usize::MAX,
    ensures
        succeeded < statements ==> star_step(statements, succeeded, false) == StarStep::Put(
            succeeded as usize,
        ),
        succeeded >= statements ==> star_step(statements, succeeded, false) == StarStep::Answer(
            statements != 0,
        ),
        star_step(statements, succeeded, true) == StarStep::Answer(false),
{
}

/// A count that fits 32 bits is given as it is, and anything else counts for zero.
pub proof fn counts_are_given_as_they_are(value: ColumnValue)
    ensures
        count_in(None) == 0,
        match value {
            ColumnValue::Integer(n) => count_in(Some(&value)) == (if -2147483648 <= n
                <= 2147483647 {
                n as i32
            } else {
                0
            }),
            _ => count_in(Some(&value)) == 0,
        },
{
}

/// A row that is found by a Message-ID is read just if its folder is missing or a text, and the two
/// numbers fit 32 bits without a sign.
pub proof fn rows_that_are_found(row: MidRow)
    ensures
        row.first_failure() is None <==> {
            &&& row.server_folder is Null || (row.server_folder matches ColumnValue::Text(bytes)
                && vstd::utf8::valid_utf8(bytes@))
            &&& row.server_uid matches ColumnValue::Integer(n) && 0 <= n <= 4294967295
            &&& row.id matches ColumnValue::Integer(n) && 0 <= n <= 4294967295
        },
{
}

/// Of several columns that cannot be read, the first one is named: the folder, its number, then the
/// identifier.
pub proof fn the_first_bad_column_is_named(row: MidRow)
    ensures
        row.first_failure() == (if let Err(e) = row.server_folder.as_optional_text() {
            Some(e)
        } else if let Err(e) = row.server_uid.as_number() {
            Some(e)
        } else if let Err(e) = MsgId::of_column(row.id) {
            Some(e)
        } else {
            None
        }),
{
}

} // verus!
