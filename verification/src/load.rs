//! Messages as rows of the database.
use vstd::prelude::*;

use crate::constants::{Blocked, Viewtype};
use crate::message;
use crate::message::Message;
use crate::msgid::MsgId;
use crate::param::{Param, Params};
use crate::sql;
use crate::sql::{ColumnValue, FromSqlError, Statement};
use crate::state::MessageState;
use crate::stored;
use crate::text;

verus! {

/// The answer to [`Statement::LoadMessage`].
#[derive(Debug, Clone)]
pub struct MessageRow {
    /// The identifier of the message.
    pub id: ColumnValue,
    /// Its Message-ID.
    pub rfc724mid: ColumnValue,
    /// The Message-ID that it answers.
    pub mime_in_reply_to: ColumnValue,
    /// The folder on the server.
    pub server_folder: ColumnValue,
    /// The number in the folder.
    pub server_uid: ColumnValue,
    /// The chat.
    pub chat_id: ColumnValue,
    /// The sender.
    pub from_id: ColumnValue,
    /// The recipient.
    pub to_id: ColumnValue,
    /// The time by which messages are sorted.
    pub timestamp: ColumnValue,
    /// When it was sent.
    pub timestamp_sent: ColumnValue,
    /// When it was received.
    pub timestamp_rcvd: ColumnValue,
    /// What it holds.
    pub typ: ColumnValue,
    /// Where it stands on its way.
    pub state: ColumnValue,
    /// Whether it comes from a messenger.
    pub msgrmsg: ColumnValue,
    /// What it says.
    pub txt: ColumnValue,
    /// Its parameters.
    pub param: ColumnValue,
    /// Whether it is starred.
    pub starred: ColumnValue,
    /// Whether it is not shown.
    pub hidden: ColumnValue,
    /// The location bound to it.
    pub location: ColumnValue,
    /// Whether its chat is blocked.
    pub blocked: ColumnValue,
}

/// Why a message could not be loaded.
#[derive(Debug, Clone, Copy, PartialEq, Eq, Structural)]
pub enum LoadError {
    /// Can not load special message IDs from DB.
    SpecialMsgId,
    /// The database has no such message, or did not answer.
    NotFound,
    /// What the database holds is no message.
    Row(FromSqlError),
}

/// The failure, if it is one.
pub open spec fn failure<T>(r: Result<T, FromSqlError>) -> Option<FromSqlError> {
    match r {
        Ok(_) => None,
        Err(e) => Some(e),
    }
}

/// The first of two failures.
pub open spec fn or_else(
    first: Option<FromSqlError>,
    second: Option<FromSqlError>,
) -> Option<FromSqlError> {
    if first is Some {
        first
    } else {
        second
    }
}

/// The parameters that a stored text holds: none where it holds no parameters.
pub open spec fn params_or_none(s: Seq<char>) -> Map<Param, Seq<char>> {
    match stored::parsed_params(s) {
        Some(m) => m,
        None => Map::empty(),
    }
}

impl MessageRow {
    /// What fails first, if the columns are read in order.
    pub open spec fn first_failure(self) -> Option<FromSqlError> {
        let f = failure(self.blocked.as_blocked());
        let f = or_else(failure(self.location.as_number()), f);
        let f = or_else(failure(self.hidden.as_truth()), f);
        let f = or_else(failure(self.starred.as_truth()), f);
        let f = or_else(failure(self.param.as_text()), f);
        let f = or_else(failure(self.msgrmsg.as_number()), f);
        let f = or_else(failure(self.state.as_state()), f);
        let f = or_else(failure(self.typ.as_viewtype()), f);
        let f = or_else(failure(self.timestamp_rcvd.as_int()), f);
        let f = or_else(failure(self.timestamp_sent.as_int()), f);
        let f = or_else(failure(self.timestamp.as_int()), f);
        let f = or_else(failure(self.to_id.as_number()), f);
        let f = or_else(failure(self.from_id.as_number()), f);
        let f = or_else(failure(self.chat_id.as_number()), f);
        let f = or_else(failure(self.server_uid.as_number()), f);
        let f = or_else(failure(self.server_folder.as_optional_text()), f);
        let f = or_else(failure(self.mime_in_reply_to.as_optional_text()), f);
        let f = or_else(failure(self.rfc724mid.as_text()), f);
        let f = or_else(failure(MsgId::of_column(self.id)), f);
        f
    }

    /// Whether a message is what the row holds.
    pub open spec fn holds(self, msg: Message) -> bool {
        &&& MsgId::of_column(self.id) == Ok::<MsgId, FromSqlError>(msg.id)
        &&& self.rfc724mid.as_text() == Ok::<Seq<char>, FromSqlError>(msg.rfc724_mid@)
        &&& self.mime_in_reply_to.as_optional_text() == Ok::<Option<Seq<char>>, FromSqlError>(
            text::viewed_option(msg.in_reply_to),
        )
        &&& self.server_folder.as_optional_text() == Ok::<Option<Seq<char>>, FromSqlError>(
            text::viewed_option(msg.server_folder),
        )
        &&& self.server_uid.as_number() == Ok::<u32, FromSqlError>(msg.server_uid)
        &&& self.chat_id.as_number() == Ok::<u32, FromSqlError>(msg.chat_id)
        &&& self.from_id.as_number() == Ok::<u32, FromSqlError>(msg.from_id)
        &&& self.to_id.as_number() == Ok::<u32, FromSqlError>(msg.to_id)
        &&& self.timestamp.as_int() == Ok::<i64, FromSqlError>(msg.timestamp_sort)
        &&& self.timestamp_sent.as_int() == Ok::<i64, FromSqlError>(msg.timestamp_sent)
        &&& self.timestamp_rcvd.as_int() == Ok::<i64, FromSqlError>(msg.timestamp_rcvd)
        &&& self.typ.as_viewtype() == Ok::<Viewtype, FromSqlError>(msg.type_0)
        &&& self.state.as_state() == Ok::<MessageState, FromSqlError>(msg.state)
        &&& self.msgrmsg.as_number() == Ok::<u32, FromSqlError>(msg.is_dc_message)
        &&& text::viewed_option(msg.text) == Some(self.txt.as_shown_text())
        &&& self.param.as_text() matches Ok(stored) && msg.param@ == params_or_none(stored)
        &&& self.starred.as_truth() == Ok::<bool, FromSqlError>(msg.starred)
        &&& self.hidden.as_truth() == Ok::<bool, FromSqlError>(msg.hidden)
        &&& self.location.as_number() == Ok::<u32, FromSqlError>(msg.location_id)
        &&& self.blocked.as_blocked() == Ok::<Blocked, FromSqlError>(msg.chat_blocked)
    }
}

impl Message {
    /// The statement that asks for a message.
    ///
    /// # Errors
    ///
    /// Special message identifiers can not be loaded.
    pub fn load_query(id: MsgId) -> (r: Result<Statement, LoadError>)
        ensures
            r == (if id.special() {
                Err::<Statement, LoadError>(LoadError::SpecialMsgId)
            } else {
                Ok::<Statement, LoadError>(Statement::LoadMessage(id))
            }),
    {
        if id.is_special() {
            return Err(LoadError::SpecialMsgId);
        }
        Ok(Statement::LoadMessage(id))
    }

    /// The message that a row holds.
    ///
    /// # Errors
    ///
    /// The first column that is not what it should be.
    pub fn from_row(row: &MessageRow) -> (r: Result<Message, FromSqlError>)
        ensures
            match r {
                Ok(msg) => row.first_failure() is None && row.holds(msg),
                Err(e) => row.first_failure() == Some(e),
            },
    {
        let id: MsgId = MsgId::column_result(&row.id)?;
        let rfc724_mid: String = row.rfc724mid.text()?;
        let in_reply_to: Option<String> = row.mime_in_reply_to.optional_text()?;
        let server_folder: Option<String> = row.server_folder.optional_text()?;
        let server_uid: u32 = row.server_uid.number()?;
        let chat_id: u32 = row.chat_id.number()?;
        let from_id: u32 = row.from_id.number()?;
        let to_id: u32 = row.to_id.number()?;
        let timestamp_sort: i64 = row.timestamp.integer()?;
        let timestamp_sent: i64 = row.timestamp_sent.integer()?;
        let timestamp_rcvd: i64 = row.timestamp_rcvd.integer()?;
        let type_0: Viewtype = row.typ.viewtype()?;
        let state: MessageState = row.state.state()?;
        let is_dc_message: u32 = row.msgrmsg.number()?;
        let text: String = row.txt.shown_text();
        let stored: String = row.param.text()?;
        let param: Params = match Params::parse(stored.as_str()) {
            Ok(param) => param,
            Err(_) => Params::new(),
        };
        let starred: bool = row.starred.truth()?;
        let hidden: bool = row.hidden.truth()?;
        let location_id: u32 = row.location.number()?;
        let chat_blocked: Blocked = row.blocked.blocked()?;
        Ok(
            Message {
                id,
                from_id,
                to_id,
                chat_id,
                type_0,
                state,
                hidden,
                timestamp_sort,
                timestamp_sent,
                timestamp_rcvd,
                text: Some(text),
                rfc724_mid,
                in_reply_to,
                server_folder,
                server_uid,
                is_dc_message,
                starred,
                chat_blocked,
                location_id,
                param,
            },
        )
    }

    /// The message `id`, given what the database answered to [`Message::load_query`]: a row, or
    /// none.
    ///
    /// # Errors
    ///
    /// Special message identifiers can not be loaded, whatever the database holds.
    pub fn load_from_db(id: MsgId, row: Option<&MessageRow>) -> (r: Result<Message, LoadError>)
        ensures
            match r {
                Ok(msg) => {
                    &&& !id.special()
                    &&& row is Some
                    &&& row->0.first_failure() is None
                    &&& row->0.holds(msg)
                },
                Err(LoadError::SpecialMsgId) => id.special(),
                Err(LoadError::NotFound) => !id.special() && row is None,
                Err(LoadError::Row(e)) => !id.special() && row is Some && row->0.first_failure() == Some(e),
            },
    {
        if id.is_special() {
            return Err(LoadError::SpecialMsgId);
        }
        match row {
            Some(row) => match Message::from_row(row) {
                Ok(msg) => Ok(msg),
                Err(e) => Err(LoadError::Row(e)),
            },
            None => Err(LoadError::NotFound),
        }
    }

    /// The statements that delete a message that was loaded, and the receipts for it. Nothing is
    /// deleted where there is no message.
    pub fn delete_from_db(loaded: Option<&Message>) -> (r: Vec<Statement>)
        ensures
            r@ == (match loaded {
                Some(msg) => seq![
                    Statement::DeleteMessage(msg.id),
                    Statement::DeleteReceipts(msg.id),
                ],
                None => Seq::<Statement>::empty(),
            }),
    {
        match loaded {
            Some(msg) => vec![Statement::DeleteMessage(msg.id), Statement::DeleteReceipts(msg.id)],
            None => Vec::new(),
        }
    }
}

/// Parameters that were saved are loaded as they were, if each value is of one line and has no
/// white space at its ends.
pub proof fn saved_params_are_loaded(
    msg: Message,
    saved: Statement,
    row: MessageRow,
    loaded: Message,
)
    requires
        message::saves_param(saved, msg),
        forall|p: Param| msg.param@.contains_key(p) ==> stored::storable(#[trigger] msg.param@[p]),
        row.param.as_text() == Ok::<Seq<char>, FromSqlError>(saved->SaveParam_param@),
        row.holds(loaded),
    ensures
        loaded.param@ == msg.param@,
{
    stored::stored_params_round_trip(msg.param@);
}

/// A loaded message says of each column what the column says: the numbers and the times as they
/// stand, and that it is starred or hidden unless the column is zero.
pub proof fn columns_are_loaded_as_they_stand(row: MessageRow, msg: Message)
    requires
        row.holds(msg),
    ensures
        row.id == ColumnValue::Integer(msg.id.0 as i64),
        row.server_uid == ColumnValue::Integer(msg.server_uid as i64),
        row.chat_id == ColumnValue::Integer(msg.chat_id as i64),
        row.from_id == ColumnValue::Integer(msg.from_id as i64),
        row.to_id == ColumnValue::Integer(msg.to_id as i64),
        row.timestamp == ColumnValue::Integer(msg.timestamp_sort),
        row.timestamp_sent == ColumnValue::Integer(msg.timestamp_sent),
        row.timestamp_rcvd == ColumnValue::Integer(msg.timestamp_rcvd),
        row.msgrmsg == ColumnValue::Integer(msg.is_dc_message as i64),
        row.location == ColumnValue::Integer(msg.location_id as i64),
        row.starred is Integer,
        msg.starred <==> row.starred != ColumnValue::Integer(0),
        row.hidden is Integer,
        msg.hidden <==> row.hidden != ColumnValue::Integer(0),
        row.typ is Integer,
        msg.type_0 == Viewtype::of_code(row.typ->Integer_0 as int),
        row.state is Integer,
        msg.state == MessageState::of_code(row.state->Integer_0 as int),
        match row.blocked {
            ColumnValue::Null => msg.chat_blocked == Blocked::Not,
            ColumnValue::Integer(n) => msg.chat_blocked == Blocked::of_code(n as int),
            _ => false,
        },
{
}

/// A loaded message has the texts of its row: the Message-ID, the one that it answers and the folder
/// if they are there, and always something to show, with a replacement for what is not UTF-8.
pub proof fn texts_are_loaded_as_they_stand(row: MessageRow, msg: Message)
    requires
        row.holds(msg),
    ensures
        row.rfc724mid is Text && vstd::utf8::valid_utf8(row.rfc724mid->Text_0@),
        msg.rfc724_mid@ == vstd::utf8::decode_utf8(row.rfc724mid->Text_0@),
        match msg.in_reply_to {
            Some(s) => row.mime_in_reply_to is Text && s@ == vstd::utf8::decode_utf8(
                row.mime_in_reply_to->Text_0@,
            ),
            None => row.mime_in_reply_to is Null,
        },
        match msg.server_folder {
            Some(s) => row.server_folder is Text && s@ == vstd::utf8::decode_utf8(
                row.server_folder->Text_0@,
            ),
            None => row.server_folder is Null,
        },
        msg.text is Some,
        msg.text->0@ == (match row.txt {
            ColumnValue::Text(bytes) => if vstd::utf8::valid_utf8(bytes@) {
                vstd::utf8::decode_utf8(bytes@)
            } else {
                text::lossy_text(bytes@)
            },
            _ => Seq::empty(),
        }),
        row.param is Text && vstd::utf8::valid_utf8(row.param->Text_0@),
        msg.param@ == (match stored::parsed_params(vstd::utf8::decode_utf8(row.param->Text_0@)) {
            Some(m) => m,
            None => Map::empty(),
        }),
{
}

/// Whether a column of 32 bits without a sign can be loaded is a matter of its type and range, of a
/// text column of its encoding; what a message says is loaded from anything. A row is loaded just if
/// each column can be.
pub proof fn rows_that_are_loaded(row: MessageRow)
    ensures
        row.first_failure() is None <==> {
            &&& row.id matches ColumnValue::Integer(n) && 0 <= n <= 4294967295
            &&& row.server_uid matches ColumnValue::Integer(n) && 0 <= n <= 4294967295
            &&& row.chat_id matches ColumnValue::Integer(n) && 0 <= n <= 4294967295
            &&& row.from_id matches ColumnValue::Integer(n) && 0 <= n <= 4294967295
            &&& row.to_id matches ColumnValue::Integer(n) && 0 <= n <= 4294967295
            &&& row.msgrmsg matches ColumnValue::Integer(n) && 0 <= n <= 4294967295
            &&& row.location matches ColumnValue::Integer(n) && 0 <= n <= 4294967295
            &&& row.timestamp is Integer
            &&& row.timestamp_sent is Integer
            &&& row.timestamp_rcvd is Integer
            &&& row.typ is Integer
            &&& row.state is Integer
            &&& row.starred is Integer
            &&& row.hidden is Integer
            &&& row.blocked is Integer || row.blocked is Null
            &&& row.rfc724mid matches ColumnValue::Text(bytes) && vstd::utf8::valid_utf8(bytes@)
            &&& row.param matches ColumnValue::Text(bytes) && vstd::utf8::valid_utf8(bytes@)
            &&& row.mime_in_reply_to is Null || (row.mime_in_reply_to matches ColumnValue::Text(
                bytes,
            ) && vstd::utf8::valid_utf8(bytes@))
            &&& row.server_folder is Null || (row.server_folder matches ColumnValue::Text(bytes)
                && vstd::utf8::valid_utf8(bytes@))
        },
{
}

/// What starring a message stores is what is loaded: a star if it was starred, and none if the star
/// was taken away. A message that is stored as hidden, with a one, is loaded as hidden.
pub proof fn stars_are_loaded(
    star: bool,
    hidden: bool,
    msg_id: MsgId,
    row: MessageRow,
    loaded: Message,
)
    requires
        (Statement::SetStarred { star, msg_id }).filled_in()[0] == sql::Bound::Integer(
            row.starred->Integer_0 as int,
        ),
        row.hidden->Integer_0 == (if hidden {
            1i64
        } else {
            0i64
        }),
        row.holds(loaded),
    ensures
        loaded.starred == star,
        loaded.hidden == hidden,
{
    columns_are_loaded_as_they_stand(row, loaded);
}

/// The state that is stored for a message is the state that it is loaded with.
pub proof fn stored_states_are_loaded(
    state: MessageState,
    msg_id: MsgId,
    row: MessageRow,
    loaded: Message,
)
    requires
        (Statement::SetState { state, msg_id }).filled_in()[0] == sql::Bound::Integer(
            row.state->Integer_0 as int,
        ),
        row.holds(loaded),
    ensures
        loaded.state == state,
{
}

/// A message that was moved to the trash is loaded from there, and any other chat that fits 31 bits
/// is loaded as it was stored.
pub proof fn stored_chats_are_loaded(chat_id: u32, msg_id: MsgId, row: MessageRow, loaded: Message)
    requires
        chat_id <= 0x7fff_ffff,
        (Statement::SetChatId { chat_id, msg_id }).filled_in()[0] == sql::Bound::Integer(
            row.chat_id->Integer_0 as int,
        ),
        row.holds(loaded),
    ensures
        loaded.chat_id == chat_id,
{
}

/// Of several columns that cannot be read, the first one is named, in the order in which a message is
/// asked for.
pub proof fn the_first_bad_column_is_named(row: MessageRow)
    ensures
        row.first_failure() == (if let Err(e) = MsgId::of_column(row.id) {
            Some(e)
        } else if let Err(e) = row.rfc724mid.as_text() {
            Some(e)
        } else if let Err(e) = row.mime_in_reply_to.as_optional_text() {
            Some(e)
        } else if let Err(e) = row.server_folder.as_optional_text() {
            Some(e)
        } else if let Err(e) = row.server_uid.as_number() {
            Some(e)
        } else if let Err(e) = row.chat_id.as_number() {
            Some(e)
        } else if let Err(e) = row.from_id.as_number() {
            Some(e)
        } else if let Err(e) = row.to_id.as_number() {
            Some(e)
        } else if let Err(e) = row.timestamp.as_int() {
            Some(e)
        } else if let Err(e) = row.timestamp_sent.as_int() {
            Some(e)
        } else if let Err(e) = row.timestamp_rcvd.as_int() {
            Some(e)
        } else if let Err(e) = row.typ.as_viewtype() {
            Some(e)
        } else if let Err(e) = row.state.as_state() {
            Some(e)
        } else if let Err(e) = row.msgrmsg.as_number() {
            Some(e)
        } else if let Err(e) = row.param.as_text() {
            Some(e)
        } else if let Err(e) = row.starred.as_truth() {
            Some(e)
        } else if let Err(e) = row.hidden.as_truth() {
            Some(e)
        } else if let Err(e) = row.location.as_number() {
            Some(e)
        } else if let Err(e) = row.blocked.as_blocked() {
            Some(e)
        } else {
            None
        }),
{
}

} // verus!
