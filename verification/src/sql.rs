//! Database values and the statements that are put to the database.
use vstd::prelude::*;

use crate::msgid::{InvalidMsgId, MsgId};
use crate::state::MessageState;

verus! {

/// A value in a row of the database.
#[derive(Debug, Clone)]
pub enum ColumnValue {
    /// No value.
    Null,
    /// An integer.
    Integer(i64),
    /// A floating point number; what it is is never asked.
    Real,
    /// Text, as it is stored.
    Text(Vec<u8>),
    /// Bytes.
    Blob(Vec<u8>),
}

/// Why a database value is not what was asked for.
#[derive(Debug, Clone, Copy, PartialEq, Eq, Structural)]
pub enum FromSqlError {
    /// The value is of another type.
    InvalidType,
    /// The value is an integer that does not fit.
    OutOfRange(i64),
    /// The value is a text that is not UTF-8.
    InvalidUtf8,
}

/// A number as the 32-bit signed integer of the same bits.
pub open spec fn wrapped(n: u32) -> int {
    if n <= i32::MAX {
        n as int
    } else {
        n - 0x1_0000_0000
    }
}

/// A number as the 32-bit signed integer of the same bits.
pub fn wrap(n: u32) -> (r: i32)
    ensures
        r == wrapped(n),
{
    if n <= 0x7fff_ffff {
        n as i32
    } else {
        (n as i64 - 0x1_0000_0000) as i32
    }
}

/// The number of the same bits as a 32-bit signed integer.
pub open spec fn unwrapped(i: i32) -> u32 {
    if i >= 0 {
        i as u32
    } else {
        (i + 0x1_0000_0000) as u32
    }
}

/// The number of the same bits as a 32-bit signed integer.
pub fn unwrap(i: i32) -> (r: u32)
    ensures
        r == unwrapped(i),
{
    if i >= 0 {
        i as u32
    } else {
        (i as i64 + 0x1_0000_0000) as u32
    }
}

/// A number that is stored as a signed integer of the same bits is read back as it was.
pub proof fn wrapped_round_trip(n: u32)
    ensures
        unwrapped(wrapped(n) as i32) == n,
{
}

/// What is filled in for a question mark of a statement.
#[derive(Debug, Clone)]
enum Parameter {
    Integer(i64),
    Text(String),
    Id(MsgId),
}

/// What is filled in for a question mark of a statement, as a mathematical value.
pub ghost enum Bound {
    /// An integer.
    Integer(int),
    /// A text.
    Text(Seq<char>),
    /// The identifier of a message.
    Id(MsgId),
}

spec fn shown(parameters: Seq<Parameter>) -> Seq<Bound> {
    Seq::new(
        parameters.len(),
        |i: int|
            match parameters[i] {
                Parameter::Integer(n) => Bound::Integer(n as int),
                Parameter::Text(s) => Bound::Text(s@),
                Parameter::Id(id) => Bound::Id(id),
            },
    )
}

/// A value that is handed to the database.
#[derive(Debug, Clone)]
pub enum SqlValue {
    /// An integer.
    Integer(i64),
    /// A text.
    Text(String),
}

/// Whether `value` is what the database is to be handed for `bound`. No reserved identifier is
/// ever handed to it.
pub open spec fn bound_as(bound: Bound, value: SqlValue) -> bool {
    match bound {
        Bound::Integer(n) => value matches SqlValue::Integer(v) && v == n,
        Bound::Text(s) => value matches SqlValue::Text(v) && v@ == s,
        Bound::Id(id) => !id.special() && (value matches SqlValue::Integer(v) && v == id.0),
    }
}

/// Whether a reserved identifier would be filled in.
pub open spec fn binds_special(bounds: Seq<Bound>) -> bool {
    exists|i: int|
        0 <= i < bounds.len() && ((#[trigger] bounds[i]) matches Bound::Id(id) && id.special())
}

/// Text of [`Statement::LoadMessage`].
pub const LOAD_MESSAGE_SQL: &'static str = "SELECT    m.id AS id,    rfc724_mid AS rfc724mid,    m.mime_in_reply_to AS mime_in_reply_to,    m.server_folder AS server_folder,    m.server_uid AS server_uid,    m.chat_id AS chat_id,    m.from_id AS from_id,    m.to_id AS to_id,    m.timestamp AS timestamp,    m.timestamp_sent AS timestamp_sent,    m.timestamp_rcvd AS timestamp_rcvd,    m.type AS type,    m.state AS state,    m.msgrmsg AS msgrmsg,    m.txt AS txt,    m.param AS param,    m.starred AS starred,    m.hidden AS hidden,    m.location_id AS location,    c.blocked AS blocked FROM msgs m LEFT JOIN chats c ON c.id=m.chat_id WHERE m.id=?;";

/// Text of [`Statement::DeleteMessage`].
pub const DELETE_MESSAGE_SQL: &'static str = "DELETE FROM msgs WHERE id=?;";

/// Text of [`Statement::DeleteReceipts`].
pub const DELETE_RECEIPTS_SQL: &'static str = "DELETE FROM msgs_mdns WHERE msg_id=?;";

/// Text of [`Statement::SaveParam`].
pub const SAVE_PARAM_SQL: &'static str = "UPDATE msgs SET param=? WHERE id=?;";

/// Text of [`Statement::RawText`].
pub const RAW_TEXT_SQL: &'static str = "SELECT txt_raw FROM msgs WHERE id=?;";

/// Text of [`Statement::Receipts`].
pub const RECEIPTS_SQL: &'static str = "SELECT contact_id, timestamp_sent FROM msgs_mdns WHERE msg_id=?;";

/// Text of [`Statement::MimeHeaders`].
pub const MIME_HEADERS_SQL: &'static str = "SELECT mime_headers FROM msgs WHERE id=?;";

/// Text of [`Statement::SetChatId`].
pub const SET_CHAT_ID_SQL: &'static str = "UPDATE msgs SET chat_id=? WHERE id=?;";

/// Text of [`Statement::DeletePoiLocation`].
pub const DELETE_POI_LOCATION_SQL: &'static str = "DELETE FROM locations WHERE independent = 1 AND id=?;";

/// Text of [`Statement::SeenState`].
pub const SEEN_STATE_SQL: &'static str = "SELECT    m.state AS state,    c.blocked AS blocked FROM msgs m LEFT JOIN chats c ON c.id=m.chat_id WHERE m.id=? AND m.chat_id>9";

/// Text of [`Statement::SetState`].
pub const SET_STATE_SQL: &'static str = "UPDATE msgs SET state=? WHERE id=?;";

/// Text of [`Statement::SetStarred`].
pub const SET_STARRED_SQL: &'static str = "UPDATE msgs SET starred=? WHERE id=?;";

/// Text of [`Statement::ChatIdOf`].
pub const CHAT_ID_OF_SQL: &'static str = "SELECT chat_id FROM msgs WHERE id=?;";

/// Text of [`Statement::SetFailed`].
pub const SET_FAILED_SQL: &'static str = "UPDATE msgs SET state=?, param=? WHERE id=?;";

/// Text of [`Statement::FindSent`].
pub const FIND_SENT_SQL: &'static str = "SELECT    m.id AS msg_id,    c.id AS chat_id,    c.type AS type,    m.state AS state FROM msgs m LEFT JOIN chats c ON m.chat_id=c.id WHERE rfc724_mid=? AND from_id=1 ORDER BY m.id;";

/// Text of [`Statement::HasReceipt`].
pub const HAS_RECEIPT_SQL: &'static str = "SELECT contact_id FROM msgs_mdns WHERE msg_id=? AND contact_id=?;";

/// Text of [`Statement::AddReceipt`].
pub const ADD_RECEIPT_SQL: &'static str = "INSERT INTO msgs_mdns (msg_id, contact_id, timestamp_sent) VALUES (?, ?, ?);";

/// Text of [`Statement::CountReceipts`].
pub const COUNT_RECEIPTS_SQL: &'static str = "SELECT COUNT(*) FROM msgs_mdns WHERE msg_id=?;";

/// Text of [`Statement::RealMsgCount`].
pub const REAL_MSG_COUNT_SQL: &'static str = "SELECT COUNT(*) FROM msgs m  LEFT JOIN chats c ON c.id=m.chat_id WHERE m.id>9 AND m.chat_id>9 AND c.blocked=0;";

/// Text of [`Statement::DeaddropMsgCount`].
pub const DEADDROP_MSG_COUNT_SQL: &'static str = "SELECT COUNT(*) FROM msgs m LEFT JOIN chats c ON c.id=m.chat_id WHERE c.blocked=2;";

/// Text of [`Statement::MidCount`].
pub const MID_COUNT_SQL: &'static str = "SELECT COUNT(*) FROM msgs WHERE rfc724_mid=?;";

/// Text of [`Statement::MidLookup`].
pub const MID_LOOKUP_SQL: &'static str = "SELECT server_folder, server_uid, id FROM msgs WHERE rfc724_mid=?";

/// Text of [`Statement::SetServerUid`].
pub const SET_SERVER_UID_SQL: &'static str = "UPDATE msgs SET server_folder=?, server_uid=? WHERE rfc724_mid=?;";

/// What is asked of the database.
#[derive(Debug, Clone)]
pub enum Statement {
    /// A message with what its chat says of it.
    LoadMessage(MsgId),
    /// Deletes a message.
    DeleteMessage(MsgId),
    /// Deletes the receipts for a message.
    DeleteReceipts(MsgId),
    /// Stores the parameters of a message.
    SaveParam {
        /// The stored text of the parameters.
        param: String,
        /// The message.
        msg_id: MsgId,
    },
    /// The text of a message as it came.
    RawText(MsgId),
    /// Who read a message, and when.
    Receipts(MsgId),
    /// The headers that a message came with.
    MimeHeaders(MsgId),
    /// Moves a message to a chat.
    SetChatId {
        /// The chat.
        chat_id: u32,
        /// The message.
        msg_id: MsgId,
    },
    /// Deletes a location that was set by hand.
    DeletePoiLocation(u32),
    /// The state of a message in a real chat, and whether that is blocked.
    SeenState(MsgId),
    /// Sets the state of a message.
    SetState {
        /// The state.
        state: MessageState,
        /// The message.
        msg_id: MsgId,
    },
    /// Stars a message, or takes the star away.
    SetStarred {
        /// Whether it is starred.
        star: bool,
        /// The message.
        msg_id: MsgId,
    },
    /// The chat of a message.
    ChatIdOf(MsgId),
    /// Stores the state and the parameters of a message.
    SetFailed {
        /// The state.
        state: MessageState,
        /// The stored text of the parameters.
        param: String,
        /// The message.
        msg_id: MsgId,
    },
    /// The message of the user that has a Message-ID, and its chat.
    FindSent(String),
    /// Whether a contact's receipt for a message is known.
    HasReceipt {
        /// The message.
        msg_id: MsgId,
        /// The contact.
        contact_id: u32,
    },
    /// Stores a contact's receipt for a message.
    AddReceipt {
        /// The message.
        msg_id: MsgId,
        /// The contact.
        contact_id: u32,
        /// When the receipt was sent.
        timestamp_sent: i64,
    },
    /// The number of receipts for a message.
    CountReceipts(MsgId),
    /// The number of messages in real chats.
    RealMsgCount,
    /// The number of messages of unknown senders.
    DeaddropMsgCount,
    /// The number of messages with a Message-ID.
    MidCount(String),
    /// Where a message with a Message-ID was last seen.
    MidLookup(String),
    /// Stores where the messages with a Message-ID were last seen.
    SetServerUid {
        /// The folder.
        server_folder: String,
        /// The number in the folder.
        server_uid: u32,
        /// The Message-ID.
        rfc724_mid: String,
    },
}

impl Statement {
    /// The text of the statement.
    pub open spec fn text(self) -> Seq<char> {
        match self {
            Statement::LoadMessage(..) => LOAD_MESSAGE_SQL@,
            Statement::DeleteMessage(..) => DELETE_MESSAGE_SQL@,
            Statement::DeleteReceipts(..) => DELETE_RECEIPTS_SQL@,
            Statement::SaveParam { .. } => SAVE_PARAM_SQL@,
            Statement::RawText(..) => RAW_TEXT_SQL@,
            Statement::Receipts(..) => RECEIPTS_SQL@,
            Statement::MimeHeaders(..) => MIME_HEADERS_SQL@,
            Statement::SetChatId { .. } => SET_CHAT_ID_SQL@,
            Statement::DeletePoiLocation(..) => DELETE_POI_LOCATION_SQL@,
            Statement::SeenState(..) => SEEN_STATE_SQL@,
            Statement::SetState { .. } => SET_STATE_SQL@,
            Statement::SetStarred { .. } => SET_STARRED_SQL@,
            Statement::ChatIdOf(..) => CHAT_ID_OF_SQL@,
            Statement::SetFailed { .. } => SET_FAILED_SQL@,
            Statement::FindSent(..) => FIND_SENT_SQL@,
            Statement::HasReceipt { .. } => HAS_RECEIPT_SQL@,
            Statement::AddReceipt { .. } => ADD_RECEIPT_SQL@,
            Statement::CountReceipts(..) => COUNT_RECEIPTS_SQL@,
            Statement::RealMsgCount => REAL_MSG_COUNT_SQL@,
            Statement::DeaddropMsgCount => DEADDROP_MSG_COUNT_SQL@,
            Statement::MidCount(..) => MID_COUNT_SQL@,
            Statement::MidLookup(..) => MID_LOOKUP_SQL@,
            Statement::SetServerUid { .. } => SET_SERVER_UID_SQL@,
        }
    }

    /// What is filled in for the question marks of the statement, in order.
    pub open spec fn filled_in(self) -> Seq<Bound> {
        match self {
            Statement::LoadMessage(v) => seq![Bound::Id(v)],
            Statement::DeleteMessage(v) => seq![Bound::Id(v)],
            Statement::DeleteReceipts(v) => seq![Bound::Id(v)],
            Statement::SaveParam { param, msg_id } => seq![Bound::Text(param@), Bound::Id(msg_id)],
            Statement::RawText(v) => seq![Bound::Id(v)],
            Statement::Receipts(v) => seq![Bound::Id(v)],
            Statement::MimeHeaders(v) => seq![Bound::Id(v)],
            Statement::SetChatId { chat_id, msg_id } => seq![Bound::Integer(wrapped(chat_id)), Bound::Id(msg_id)],
            Statement::DeletePoiLocation(v) => seq![Bound::Integer(wrapped(v))],
            Statement::SeenState(v) => seq![Bound::Id(v)],
            Statement::SetState { state, msg_id } => seq![Bound::Integer(state.code()), Bound::Id(msg_id)],
            Statement::SetStarred { star, msg_id } => seq![Bound::Integer(if star { 1 } else { 0 }), Bound::Id(msg_id)],
            Statement::ChatIdOf(v) => seq![Bound::Id(v)],
            Statement::SetFailed { state, param, msg_id } => seq![Bound::Integer(state.code()), Bound::Text(param@), Bound::Id(msg_id)],
            Statement::FindSent(v) => seq![Bound::Text(v@)],
            Statement::HasReceipt { msg_id, contact_id } => seq![Bound::Id(msg_id), Bound::Integer(wrapped(contact_id))],
            Statement::AddReceipt { msg_id, contact_id, timestamp_sent } => seq![Bound::Id(msg_id), Bound::Integer(wrapped(contact_id)), Bound::Integer(timestamp_sent as int)],
            Statement::CountReceipts(v) => seq![Bound::Id(v)],
            Statement::RealMsgCount => Seq::empty(),
            Statement::DeaddropMsgCount => Seq::empty(),
            Statement::MidCount(v) => seq![Bound::Text(v@)],
            Statement::MidLookup(v) => seq![Bound::Text(v@)],
            Statement::SetServerUid { server_folder, server_uid, rfc724_mid } => seq![Bound::Text(server_folder@), Bound::Integer(server_uid as int), Bound::Text(rfc724_mid@)],
        }
    }

    /// The text of the statement.
    pub fn sql(&self) -> (r: &'static str)
        ensures
            r@ == self.text(),
    {
        match self {
            Statement::LoadMessage(..) => LOAD_MESSAGE_SQL,
            Statement::DeleteMessage(..) => DELETE_MESSAGE_SQL,
            Statement::DeleteReceipts(..) => DELETE_RECEIPTS_SQL,
            Statement::SaveParam { .. } => SAVE_PARAM_SQL,
            Statement::RawText(..) => RAW_TEXT_SQL,
            Statement::Receipts(..) => RECEIPTS_SQL,
            Statement::MimeHeaders(..) => MIME_HEADERS_SQL,
            Statement::SetChatId { .. } => SET_CHAT_ID_SQL,
            Statement::DeletePoiLocation(..) => DELETE_POI_LOCATION_SQL,
            Statement::SeenState(..) => SEEN_STATE_SQL,
            Statement::SetState { .. } => SET_STATE_SQL,
            Statement::SetStarred { .. } => SET_STARRED_SQL,
            Statement::ChatIdOf(..) => CHAT_ID_OF_SQL,
            Statement::SetFailed { .. } => SET_FAILED_SQL,
            Statement::FindSent(..) => FIND_SENT_SQL,
            Statement::HasReceipt { .. } => HAS_RECEIPT_SQL,
            Statement::AddReceipt { .. } => ADD_RECEIPT_SQL,
            Statement::CountReceipts(..) => COUNT_RECEIPTS_SQL,
            Statement::RealMsgCount => REAL_MSG_COUNT_SQL,
            Statement::DeaddropMsgCount => DEADDROP_MSG_COUNT_SQL,
            Statement::MidCount(..) => MID_COUNT_SQL,
            Statement::MidLookup(..) => MID_LOOKUP_SQL,
            Statement::SetServerUid { .. } => SET_SERVER_UID_SQL,
        }
    }

    fn parameters(&self) -> (r: Vec<Parameter>)
        ensures
            shown(r@) == self.filled_in(),
    {
        let r: Vec<Parameter> = match self {
            Statement::LoadMessage(v) => vec![Parameter::Id(*v)],
            Statement::DeleteMessage(v) => vec![Parameter::Id(*v)],
            Statement::DeleteReceipts(v) => vec![Parameter::Id(*v)],
            Statement::SaveParam { param, msg_id } => vec![Parameter::Text(param.clone()), Parameter::Id(*msg_id)],
            Statement::RawText(v) => vec![Parameter::Id(*v)],
            Statement::Receipts(v) => vec![Parameter::Id(*v)],
            Statement::MimeHeaders(v) => vec![Parameter::Id(*v)],
            Statement::SetChatId { chat_id, msg_id } => vec![Parameter::Integer(wrap(*chat_id) as i64), Parameter::Id(*msg_id)],
            Statement::DeletePoiLocation(v) => vec![Parameter::Integer(wrap(*v) as i64)],
            Statement::SeenState(v) => vec![Parameter::Id(*v)],
            Statement::SetState { state, msg_id } => vec![Parameter::Integer(state.to_i32() as i64), Parameter::Id(*msg_id)],
            Statement::SetStarred { star, msg_id } => vec![Parameter::Integer(if *star { 1 } else { 0 }), Parameter::Id(*msg_id)],
            Statement::ChatIdOf(v) => vec![Parameter::Id(*v)],
            Statement::SetFailed { state, param, msg_id } => vec![Parameter::Integer(state.to_i32() as i64), Parameter::Text(param.clone()), Parameter::Id(*msg_id)],
            Statement::FindSent(v) => vec![Parameter::Text(v.clone())],
            Statement::HasReceipt { msg_id, contact_id } => vec![Parameter::Id(*msg_id), Parameter::Integer(wrap(*contact_id) as i64)],
            Statement::AddReceipt { msg_id, contact_id, timestamp_sent } => vec![Parameter::Id(*msg_id), Parameter::Integer(wrap(*contact_id) as i64), Parameter::Integer(*timestamp_sent)],
            Statement::CountReceipts(v) => vec![Parameter::Id(*v)],
            Statement::RealMsgCount => vec![],
            Statement::DeaddropMsgCount => vec![],
            Statement::MidCount(v) => vec![Parameter::Text(v.clone())],
            Statement::MidLookup(v) => vec![Parameter::Text(v.clone())],
            Statement::SetServerUid { server_folder, server_uid, rfc724_mid } => vec![Parameter::Text(server_folder.clone()), Parameter::Integer(*server_uid as i64), Parameter::Text(rfc724_mid.clone())],
        };
        assert(shown(r@) =~= self.filled_in());
        r
    }
}

impl Statement {
    /// The values for the question marks of the statement, in order.
    ///
    /// # Errors
    ///
    /// A statement that is about a reserved identifier cannot be put to the database.
    pub fn params(&self) -> (r: Result<Vec<SqlValue>, InvalidMsgId>)
        ensures
            match r {
                Ok(values) => {
                    &&& !binds_special(self.filled_in())
                    &&& values@.len() == self.filled_in().len()
                    &&& forall|i: int|
                        0 <= i < values@.len() ==> bound_as(
                            self.filled_in()[i],
                            #[trigger] values@[i],
                        )
                },
                Err(_) => binds_special(self.filled_in()),
            },
    {
        let parameters: Vec<Parameter> = self.parameters();
        let ghost bounds = self.filled_in();
        let mut out: Vec<SqlValue> = Vec::new();
        let mut i: usize = 0;
        while i < parameters.len()
            invariant
                i <= parameters@.len(),
                bounds == shown(parameters@),
                bounds == self.filled_in(),
                out@.len() == i,
                forall|j: int| 0 <= j < i ==> bound_as(bounds[j], #[trigger] out@[j]),
            decreases parameters.len() - i,
        {
            let value: SqlValue = match &parameters[i] {
                Parameter::Integer(n) => SqlValue::Integer(*n),
                Parameter::Text(s) => SqlValue::Text(s.clone()),
                Parameter::Id(id) => match id.to_sql() {
                    Ok(n) => SqlValue::Integer(n),
                    Err(e) => {
                        assert(bounds[i as int] == Bound::Id(*id));
                        return Err(e);
                    },
                },
            };
            out.push(value);
            i += 1;
        }
        assert(!binds_special(bounds)) by {
            if binds_special(bounds) {
                let k = choose|k: int|
                    0 <= k < bounds.len() && ((#[trigger] bounds[k]) matches Bound::Id(id)
                        && id.special());
                assert(bound_as(bounds[k], out@[k]));
            }
        }
        Ok(out)
    }
}

impl Statement {
    /// The message that the statement is about, if it is about one by its identifier.
    pub open spec fn subject(self) -> Option<MsgId> {
        match self {
            Statement::LoadMessage(msg_id) => Some(msg_id),
            Statement::DeleteMessage(msg_id) => Some(msg_id),
            Statement::DeleteReceipts(msg_id) => Some(msg_id),
            Statement::RawText(msg_id) => Some(msg_id),
            Statement::Receipts(msg_id) => Some(msg_id),
            Statement::MimeHeaders(msg_id) => Some(msg_id),
            Statement::SeenState(msg_id) => Some(msg_id),
            Statement::ChatIdOf(msg_id) => Some(msg_id),
            Statement::CountReceipts(msg_id) => Some(msg_id),
            Statement::SaveParam { msg_id, .. } => Some(msg_id),
            Statement::SetChatId { msg_id, .. } => Some(msg_id),
            Statement::SetState { msg_id, .. } => Some(msg_id),
            Statement::SetStarred { msg_id, .. } => Some(msg_id),
            Statement::SetFailed { msg_id, .. } => Some(msg_id),
            Statement::HasReceipt { msg_id, .. } => Some(msg_id),
            Statement::AddReceipt { msg_id, .. } => Some(msg_id),
            _ => None,
        }
    }
}

/// Reserved identifiers are never handed to the database: a statement about one cannot be put to
/// it.
pub proof fn reserved_ids_stay_out(statement: Statement, id: MsgId)
    requires
        statement.subject() == Some(id),
        id.special(),
    ensures
        binds_special(statement.filled_in()),
{
    let i = match statement {
        Statement::SaveParam { .. } | Statement::SetChatId { .. } | Statement::SetState { .. }
        | Statement::SetStarred { .. } => 1int,
        Statement::SetFailed { .. } => 2,
        _ => 0,
    };
    assert(statement.filled_in()[i] == Bound::Id(id));
}

/// What each statement asks of the database, word for word.
pub proof fn statement_texts(statement: Statement)
    ensures
        statement.text() == (match statement {
            Statement::LoadMessage(..) => "SELECT    m.id AS id,    rfc724_mid AS rfc724mid,    m.mime_in_reply_to AS mime_in_reply_to,    m.server_folder AS server_folder,    m.server_uid AS server_uid,    m.chat_id AS chat_id,    m.from_id AS from_id,    m.to_id AS to_id,    m.timestamp AS timestamp,    m.timestamp_sent AS timestamp_sent,    m.timestamp_rcvd AS timestamp_rcvd,    m.type AS type,    m.state AS state,    m.msgrmsg AS msgrmsg,    m.txt AS txt,    m.param AS param,    m.starred AS starred,    m.hidden AS hidden,    m.location_id AS location,    c.blocked AS blocked FROM msgs m LEFT JOIN chats c ON c.id=m.chat_id WHERE m.id=?;"@,
            Statement::DeleteMessage(..) => "DELETE FROM msgs WHERE id=?;"@,
            Statement::DeleteReceipts(..) => "DELETE FROM msgs_mdns WHERE msg_id=?;"@,
            Statement::SaveParam { .. } => "UPDATE msgs SET param=? WHERE id=?;"@,
            Statement::RawText(..) => "SELECT txt_raw FROM msgs WHERE id=?;"@,
            Statement::Receipts(..) => "SELECT contact_id, timestamp_sent FROM msgs_mdns WHERE msg_id=?;"@,
            Statement::MimeHeaders(..) => "SELECT mime_headers FROM msgs WHERE id=?;"@,
            Statement::SetChatId { .. } => "UPDATE msgs SET chat_id=? WHERE id=?;"@,
            Statement::DeletePoiLocation(..) => "DELETE FROM locations WHERE independent = 1 AND id=?;"@,
            Statement::SeenState(..) => "SELECT    m.state AS state,    c.blocked AS blocked FROM msgs m LEFT JOIN chats c ON c.id=m.chat_id WHERE m.id=? AND m.chat_id>9"@,
            Statement::SetState { .. } => "UPDATE msgs SET state=? WHERE id=?;"@,
            Statement::SetStarred { .. } => "UPDATE msgs SET starred=? WHERE id=?;"@,
            Statement::ChatIdOf(..) => "SELECT chat_id FROM msgs WHERE id=?;"@,
            Statement::SetFailed { .. } => "UPDATE msgs SET state=?, param=? WHERE id=?;"@,
            Statement::FindSent(..) => "SELECT    m.id AS msg_id,    c.id AS chat_id,    c.type AS type,    m.state AS state FROM msgs m LEFT JOIN chats c ON m.chat_id=c.id WHERE rfc724_mid=? AND from_id=1 ORDER BY m.id;"@,
            Statement::HasReceipt { .. } => "SELECT contact_id FROM msgs_mdns WHERE msg_id=? AND contact_id=?;"@,
            Statement::AddReceipt { .. } => "INSERT INTO msgs_mdns (msg_id, contact_id, timestamp_sent) VALUES (?, ?, ?);"@,
            Statement::CountReceipts(..) => "SELECT COUNT(*) FROM msgs_mdns WHERE msg_id=?;"@,
            Statement::RealMsgCount => "SELECT COUNT(*) FROM msgs m  LEFT JOIN chats c ON c.id=m.chat_id WHERE m.id>9 AND m.chat_id>9 AND c.blocked=0;"@,
            Statement::DeaddropMsgCount => "SELECT COUNT(*) FROM msgs m LEFT JOIN chats c ON c.id=m.chat_id WHERE c.blocked=2;"@,
            Statement::MidCount(..) => "SELECT COUNT(*) FROM msgs WHERE rfc724_mid=?;"@,
            Statement::MidLookup(..) => "SELECT server_folder, server_uid, id FROM msgs WHERE rfc724_mid=?"@,
            Statement::SetServerUid { .. } => "UPDATE msgs SET server_folder=?, server_uid=? WHERE rfc724_mid=?;"@,
        }),
{
}

/// A number is stored as the signed integer of the same bits: as itself if it is below 2^31, and
/// less 2^32 otherwise.
pub proof fn wrapped_numbers(n: u32)
    ensures
        n < 0x8000_0000 ==> wrapped(n) == n,
        n >= 0x8000_0000 ==> wrapped(n) == n - 0x1_0000_0000,
{
}

/// A statement that only asks for a message, or deletes it, has one question mark, for the
/// identifier.
pub proof fn statements_on_one_message(statement: Statement, id: MsgId)
    requires
        statement == Statement::LoadMessage(id) || statement == Statement::DeleteMessage(id)
            || statement == Statement::DeleteReceipts(id) || statement == Statement::RawText(id)
            || statement == Statement::Receipts(id) || statement == Statement::MimeHeaders(id)
            || statement == Statement::SeenState(id) || statement == Statement::ChatIdOf(id)
            || statement == Statement::CountReceipts(id),
    ensures
        statement.filled_in() == seq![Bound::Id(id)],
{
}

/// A statement that changes a message has the new values for its first question marks, in the order
/// in which its text names them, and the identifier for its last one.
pub proof fn statements_that_change_a_message(
    id: MsgId,
    chat_id: u32,
    state: MessageState,
    star: bool,
    param: String,
)
    ensures
        (Statement::SaveParam { param, msg_id: id }).filled_in() == seq![
            Bound::Text(param@),
            Bound::Id(id),
        ],
        (Statement::SetChatId { chat_id, msg_id: id }).filled_in() == seq![
            Bound::Integer(wrapped(chat_id)),
            Bound::Id(id),
        ],
        (Statement::SetState { state, msg_id: id }).filled_in() == seq![
            Bound::Integer(state.code()),
            Bound::Id(id),
        ],
        (Statement::SetStarred { star, msg_id: id }).filled_in() == seq![
            Bound::Integer(
                if star {
                    1
                } else {
                    0
                },
            ),
            Bound::Id(id),
        ],
        (Statement::SetFailed { state, param, msg_id: id }).filled_in() == seq![
            Bound::Integer(state.code()),
            Bound::Text(param@),
            Bound::Id(id),
        ],
{
}

/// What is filled in for receipts, locations, counts and Message-IDs, in the order in which the texts
/// name it.
pub proof fn other_statements(
    id: MsgId,
    number: u32,
    time: i64,
    folder: String,
    mid: String,
)
    ensures
        Statement::DeletePoiLocation(number).filled_in() == seq![Bound::Integer(wrapped(number))],
        Statement::FindSent(mid).filled_in() == seq![Bound::Text(mid@)],
        (Statement::HasReceipt { msg_id: id, contact_id: number }).filled_in() == seq![
            Bound::Id(id),
            Bound::Integer(wrapped(number)),
        ],
        (Statement::AddReceipt { msg_id: id, contact_id: number, timestamp_sent: time }).filled_in()
            == seq![Bound::Id(id), Bound::Integer(wrapped(number)), Bound::Integer(time as int)],
        Statement::RealMsgCount.filled_in() == Seq::<Bound>::empty(),
        Statement::DeaddropMsgCount.filled_in() == Seq::<Bound>::empty(),
        Statement::MidCount(mid).filled_in() == seq![Bound::Text(mid@)],
        Statement::MidLookup(mid).filled_in() == seq![Bound::Text(mid@)],
        (Statement::SetServerUid {
            server_folder: folder,
            server_uid: number,
            rfc724_mid: mid,
        }).filled_in() == seq![
            Bound::Text(folder@),
            Bound::Integer(number as int),
            Bound::Text(mid@),
        ],
{
}

/// What the database is handed for a question mark: integers and texts as they are, and an
/// identifier by its number, but never a reserved one.
pub proof fn values_are_handed_on(n: int, s: Seq<char>, id: MsgId, value: SqlValue)
    ensures
        bound_as(Bound::Integer(n), value) ==> value is Integer && value->Integer_0 == n,
        bound_as(Bound::Text(s), value) ==> value is Text && value->Text_0@ == s,
        bound_as(Bound::Id(id), value) ==> value is Integer && value->Integer_0 == id.0 && id.0 > 9,
{
}

/// A statement is kept from the database just if one of the first ten identifiers would be filled in.
pub proof fn statements_that_are_kept_back(bounds: Seq<Bound>)
    ensures
        binds_special(bounds) <==> exists|i: int|
            0 <= i < bounds.len() && ((#[trigger] bounds[i]) matches Bound::Id(id) && id.0 < 10),
{
    if binds_special(bounds) {
        let i = choose|i: int|
            0 <= i < bounds.len() && ((#[trigger] bounds[i]) matches Bound::Id(id) && id.special());
        assert(bounds[i] matches Bound::Id(id) && id.0 < 10);
    }
}

} // verus!
