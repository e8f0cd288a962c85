//! Message identifiers.
use vstd::prelude::*;

use crate::constants::{DC_MSG_ID_DAYMARKER, DC_MSG_ID_LAST_SPECIAL, DC_MSG_ID_MARKER1};
use crate::sql::{ColumnValue, FromSqlError};
use crate::text;

verus! {

/// Message ID, including reserved IDs.
///
/// Some message IDs are reserved to identify special message types.
/// This type can represent both the special as well as normal
/// messages.
#[derive(Debug, Clone, Copy, PartialEq, Eq, Structural)]
pub struct MsgId(pub u32);

/// Message ID was invalid.
///
/// This usually occurs when trying to use a message ID of
/// [`DC_MSG_ID_LAST_SPECIAL`] or below in a situation where this is not
/// possible.
#[derive(Debug, Clone, Copy, PartialEq, Eq, Structural)]
pub struct InvalidMsgId;

impl InvalidMsgId {
    /// What to tell the user.
    pub fn to_string(&self) -> (r: String)
        ensures
            r@ == "Invalid Message ID."@,
    {
        "Invalid Message ID.".to_owned()
    }
}

impl Default for MsgId {
    fn default() -> (r: Self)
        ensures
            r == MsgId(0),
    {
        MsgId(0)
    }
}

impl MsgId {
    /// Whether the identifier is reserved.
    pub open spec fn special(self) -> bool {
        self.0 <= DC_MSG_ID_LAST_SPECIAL
    }

    /// How the identifier is shown.
    pub open spec fn shown(self) -> Seq<char> {
        if self.0 == DC_MSG_ID_MARKER1 {
            "Msg#Marker1"@
        } else if self.0 == DC_MSG_ID_DAYMARKER {
            "Msg#DayMarker"@
        } else if self.special() {
            "Msg#UnknownSpecial"@
        } else {
            "Msg#"@ + text::decimal(self.0 as nat)
        }
    }

    /// Create a new [`MsgId`].
    pub fn new(id: u32) -> (r: MsgId)
        ensures
            r == MsgId(id),
    {
        MsgId(id)
    }

    /// Create a new unset [`MsgId`].
    pub fn new_unset() -> (r: MsgId)
        ensures
            r == MsgId(0),
    {
        MsgId(0)
    }

    /// Whether the message ID signifies a special message.
    ///
    /// This kind of message ID can not be used for real messages.
    pub fn is_special(&self) -> (r: bool)
        ensures
            r == self.special(),
    {
        self.0 <= DC_MSG_ID_LAST_SPECIAL
    }

    /// Whether the message ID is unset.
    ///
    /// When a message is created it initially has a ID of `0`, which
    /// is filled in by a real message ID once the message is saved in
    /// the database.  This returns true while the message has not
    /// been saved and thus not yet been given an actual message ID.
    ///
    /// When this is `true`, [`MsgId::is_special`] will also always be
    /// `true`.
    pub fn is_unset(&self) -> (r: bool)
        ensures
            r == (self.0 == 0),
            r ==> self.special(),
    {
        self.0 == 0
    }

    /// Whether the message ID is the special marker1 marker.
    pub fn is_marker1(&self) -> (r: bool)
        ensures
            r == (self.0 == DC_MSG_ID_MARKER1),
            r ==> self.special(),
    {
        self.0 == DC_MSG_ID_MARKER1
    }

    /// Whether the message ID is the special day marker.
    pub fn is_daymarker(&self) -> (r: bool)
        ensures
            r == (self.0 == DC_MSG_ID_DAYMARKER),
            r ==> self.special(),
    {
        self.0 == DC_MSG_ID_DAYMARKER
    }

    /// Bad evil escape hatch.
    ///
    /// Avoid using this, eventually types should be cleaned up enough
    /// that it is no longer necessary.
    pub fn to_u32(&self) -> (r: u32)
        ensures
            r == self.0,
    {
        self.0
    }

    /// Writes the identifier for a reader: the name of a marker, or the number.
    pub fn to_string(&self) -> (r: String)
        ensures
            r@ == self.shown(),
    {
        if self.0 == DC_MSG_ID_MARKER1 {
            "Msg#Marker1".to_owned()
        } else if self.0 == DC_MSG_ID_DAYMARKER {
            "Msg#DayMarker".to_owned()
        } else if self.0 <= DC_MSG_ID_LAST_SPECIAL {
            "Msg#UnknownSpecial".to_owned()
        } else {
            let mut out: String = "Msg#".to_owned();
            let number: String = text::decimal_text(self.0 as u64);
            out.append(number.as_str());
            out
        }
    }

    /// The integer under which the identifier is stored in the database.
    ///
    /// # Errors
    ///
    /// This **does** ensure that no special message IDs are written into
    /// the database and the conversion will fail if this is not the case.
    pub fn to_sql(&self) -> (r: Result<i64, InvalidMsgId>)
        ensures
            r == (if self.special() {
                Err::<i64, InvalidMsgId>(InvalidMsgId)
            } else {
                Ok::<i64, InvalidMsgId>(self.0 as i64)
            }),
    {
        if self.0 <= DC_MSG_ID_LAST_SPECIAL {
            return Err(InvalidMsgId);
        }
        Ok(self.0 as i64)
    }

    /// What a database value says about an identifier.
    pub open spec fn of_column(value: ColumnValue) -> Result<MsgId, FromSqlError> {
        match value {
            ColumnValue::Integer(val) => if 0 <= val <= u32::MAX {
                Ok(MsgId(val as u32))
            } else {
                Err(FromSqlError::OutOfRange(val))
            },
            _ => Err(FromSqlError::InvalidType),
        }
    }

    /// Reads an identifier from a database value: an integer that fits.
    pub fn column_result(value: &ColumnValue) -> (r: Result<MsgId, FromSqlError>)
        ensures
            r == MsgId::of_column(*value),
    {
        match value {
            ColumnValue::Integer(val) => {
                let val: i64 = *val;
                if 0 <= val && val <= u32::MAX as i64 {
                    Ok(MsgId::new(val as u32))
                } else {
                    Err(FromSqlError::OutOfRange(val))
                }
            },
            _ => Err(FromSqlError::InvalidType),
        }
    }
}

/// An identifier that can be stored is read back as it was.
pub proof fn stored_id_round_trip(id: MsgId)
    requires
        !id.special(),
    ensures
        MsgId::of_column(ColumnValue::Integer(id.0 as i64)) == Ok::<MsgId, FromSqlError>(id),
{
}

/// The first ten numbers are reserved, and only they. Each real identifier is shown by its number,
/// and a reserved one by what it marks.
pub proof fn reserved_ids(id: MsgId)
    ensures
        id.special() <==> id.0 < 10,
        id.0 == 1 ==> id.shown() == "Msg#Marker1"@,
        id.0 == 9 ==> id.shown() == "Msg#DayMarker"@,
        id.0 < 9 && id.0 != 1 ==> id.shown() == "Msg#UnknownSpecial"@,
        id.0 >= 10 ==> id.shown() == "Msg#"@ + text::decimal(id.0 as nat),
{
}

/// Just the integers that fit 32 bits without a sign are read as identifiers, each as the one of its
/// number.
pub proof fn ids_are_read_as_they_are(value: ColumnValue)
    ensures
        match MsgId::of_column(value) {
            Ok(id) => value == ColumnValue::Integer(id.0 as i64),
            Err(FromSqlError::OutOfRange(n)) => value == ColumnValue::Integer(n) && (n < 0 || n
                > 4294967295),
            Err(FromSqlError::InvalidType) => !(value is Integer),
            Err(FromSqlError::InvalidUtf8) => false,
        },
{
}

} // verus!
