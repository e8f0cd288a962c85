//! Reading values of the database.
use vstd::prelude::*;

use crate::constants::{Blocked, Chattype, Viewtype};
use crate::sql::{ColumnValue, FromSqlError};
use crate::state::MessageState;
use crate::text;

verus! {

impl ColumnValue {
    /// The integer that the value is.
    pub open spec fn as_int(self) -> Result<i64, FromSqlError> {
        match self {
            ColumnValue::Integer(n) => Ok(n),
            _ => Err(FromSqlError::InvalidType),
        }
    }

    /// The number that the value is.
    pub open spec fn as_number(self) -> Result<u32, FromSqlError> {
        match self.as_int() {
            Ok(n) => if 0 <= n <= u32::MAX {
                Ok(n as u32)
            } else {
                Err(FromSqlError::OutOfRange(n))
            },
            Err(e) => Err(e),
        }
    }

    /// The truth value that the value is: any integer but zero is true.
    pub open spec fn as_truth(self) -> Result<bool, FromSqlError> {
        match self.as_int() {
            Ok(n) => Ok(n != 0),
            Err(e) => Err(e),
        }
    }

    /// The text that the value is.
    pub open spec fn as_text(self) -> Result<Seq<char>, FromSqlError> {
        match self {
            ColumnValue::Text(bytes) => if vstd::utf8::valid_utf8(bytes@) {
                Ok(vstd::utf8::decode_utf8(bytes@))
            } else {
                Err(FromSqlError::InvalidUtf8)
            },
            _ => Err(FromSqlError::InvalidType),
        }
    }

    /// The text that the value is, if it is not missing.
    pub open spec fn as_optional_text(self) -> Result<Option<Seq<char>>, FromSqlError> {
        match self {
            ColumnValue::Null => Ok(None),
            _ => match self.as_text() {
                Ok(s) => Ok(Some(s)),
                Err(e) => Err(e),
            },
        }
    }

    /// What can be shown of the value: all of a text, with a replacement for what is not UTF-8,
    /// and nothing of any other value.
    pub open spec fn as_shown_text(self) -> Seq<char> {
        match self {
            ColumnValue::Text(bytes) => if vstd::utf8::valid_utf8(bytes@) {
                vstd::utf8::decode_utf8(bytes@)
            } else {
                text::lossy_text(bytes@)
            },
            _ => Seq::empty(),
        }
    }

    /// The type of message that the value stands for.
    pub open spec fn as_viewtype(self) -> Result<Viewtype, FromSqlError> {
        match self.as_int() {
            Ok(n) => Ok(Viewtype::of_code(n as int)),
            Err(e) => Err(e),
        }
    }

    /// The state of a message that the value stands for.
    pub open spec fn as_state(self) -> Result<MessageState, FromSqlError> {
        match self.as_int() {
            Ok(n) => Ok(MessageState::of_code(n as int)),
            Err(e) => Err(e),
        }
    }

    /// The kind of chat that the value stands for.
    pub open spec fn as_chattype(self) -> Result<Chattype, FromSqlError> {
        match self.as_int() {
            Ok(n) => Ok(Chattype::of_code(n as int)),
            Err(e) => Err(e),
        }
    }

    /// Whether the value stands for a blocked chat. A missing value stands for one that is not.
    pub open spec fn as_blocked(self) -> Result<Blocked, FromSqlError> {
        match self {
            ColumnValue::Null => Ok(Blocked::Not),
            _ => match self.as_int() {
                Ok(n) => Ok(Blocked::of_code(n as int)),
                Err(e) => Err(e),
            },
        }
    }

    /// Reads an integer.
    pub fn integer(&self) -> (r: Result<i64, FromSqlError>)
        ensures
            r == self.as_int(),
    {
        match self {
            ColumnValue::Integer(n) => Ok(*n),
            _ => Err(FromSqlError::InvalidType),
        }
    }

    /// Reads a number that fits 32 bits.
    pub fn number(&self) -> (r: Result<u32, FromSqlError>)
        ensures
            r == self.as_number(),
    {
        match self.integer() {
            Ok(n) => if 0 <= n && n <= u32::MAX as i64 {
                Ok(n as u32)
            } else {
                Err(FromSqlError::OutOfRange(n))
            },
            Err(e) => Err(e),
        }
    }

    /// Reads a truth value.
    pub fn truth(&self) -> (r: Result<bool, FromSqlError>)
        ensures
            r == self.as_truth(),
    {
        match self.integer() {
            Ok(n) => Ok(n != 0),
            Err(e) => Err(e),
        }
    }

    /// Reads a text.
    pub fn text(&self) -> (r: Result<String, FromSqlError>)
        ensures
            text::viewed(r) == self.as_text(),
    {
        match self {
            ColumnValue::Text(bytes) => match text::from_utf8(bytes) {
                Some(s) => Ok(s),
                None => Err(FromSqlError::InvalidUtf8),
            },
            _ => Err(FromSqlError::InvalidType),
        }
    }

    /// Reads a text that may be missing.
    pub fn optional_text(&self) -> (r: Result<Option<String>, FromSqlError>)
        ensures
            match r {
                Ok(s) => self.as_optional_text() == Ok::<Option<Seq<char>>, FromSqlError>(
                    text::viewed_option(s),
                ),
                Err(e) => self.as_optional_text() == Err::<Option<Seq<char>>, FromSqlError>(e),
            },
    {
        match self {
            ColumnValue::Null => Ok(None),
            _ => match self.text() {
                Ok(s) => Ok(Some(s)),
                Err(e) => Err(e),
            },
        }
    }

    /// Reads what can be shown of the value.
    pub fn shown_text(&self) -> (r: String)
        ensures
            r@ == self.as_shown_text(),
    {
        match self {
            ColumnValue::Text(bytes) => match text::from_utf8(bytes) {
                Some(s) => s,
                None => text::from_utf8_lossy(bytes),
            },
            _ => String::new(),
        }
    }

    /// Reads a type of message.
    pub fn viewtype(&self) -> (r: Result<Viewtype, FromSqlError>)
        ensures
            r == self.as_viewtype(),
    {
        match self.integer() {
            Ok(n) => Ok(Viewtype::from_i64(n)),
            Err(e) => Err(e),
        }
    }

    /// Reads a state of a message.
    pub fn state(&self) -> (r: Result<MessageState, FromSqlError>)
        ensures
            r == self.as_state(),
    {
        match self.integer() {
            Ok(n) => Ok(MessageState::from_i64(n)),
            Err(e) => Err(e),
        }
    }

    /// Reads a kind of chat.
    pub fn chattype(&self) -> (r: Result<Chattype, FromSqlError>)
        ensures
            r == self.as_chattype(),
    {
        match self.integer() {
            Ok(n) => Ok(Chattype::from_i64(n)),
            Err(e) => Err(e),
        }
    }

    /// Reads whether a chat is blocked.
    pub fn blocked(&self) -> (r: Result<Blocked, FromSqlError>)
        ensures
            r == self.as_blocked(),
    {
        match self {
            ColumnValue::Null => Ok(Blocked::Not),
            _ => match self.integer() {
                Ok(n) => Ok(Blocked::from_i64(n)),
                Err(e) => Err(e),
            },
        }
    }
}

/// The text that the database answered, if it answered one.
pub open spec fn answered_text(reply: Option<&ColumnValue>) -> Option<Seq<char>> {
    match reply {
        Some(value) => match value.as_text() {
            Ok(s) => Some(s),
            Err(_) => None,
        },
        None => None,
    }
}

/// The number that the database answered, if it answered one.
pub open spec fn answered_number(reply: Option<&ColumnValue>) -> Option<u32> {
    match reply {
        Some(value) => match value.as_number() {
            Ok(n) => Some(n),
            Err(_) => None,
        },
        None => None,
    }
}

/// The integer that the database answered, if it answered one that fits 32 bits.
pub open spec fn answered_i32(reply: Option<&ColumnValue>) -> Option<i32> {
    match reply {
        Some(ColumnValue::Integer(n)) => if i32::MIN <= *n <= i32::MAX {
            Some(*n as i32)
        } else {
            None
        },
        _ => None,
    }
}

/// The integer that the database answered, if it answered one that fits the machine.
pub open spec fn answered_isize(reply: Option<&ColumnValue>) -> Option<isize> {
    match reply {
        Some(ColumnValue::Integer(n)) => if isize::MIN <= *n <= isize::MAX {
            Some(*n as isize)
        } else {
            None
        },
        _ => None,
    }
}

/// Reads the text that the database answered.
pub fn read_text(reply: Option<&ColumnValue>) -> (r: Option<String>)
    ensures
        text::viewed_option(r) == answered_text(reply),
{
    match reply {
        Some(value) => match value.text() {
            Ok(s) => Some(s),
            Err(_) => None,
        },
        None => None,
    }
}

/// Reads the number that the database answered.
pub fn read_number(reply: Option<&ColumnValue>) -> (r: Option<u32>)
    ensures
        r == answered_number(reply),
{
    match reply {
        Some(value) => match value.number() {
            Ok(n) => Some(n),
            Err(_) => None,
        },
        None => None,
    }
}

/// Reads an integer of 32 bits that the database answered.
pub fn read_i32(reply: Option<&ColumnValue>) -> (r: Option<i32>)
    ensures
        r == answered_i32(reply),
{
    match reply {
        Some(ColumnValue::Integer(n)) => {
            let n: i64 = *n;
            if i32::MIN as i64 <= n && n <= i32::MAX as i64 {
                Some(n as i32)
            } else {
                None
            }
        },
        _ => None,
    }
}

/// Reads an integer of the machine's size that the database answered.
pub fn read_isize(reply: Option<&ColumnValue>) -> (r: Option<isize>)
    ensures
        r == answered_isize(reply),
{
    match reply {
        Some(ColumnValue::Integer(n)) => {
            let n: i64 = *n;
            if isize::MIN as i64 <= n && n <= isize::MAX as i64 {
                Some(n as isize)
            } else {
                None
            }
        },
        _ => None,
    }
}

/// How an integer is read: as itself, as a number if it fits 32 bits without a sign, and as true
/// unless it is zero.
pub proof fn integers_are_read(n: i64)
    ensures
        ColumnValue::Integer(n).as_int() == Ok::<i64, FromSqlError>(n),
        0 <= n <= 4294967295 ==> ColumnValue::Integer(n).as_number() == Ok::<u32, FromSqlError>(
            n as u32,
        ),
        n < 0 || n > 4294967295 ==> ColumnValue::Integer(n).as_number() == Err::<u32, FromSqlError>(
            FromSqlError::OutOfRange(n),
        ),
        n == 0 ==> ColumnValue::Integer(n).as_truth() == Ok::<bool, FromSqlError>(false),
        n != 0 ==> ColumnValue::Integer(n).as_truth() == Ok::<bool, FromSqlError>(true),
        ColumnValue::Integer(n).as_text() is Err,
        ColumnValue::Integer(n).as_optional_text() is Err,
        ColumnValue::Integer(n).as_shown_text() == Seq::<char>::empty(),
        answered_text(Some(&ColumnValue::Integer(n))) is None,
        answered_number(Some(&ColumnValue::Integer(n))) == (if 0 <= n <= 4294967295 {
            Some(n as u32)
        } else {
            None
        }),
        answered_i32(Some(&ColumnValue::Integer(n))) == (if -2147483648 <= n <= 2147483647 {
            Some(n as i32)
        } else {
            None
        }),
        isize::MIN <= n <= isize::MAX ==> answered_isize(Some(&ColumnValue::Integer(n))) == Some(
            n as isize,
        ),
{
}

/// What is no integer is never read as one. A missing value stands for a chat that is not blocked,
/// and for no text where a text may be missing.
pub proof fn other_values_are_no_integers(value: ColumnValue)
    requires
        !(value is Integer),
    ensures
        value.as_int() == Err::<i64, FromSqlError>(FromSqlError::InvalidType),
        value.as_number() == Err::<u32, FromSqlError>(FromSqlError::InvalidType),
        value.as_truth() == Err::<bool, FromSqlError>(FromSqlError::InvalidType),
        value.as_viewtype() is Err,
        value.as_state() is Err,
        value.as_chattype() is Err,
        value.as_blocked() == (if value is Null {
            Ok::<Blocked, FromSqlError>(Blocked::Not)
        } else {
            Err::<Blocked, FromSqlError>(FromSqlError::InvalidType)
        }),
        value is Null ==> value.as_optional_text() == Ok::<Option<Seq<char>>, FromSqlError>(None),
        !(value is Null) && !(value is Text) ==> value.as_optional_text() is Err,
        !(value is Text) ==> value.as_text() == Err::<Seq<char>, FromSqlError>(
            FromSqlError::InvalidType,
        ) && value.as_shown_text() == Seq::<char>::empty() && answered_text(Some(&value)) is None,
        answered_number(Some(&value)) is None,
        answered_i32(Some(&value)) is None,
        answered_isize(Some(&value)) is None,
{
}

/// A stored text is read as the characters that it encodes. One that is not UTF-8 can only be shown.
pub proof fn texts_are_read(bytes: Vec<u8>)
    ensures
        ({
            let value = ColumnValue::Text(bytes);
            if vstd::utf8::valid_utf8(bytes@) {
                let s = vstd::utf8::decode_utf8(bytes@);
                &&& value.as_text() == Ok::<Seq<char>, FromSqlError>(s)
                &&& value.as_optional_text() == Ok::<Option<Seq<char>>, FromSqlError>(Some(s))
                &&& value.as_shown_text() == s
                &&& answered_text(Some(&value)) == Some(s)
            } else {
                &&& value.as_text() == Err::<Seq<char>, FromSqlError>(FromSqlError::InvalidUtf8)
                &&& value.as_optional_text() == Err::<Option<Seq<char>>, FromSqlError>(
                    FromSqlError::InvalidUtf8,
                )
                &&& value.as_shown_text() == text::lossy_text(bytes@)
                &&& answered_text(Some(&value)) is None
            }
        }),
{
}

/// The enumerations are read by the numbers that they are stored under.
pub proof fn enumerations_are_read(
    viewtype: Viewtype,
    state: MessageState,
    chattype: Chattype,
    blocked: Blocked,
)
    ensures
        ColumnValue::Integer(viewtype.code() as i64).as_viewtype() == Ok::<Viewtype, FromSqlError>(
            viewtype,
        ),
        ColumnValue::Integer(state.code() as i64).as_state() == Ok::<MessageState, FromSqlError>(
            state,
        ),
        ColumnValue::Integer(chattype.code() as i64).as_chattype() == Ok::<Chattype, FromSqlError>(
            chattype,
        ),
        ColumnValue::Integer(blocked.code() as i64).as_blocked() == Ok::<Blocked, FromSqlError>(
            blocked,
        ),
{
}

} // verus!
