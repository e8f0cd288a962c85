//! A single message in memory.
use vstd::prelude::*;

use crate::constants::{
    msgtype_has_file, Blocked, SystemMessage, Viewtype, DC_CONTACT_ID_INFO,
};
use crate::context::Context;
use crate::msgid::MsgId;
use crate::param;
use crate::param::{Param, Params};
use crate::path;
use crate::sql;
use crate::sql::Statement;
use crate::state::MessageState;
use crate::stored;
use crate::suffix;
use crate::text;

verus! {

/// An object representing a single message in memory.
/// The message object is not updated.
/// If you want an update, you have to recreate the object.
#[derive(Debug, Clone)]
pub struct Message {
    /// The identifier of the message.
    pub id: MsgId,
    /// The contact who sent it.
    pub from_id: u32,
    /// The contact it was sent to.
    pub to_id: u32,
    /// The chat it is in.
    pub chat_id: u32,
    /// What it holds.
    pub type_0: Viewtype,
    /// Where it stands on its way.
    pub state: MessageState,
    /// Whether it is not shown.
    pub hidden: bool,
    /// The time by which messages are sorted.
    pub timestamp_sort: i64,
    /// When it was sent.
    pub timestamp_sent: i64,
    /// When it was received.
    pub timestamp_rcvd: i64,
    /// What it says.
    pub text: Option<String>,
    /// Its Message-ID.
    pub rfc724_mid: String,
    /// The Message-ID that it answers.
    pub in_reply_to: Option<String>,
    /// The folder on the server that it was last seen in.
    pub server_folder: Option<String>,
    /// Its number in that folder.
    pub server_uid: u32,
    /// Whether it comes from a messenger.
    pub is_dc_message: u32,
    /// Whether the user starred it.
    pub starred: bool,
    /// Whether its chat is blocked.
    pub chat_blocked: Blocked,
    /// The location that is bound to it.
    pub location_id: u32,
    /// Its parameters.
    pub param: Params,
}

/// The longest text, in about as many characters, that is given out.
pub const MAX_GET_TEXT_LEN: usize = 30000;

/// The number of seconds in a day.
pub const SECONDS_PER_DAY: i64 = 86400;

/// Whole days in a number of seconds. Of a day that is not full nothing counts, before the epoch
/// as after it.
pub open spec fn whole_days(seconds: int) -> int {
    if seconds >= 0 {
        seconds / (SECONDS_PER_DAY as int)
    } else {
        -((-seconds) / (SECONDS_PER_DAY as int))
    }
}

fn days(seconds: i128) -> (r: i128)
    requires
        -0x2_0000_0000_0000_0000 <= seconds <= 0x2_0000_0000_0000_0000,
    ensures
        r == whole_days(seconds as int),
{
    if seconds >= 0 {
        seconds / 86400
    } else {
        -((-seconds) / 86400)
    }
}

/// One coordinate of a location: how it is written, and whether it is zero.
#[derive(Debug, Clone)]
pub struct Coordinate {
    /// The number in decimal.
    pub text: String,
    /// Whether the number is zero.
    pub is_zero: bool,
}

impl Message {
    /// Whether the message is as new, but for its type.
    pub open spec fn is_blank(self) -> bool {
        &&& self.id == MsgId(0)
        &&& self.from_id == 0
        &&& self.to_id == 0
        &&& self.chat_id == 0
        &&& self.state == MessageState::Undefined
        &&& !self.hidden
        &&& self.timestamp_sort == 0
        &&& self.timestamp_sent == 0
        &&& self.timestamp_rcvd == 0
        &&& self.text is None
        &&& self.rfc724_mid@ == Seq::<char>::empty()
        &&& self.in_reply_to is None
        &&& self.server_folder is None
        &&& self.server_uid == 0
        &&& self.is_dc_message == 0
        &&& !self.starred
        &&& self.chat_blocked == Blocked::Not
        &&& self.location_id == 0
        &&& self.param@ == Map::<Param, Seq<char>>::empty()
    }

    /// Whether the two messages differ in nothing but their parameters.
    pub open spec fn same_but_param(self, other: Message) -> bool {
        self == (Message { param: self.param, ..other })
    }

    /// The time that is shown: when the message was sent, or else the time it is sorted by.
    pub open spec fn shown_timestamp(self) -> i64 {
        if self.timestamp_sent != 0 {
            self.timestamp_sent
        } else {
            self.timestamp_sort
        }
    }

    /// The text that is given out.
    pub open spec fn shown_text(self) -> Option<Seq<char>> {
        match self.text {
            Some(text) => Some(text::truncated(text@, MAX_GET_TEXT_LEN as nat, false)),
            None => None,
        }
    }

    /// The MIME type of the file: the one that is set, or one guessed from the name of the file,
    /// or one for any file.
    pub open spec fn filemime(self) -> Option<Seq<char>> {
        if self.param@.contains_key(Param::MimeType) {
            Some(self.param@[Param::MimeType])
        } else if self.param@.contains_key(Param::File) {
            match suffix::guessed_msgtype(self.param@[Param::File]) {
                Some((_, mime)) => Some(mime),
                None => Some("application/octet-stream"@),
            }
        } else {
            None
        }
    }

    /// The name of the file.
    pub open spec fn filename(self) -> Option<Seq<char>> {
        match param::value_of(self.param@, Param::File) {
            Some(file) => path::file_name_of(file),
            None => None,
        }
    }

    /// The path of the file.
    pub open spec fn file(self, context: &Context) -> Option<Seq<char>> {
        file_of(self.param@, context)
    }

    /// Whether the message tells of something that happened.
    pub open spec fn info(self) -> bool {
        let cmd = param::cmd_of(self.param@);
        ||| self.from_id == DC_CONTACT_ID_INFO
        ||| self.to_id == DC_CONTACT_ID_INFO
        ||| cmd != SystemMessage::Unknown && cmd != SystemMessage::AutocryptSetupMessage
    }

    /// Whether the message transfers keys to another device of the user.
    pub open spec fn setupmessage(self) -> bool {
        self.type_0 == Viewtype::File && param::cmd_of(self.param@)
            == SystemMessage::AutocryptSetupMessage
    }

    /// A new message of a type.
    pub fn new(viewtype: Viewtype) -> (r: Self)
        ensures
            r.is_blank(),
            r.type_0 == viewtype,
    {
        let mut msg: Message = Message::default();
        msg.type_0 = viewtype;
        msg
    }

    /// The MIME type of the file.
    pub fn get_filemime(&self) -> (r: Option<String>)
        ensures
            text::viewed_option(r) == self.filemime(),
    {
        if let Some(m) = self.param.get(Param::MimeType) {
            return Some(m.to_owned());
        } else if let Some(file) = self.param.get(Param::File) {
            if let Some((_, mime)) = suffix::guess_msgtype_from_suffix(file) {
                return Some(mime.to_owned());
            }
            // we have a file but no mimetype, let's use a generic one
            return Some("application/octet-stream".to_owned());
        }
        // no mimetype and no file
        None
    }

    /// The path of the file.
    pub fn get_file(&self, context: &Context) -> (r: Option<String>)
        ensures
            text::viewed_option(r) == self.file(context),
    {
        file_path(&self.param, context)
    }

    /// Check if a message has a location bound to it.
    /// The user interface may decide to display a special icon beside such messages.
    pub fn has_location(&self) -> (r: bool)
        ensures
            r == (self.location_id != 0),
    {
        self.location_id != 0
    }

    /// Set any location that should be bound to the message object.
    /// The function is useful to add a marker to the map
    /// at a position different from the self-location.
    ///
    /// Where both coordinates are zero there is no location, and nothing changes.
    pub fn set_location(&mut self, latitude: &Coordinate, longitude: &Coordinate)
        ensures
            final(self).same_but_param(*old(self)),
            final(self).param@ == (if latitude.is_zero && longitude.is_zero {
                old(self).param@
            } else {
                old(self).param@.insert(Param::SetLatitude, latitude.text@).insert(
                    Param::SetLongitude,
                    longitude.text@,
                )
            }),
    {
        if latitude.is_zero && longitude.is_zero {
            return;
        }
        self.param.set(Param::SetLatitude, latitude.text.as_str());
        self.param.set(Param::SetLongitude, longitude.text.as_str());
    }

    /// The time that is shown.
    pub fn get_timestamp(&self) -> (r: i64)
        ensures
            r == self.shown_timestamp(),
    {
        if 0 != self.timestamp_sent {
            self.timestamp_sent
        } else {
            self.timestamp_sort
        }
    }

    /// The identifier of the message.
    pub fn get_id(&self) -> (r: MsgId)
        ensures
            r == self.id,
    {
        self.id
    }

    /// The contact who sent the message.
    pub fn get_from_id(&self) -> (r: u32)
        ensures
            r == self.from_id,
    {
        self.from_id
    }

    /// The chat that the message is shown in. Messages of blocked chats are shown in the one for
    /// unknown senders.
    pub fn get_chat_id(&self) -> (r: u32)
        ensures
            r == (if self.chat_blocked != Blocked::Not {
                1
            } else {
                self.chat_id
            }),
    {
        if self.chat_blocked != Blocked::Not {
            1
        } else {
            self.chat_id
        }
    }

    /// What the message holds.
    pub fn get_viewtype(&self) -> (r: Viewtype)
        ensures
            r == self.type_0,
    {
        self.type_0
    }

    /// Where the message stands on its way.
    pub fn get_state(&self) -> (r: MessageState)
        ensures
            r == self.state,
    {
        self.state
    }

    /// When the message was received.
    pub fn get_received_timestamp(&self) -> (r: i64)
        ensures
            r == self.timestamp_rcvd,
    {
        self.timestamp_rcvd
    }

    /// The time by which messages are sorted.
    pub fn get_sort_timestamp(&self) -> (r: i64)
        ensures
            r == self.timestamp_sort,
    {
        self.timestamp_sort
    }

    /// What the message says, shortened if it is very long.
    pub fn get_text(&self) -> (r: Option<String>)
        ensures
            text::viewed_option(r) == self.shown_text(),
    {
        match &self.text {
            Some(text) => Some(text::dc_truncate(text.as_str(), MAX_GET_TEXT_LEN, false)),
            None => None,
        }
    }

    /// The name of the file.
    pub fn get_filename(&self) -> (r: Option<String>)
        ensures
            text::viewed_option(r) == self.filename(),
    {
        match self.param.get(Param::File) {
            Some(file) => match path::file_name(file) {
                Some(name) => Some(name.to_owned()),
                None => None,
            },
            None => None,
        }
    }

    /// The size of the file, given the size found at its path: zero where there is no file.
    pub fn get_filebytes(&self, context: &Context, found: u64) -> (r: u64)
        ensures
            r == (if self.file(context) is Some {
                found
            } else {
                0
            }),
    {
        match self.get_file(context) {
            Some(_) => found,
            None => 0,
        }
    }

    /// The width of an image or a video, or zero.
    pub fn get_width(&self) -> (r: i32)
        ensures
            r == param::int_or_zero(self.param@, Param::Width),
    {
        self.param.get_int_or_zero(Param::Width)
    }

    /// The height of an image or a video, or zero.
    pub fn get_height(&self) -> (r: i32)
        ensures
            r == param::int_or_zero(self.param@, Param::Height),
    {
        self.param.get_int_or_zero(Param::Height)
    }

    /// How long a recording lasts, or zero.
    pub fn get_duration(&self) -> (r: i32)
        ensures
            r == param::int_or_zero(self.param@, Param::Duration),
    {
        self.param.get_int_or_zero(Param::Duration)
    }

    /// Whether the message was encrypted end to end.
    pub fn get_showpadlock(&self) -> (r: bool)
        ensures
            r == (param::int_or_zero(self.param@, Param::GuaranteeE2ee) != 0),
    {
        self.param.get_int_or_zero(Param::GuaranteeE2ee) != 0
    }

    /// Whether the day that the message is sorted under is another than the day that is shown.
    /// `cnv_to_local` is what local time is ahead of UTC, in seconds.
    pub fn has_deviating_timestamp(&self, cnv_to_local: i64) -> (r: bool)
        ensures
            r == (whole_days(self.timestamp_sort + cnv_to_local) != whole_days(
                self.shown_timestamp() + cnv_to_local,
            )),
    {
        let sort_timestamp: i128 = self.get_sort_timestamp() as i128 + cnv_to_local as i128;
        let send_timestamp: i128 = self.get_timestamp() as i128 + cnv_to_local as i128;
        days(sort_timestamp) != days(send_timestamp)
    }

    /// Whether the message reached a server at least.
    pub fn is_sent(&self) -> (r: bool)
        ensures
            r == (self.state.code() >= MessageState::OutDelivered.code()),
            r == (self.state is OutDelivered || self.state is OutMdnRcvd),
    {
        self.state.to_i32() >= MessageState::OutDelivered.to_i32()
    }

    /// Whether the user starred the message.
    pub fn is_starred(&self) -> (r: bool)
        ensures
            r == self.starred,
    {
        self.starred
    }

    /// Whether the message was forwarded.
    pub fn is_forwarded(&self) -> (r: bool)
        ensures
            r == (param::int_or_zero(self.param@, Param::Forwarded) != 0),
    {
        0 != self.param.get_int_or_zero(Param::Forwarded)
    }

    /// Whether the message tells of something that happened.
    pub fn is_info(&self) -> (r: bool)
        ensures
            r == self.info(),
    {
        let cmd: SystemMessage = self.param.get_cmd();
        self.from_id == DC_CONTACT_ID_INFO || self.to_id == DC_CONTACT_ID_INFO || (cmd
            != SystemMessage::Unknown && cmd != SystemMessage::AutocryptSetupMessage)
    }

    /// Whether the message is still being created.
    ///
    /// Messages with attachments might be created before the
    /// attachment is ready.  In this case some more restrictions on
    /// the attachment apply, e.g. if the file to be attached is still
    /// being written to or otherwise will still change it can not be
    /// copied to the blobdir.  Thus those attachments need to be
    /// created immediately in the blobdir with a valid filename.
    pub fn is_increation(&self) -> (r: bool)
        ensures
            r == (self.type_0.has_file() && self.state == MessageState::OutPreparing),
    {
        msgtype_has_file(self.type_0) && self.state == MessageState::OutPreparing
    }

    /// Whether the message transfers keys to another device of the user.
    pub fn is_setupmessage(&self) -> (r: bool)
        ensures
            r == self.setupmessage(),
    {
        if self.type_0 != Viewtype::File {
            return false;
        }
        self.param.get_cmd() == SystemMessage::AutocryptSetupMessage
    }

    /// Sets what the message says.
    pub fn set_text(&mut self, text: Option<String>)
        ensures
            *final(self) == (Message { text, ..*old(self) }),
    {
        self.text = text;
    }

    /// Sets the file, and its MIME type if that is known.
    pub fn set_file(&mut self, file: &str, filemime: Option<&str>)
        ensures
            final(self).same_but_param(*old(self)),
            final(self).param@ == (match filemime {
                Some(mime) => old(self).param@.insert(Param::File, file@).insert(
                    Param::MimeType,
                    mime@,
                ),
                None => old(self).param@.insert(Param::File, file@),
            }),
            final(self).filename() == path::file_name_of(file@),
            filemime matches Some(mime) ==> final(self).filemime() == Some(mime@),
    {
        self.param.set(Param::File, file);
        if let Some(filemime) = filemime {
            self.param.set(Param::MimeType, filemime);
        }
    }

    /// Sets the size of an image or a video.
    pub fn set_dimension(&mut self, width: i32, height: i32)
        ensures
            final(self).same_but_param(*old(self)),
            final(self).param@ == with_dimension(old(self).param@, width, height),
            param::int_or_zero(final(self).param@, Param::Width) == width,
            param::int_or_zero(final(self).param@, Param::Height) == height,
    {
        self.param.set_int(Param::Width, width);
        self.param.set_int(Param::Height, height);
        proof {
            text::decimal_round_trip(width);
            text::decimal_round_trip(height);
        }
    }

    /// Sets how long a recording lasts.
    pub fn set_duration(&mut self, duration: i32)
        ensures
            final(self).same_but_param(*old(self)),
            final(self).param@ == with_duration(old(self).param@, duration),
            param::int_or_zero(final(self).param@, Param::Duration) == duration,
    {
        self.param.set_int(Param::Duration, duration);
        proof {
            text::decimal_round_trip(duration);
        }
    }

    /// Sets the size and the length of a recording as far as they are known, and gives the
    /// statement that stores them. What is not positive is not known.
    pub fn latefiling_mediasize(&mut self, width: i32, height: i32, duration: i32) -> (r: Statement)
        ensures
            final(self).same_but_param(*old(self)),
            final(self).param@ == ({
                let sized = if width > 0 && height > 0 {
                    with_dimension(old(self).param@, width, height)
                } else {
                    old(self).param@
                };
                if duration > 0 {
                    with_duration(sized, duration)
                } else {
                    sized
                }
            }),
            saves_param(r, *final(self)),
    {
        if width > 0 && height > 0 {
            self.param.set_int(Param::Width, width);
            self.param.set_int(Param::Height, height);
        }
        if duration > 0 {
            self.param.set_int(Param::Duration, duration);
        }
        self.save_param_to_disk()
    }

    /// The statement that stores the parameters of the message.
    pub fn save_param_to_disk(&self) -> (r: Statement)
        ensures
            saves_param(r, *self),
    {
        Statement::SaveParam { param: self.param.to_string(), msg_id: self.id }
    }
}

/// Parameters with a size added.
pub open spec fn with_dimension(m: Map<Param, Seq<char>>, width: i32, height: i32) -> Map<
    Param,
    Seq<char>,
> {
    m.insert(Param::Width, text::signed_decimal(width as int)).insert(
        Param::Height,
        text::signed_decimal(height as int),
    )
}

/// Parameters with a duration added.
pub open spec fn with_duration(m: Map<Param, Seq<char>>, duration: i32) -> Map<Param, Seq<char>> {
    m.insert(Param::Duration, text::signed_decimal(duration as int))
}

/// Whether a statement stores the parameters of a message.
pub open spec fn saves_param(statement: Statement, msg: Message) -> bool {
    statement matches Statement::SaveParam { param, msg_id } && param@ == stored::stored_text(
        msg.param@,
    ) && msg_id == msg.id
}

/// The path of the file that parameters refer to. A reference that names no file counts for none.
pub open spec fn file_of(m: Map<Param, Seq<char>>, context: &Context) -> Option<Seq<char>> {
    match param::path_of(m, Param::File, context.blobdir@) {
        Ok(p) => p,
        Err(_) => None,
    }
}

/// The path of the file that parameters refer to.
pub(crate) fn file_path(param: &Params, context: &Context) -> (r: Option<String>)
    ensures
        text::viewed_option(r) == file_of(param@, context),
{
    match param.get_path(Param::File, context) {
        Ok(p) => p,
        Err(_) => None,
    }
}

impl Default for Message {
    fn default() -> (r: Self)
        ensures
            r.is_blank(),
            r.type_0 == Viewtype::Unknown,
    {
        Message {
            id: MsgId::new_unset(),
            from_id: 0,
            to_id: 0,
            chat_id: 0,
            type_0: Viewtype::Unknown,
            state: MessageState::Undefined,
            hidden: false,
            timestamp_sort: 0,
            timestamp_sent: 0,
            timestamp_rcvd: 0,
            text: None,
            rfc724_mid: String::new(),
            in_reply_to: None,
            server_folder: None,
            server_uid: 0,
            is_dc_message: 0,
            starred: false,
            chat_blocked: Blocked::Not,
            location_id: 0,
            param: Params::new(),
        }
    }
}

/// A text that is not very long is given out as it was set.
pub proof fn set_text_is_given_out(msg: Message, said: String)
    requires
        msg.text == Some(said),
        said@.len() <= MAX_GET_TEXT_LEN + text::ellipse(false).len(),
    ensures
        msg.shown_text() == Some(said@),
{
}

/// What is given out of a text is never longer than the limit and the mark for a shortened text.
pub proof fn shown_text_is_limited(msg: Message)
    ensures
        msg.shown_text() matches Some(shown) ==> shown.len() <= MAX_GET_TEXT_LEN
            + text::ellipse(false).len(),
{
    if let Some(text) = msg.text {
        text::truncation_keeps_its_limit(text@, MAX_GET_TEXT_LEN as nat, false);
    }
}

/// A message that transfers keys is no message about something that happened, unless it comes from
/// the device itself, or is for it.
pub proof fn setup_messages_are_no_info(msg: Message)
    requires
        msg.setupmessage(),
        msg.from_id != DC_CONTACT_ID_INFO,
        msg.to_id != DC_CONTACT_ID_INFO,
    ensures
        !msg.info(),
{
}

/// Where no time of sending is known, the day that is shown is the one that the message is sorted
/// under, wherever the user is.
pub proof fn no_deviation_without_time_of_sending(msg: Message, cnv_to_local: int)
    requires
        msg.timestamp_sent == 0,
    ensures
        whole_days(msg.timestamp_sort + cnv_to_local) == whole_days(
            msg.shown_timestamp() + cnv_to_local,
        ),
{
}

/// Whole days are counted towards the epoch, before it as after it.
pub proof fn days_have_86400_seconds(seconds: int)
    ensures
        seconds >= 0 ==> 86400 * whole_days(seconds) <= seconds < 86400 * (whole_days(seconds) + 1),
        seconds < 0 ==> 86400 * (whole_days(seconds) - 1) < seconds <= 86400 * whole_days(seconds),
        whole_days(-seconds) == -whole_days(seconds),
{
}

/// The time of sending is shown where it is known, and the time that the message is sorted by where
/// it is not.
pub proof fn the_time_of_sending_is_shown(msg: Message)
    ensures
        msg.timestamp_sent != 0 ==> msg.shown_timestamp() == msg.timestamp_sent,
        msg.timestamp_sent == 0 ==> msg.shown_timestamp() == msg.timestamp_sort,
{
}

/// A text of up to 30005 characters is given out whole, and nothing is given out where none is set.
/// Of a longer one a beginning of at most 30000 characters is given out, with a mark behind it.
pub proof fn texts_are_given_out(msg: Message)
    ensures
        msg.text is None ==> msg.shown_text() is None,
        msg.text matches Some(said) ==> {
            &&& msg.shown_text() is Some
            &&& said@.len() <= 30005 ==> msg.shown_text() == Some(said@)
            &&& said@.len() > 30005 ==> exists|n: int|
                0 < n <= 30000 && msg.shown_text() == Some(
                    #[trigger] said@.take(n) + seq!['[', '.', '.', '.', ']'],
                )
        },
{
    if let Some(said) = msg.text {
        text::truncation_cuts_between_words(said@, 30000, false);
        reveal_strlit("[...]");
        assert("[...]"@ =~= seq!['[', '.', '.', '.', ']']);
    }
}

/// Messages of the device contact, to it, or with a command tell of something that happened, but the
/// command to transfer keys does not make one. Whoever sent it and whatever else it holds does not
/// matter.
pub proof fn messages_that_tell_of_something(msg: Message)
    ensures
        msg.from_id == 2 || msg.to_id == 2 ==> msg.info(),
        msg.from_id != 2 && msg.to_id != 2 ==> (msg.info() <==> {
            let cmd = param::int_or_zero(msg.param@, Param::Cmd);
            2 <= cmd <= 9 && cmd != 6
        }),
        msg.setupmessage() <==> msg.type_0 == Viewtype::File && param::int_or_zero(
            msg.param@,
            Param::Cmd,
        ) == 6,
{
}

/// The MIME type that is set counts before any guess. Without one, a file has the MIME type that its
/// suffix tells or one for any file, and without a file there is none.
pub proof fn mime_types_of_messages(msg: Message)
    ensures
        msg.param@.contains_key(Param::MimeType) ==> msg.filemime() == Some(
            msg.param@[Param::MimeType],
        ),
        !msg.param@.contains_key(Param::MimeType) && !msg.param@.contains_key(Param::File)
            ==> msg.filemime() is None,
        !msg.param@.contains_key(Param::MimeType) && msg.param@.contains_key(Param::File) ==> (
        match suffix::guessed_msgtype(msg.param@[Param::File]) {
            Some((_, mime)) => msg.filemime() == Some(mime),
            None => msg.filemime() == Some("application/octet-stream"@),
        }),
{
}

/// The file of a message is the one that its file parameter refers to, with the name that the path
/// ends in. A reference that names no file, and a missing one, give none.
pub proof fn files_of_messages(msg: Message, context: &Context)
    ensures
        !msg.param@.contains_key(Param::File) ==> msg.filename() is None && msg.file(context) is None,
        msg.param@.contains_key(Param::File) ==> {
            let file = msg.param@[Param::File];
            &&& msg.filename() == path::file_name_of(file)
            &&& match param::referenced_path(file, context.blobdir@) {
                Ok(p) => msg.file(context) == Some(p),
                Err(_) => msg.file(context) is None,
            }
        },
{
}

/// A size and a length that are set are read back, and no other parameter changes.
pub proof fn sizes_are_kept(m: Map<Param, Seq<char>>, width: i32, height: i32, duration: i32, key: Param)
    ensures
        param::int_or_zero(with_dimension(m, width, height), Param::Width) == width,
        param::int_or_zero(with_dimension(m, width, height), Param::Height) == height,
        param::int_or_zero(with_duration(m, duration), Param::Duration) == duration,
        key != Param::Width && key != Param::Height ==> param::value_of(
            with_dimension(m, width, height),
            key,
        ) == param::value_of(m, key),
        key != Param::Duration ==> param::value_of(with_duration(m, duration), key)
            == param::value_of(m, key),
{
    text::decimal_round_trip(width);
    text::decimal_round_trip(height);
    text::decimal_round_trip(duration);
}

/// Two messages that are the same but for their parameters have everything else in common.
pub proof fn nothing_but_parameters_changes(a: Message, b: Message)
    requires
        a.same_but_param(b),
    ensures
        a.id == b.id,
        a.from_id == b.from_id,
        a.to_id == b.to_id,
        a.chat_id == b.chat_id,
        a.type_0 == b.type_0,
        a.state == b.state,
        a.hidden == b.hidden,
        a.timestamp_sort == b.timestamp_sort,
        a.timestamp_sent == b.timestamp_sent,
        a.timestamp_rcvd == b.timestamp_rcvd,
        a.text == b.text,
        a.rfc724_mid == b.rfc724_mid,
        a.in_reply_to == b.in_reply_to,
        a.server_folder == b.server_folder,
        a.server_uid == b.server_uid,
        a.is_dc_message == b.is_dc_message,
        a.starred == b.starred,
        a.chat_blocked == b.chat_blocked,
        a.location_id == b.location_id,
{
}

/// A new message is in no chat and in no state, has no text, no file and no time, and nothing is known
/// of it.
pub proof fn new_messages_are_blank(msg: Message)
    requires
        msg.is_blank(),
    ensures
        msg.id.0 == 0 && msg.from_id == 0 && msg.to_id == 0 && msg.chat_id == 0,
        msg.state is Undefined && !msg.hidden && !msg.starred && msg.chat_blocked is Not,
        msg.timestamp_sort == 0 && msg.timestamp_sent == 0 && msg.timestamp_rcvd == 0,
        msg.text is None && msg.in_reply_to is None && msg.server_folder is None,
        msg.rfc724_mid@.len() == 0 && msg.server_uid == 0 && msg.is_dc_message == 0,
        msg.location_id == 0 && msg.filename() is None && msg.filemime() is None,
        !msg.info() && !msg.setupmessage() && msg.shown_text() is None,
        forall|key: Param| !#[trigger] msg.param@.contains_key(key),
{
}

/// The statement that stores parameters stores their text for the message that has them.
pub proof fn parameters_are_stored_for_their_message(statement: Statement, msg: Message)
    requires
        saves_param(statement, msg),
    ensures
        statement.filled_in() == seq![
            sql::Bound::Text(stored::stored_text(msg.param@)),
            sql::Bound::Id(msg.id),
        ],
        statement is SaveParam,
{
}

} // verus!
