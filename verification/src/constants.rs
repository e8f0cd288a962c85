//! Reserved identifiers and the small enumerations that messages and chats are made of.
use vstd::prelude::*;

verus! {

/// Marks the first unread message in a list of messages.
pub const DC_MSG_ID_MARKER1: u32 = 1;

/// Marks the begin of a day in a list of messages.
pub const DC_MSG_ID_DAYMARKER: u32 = 9;

/// The last of the reserved message identifiers.
pub const DC_MSG_ID_LAST_SPECIAL: u32 = 9;

/// The contact that stands for the user of the device.
pub const DC_CONTACT_ID_SELF: u32 = 1;

/// The contact that stands for messages of the device itself.
pub const DC_CONTACT_ID_INFO: u32 = 2;

/// The chat that collects messages of unknown senders.
pub const DC_CHAT_ID_DEADDROP: u32 = 1;

/// The chat that deleted messages are moved to.
pub const DC_CHAT_ID_TRASH: u32 = 3;

/// What a message holds, and how it is shown.
#[derive(Debug, Clone, Copy, PartialEq, Eq, Structural)]
pub enum Viewtype {
    Unknown,
    Text,
    Image,
    Gif,
    Sticker,
    Audio,
    Voice,
    Video,
    File,
}

impl Viewtype {
    /// The number under which the value is stored.
    pub open spec fn code(self) -> int {
        match self {
            Viewtype::Unknown => 0,
            Viewtype::Text => 10,
            Viewtype::Image => 20,
            Viewtype::Gif => 21,
            Viewtype::Sticker => 23,
            Viewtype::Audio => 40,
            Viewtype::Voice => 41,
            Viewtype::Video => 50,
            Viewtype::File => 60,
        }
    }

    /// The value stored under a number; numbers that stand for nothing give
    /// `Unknown`.
    pub open spec fn of_code(n: int) -> Viewtype {
        if n == 10 {
            Viewtype::Text
        } else if n == 20 {
            Viewtype::Image
        } else if n == 21 {
            Viewtype::Gif
        } else if n == 23 {
            Viewtype::Sticker
        } else if n == 40 {
            Viewtype::Audio
        } else if n == 41 {
            Viewtype::Voice
        } else if n == 50 {
            Viewtype::Video
        } else if n == 60 {
            Viewtype::File
        } else {
            Viewtype::Unknown
        }
    }

    /// The value stored under a number, or the default for an unknown one.
    pub fn from_i64(n: i64) -> (r: Viewtype)
        ensures
            r == Viewtype::of_code(n as int),
    {
        match n {
            10 => Viewtype::Text,
            20 => Viewtype::Image,
            21 => Viewtype::Gif,
            23 => Viewtype::Sticker,
            40 => Viewtype::Audio,
            41 => Viewtype::Voice,
            50 => Viewtype::Video,
            60 => Viewtype::File,
            _ => Viewtype::Unknown,
        }
    }

    /// The name of the value.
    pub open spec fn name(self) -> Seq<char> {
        match self {
            Viewtype::Unknown => "Unknown"@,
            Viewtype::Text => "Text"@,
            Viewtype::Image => "Image"@,
            Viewtype::Gif => "Gif"@,
            Viewtype::Sticker => "Sticker"@,
            Viewtype::Audio => "Audio"@,
            Viewtype::Voice => "Voice"@,
            Viewtype::Video => "Video"@,
            Viewtype::File => "File"@,
        }
    }

    /// The name of the value.
    pub fn to_string(&self) -> (r: String)
        ensures
            r@ == self.name(),
    {
        let name: &str = match self {
            Viewtype::Unknown => "Unknown",
            Viewtype::Text => "Text",
            Viewtype::Image => "Image",
            Viewtype::Gif => "Gif",
            Viewtype::Sticker => "Sticker",
            Viewtype::Audio => "Audio",
            Viewtype::Voice => "Voice",
            Viewtype::Video => "Video",
            Viewtype::File => "File",
        };
        name.to_owned()
    }
}

impl Default for Viewtype {
    fn default() -> (r: Self)
        ensures
            r == Viewtype::Unknown,
    {
        Viewtype::Unknown
    }
}

impl Viewtype {
    /// Whether messages of this type carry a file.
    pub open spec fn has_file(self) -> bool {
        self != Viewtype::Unknown && self != Viewtype::Text
    }
}

/// Whether messages of this type carry a file.
pub fn msgtype_has_file(msgtype: Viewtype) -> (r: bool)
    ensures
        r == msgtype.has_file(),
{
    msgtype != Viewtype::Unknown && msgtype != Viewtype::Text
}

/// The kind of a chat.
#[derive(Debug, Clone, Copy, PartialEq, Eq, Structural)]
pub enum Chattype {
    Undefined,
    Single,
    Group,
    VerifiedGroup,
}

impl Chattype {
    /// The number under which the value is stored.
    pub open spec fn code(self) -> int {
        match self {
            Chattype::Undefined => 0,
            Chattype::Single => 100,
            Chattype::Group => 120,
            Chattype::VerifiedGroup => 130,
        }
    }

    /// The value stored under a number; numbers that stand for nothing give
    /// `Undefined`.
    pub open spec fn of_code(n: int) -> Chattype {
        if n == 100 {
            Chattype::Single
        } else if n == 120 {
            Chattype::Group
        } else if n == 130 {
            Chattype::VerifiedGroup
        } else {
            Chattype::Undefined
        }
    }

    /// The value stored under a number, or the default for an unknown one.
    pub fn from_i64(n: i64) -> (r: Chattype)
        ensures
            r == Chattype::of_code(n as int),
    {
        match n {
            100 => Chattype::Single,
            120 => Chattype::Group,
            130 => Chattype::VerifiedGroup,
            _ => Chattype::Undefined,
        }
    }
}

impl Default for Chattype {
    fn default() -> (r: Self)
        ensures
            r == Chattype::Undefined,
    {
        Chattype::Undefined
    }
}

/// Whether a chat is blocked, and why.
#[derive(Debug, Clone, Copy, PartialEq, Eq, Structural)]
pub enum Blocked {
    Not,
    Manually,
    Deaddrop,
}

impl Blocked {
    /// The number under which the value is stored.
    pub open spec fn code(self) -> int {
        match self {
            Blocked::Not => 0,
            Blocked::Manually => 1,
            Blocked::Deaddrop => 2,
        }
    }

    /// The value stored under a number; numbers that stand for nothing give
    /// `Not`.
    pub open spec fn of_code(n: int) -> Blocked {
        if n == 1 {
            Blocked::Manually
        } else if n == 2 {
            Blocked::Deaddrop
        } else {
            Blocked::Not
        }
    }

    /// The value stored under a number, or the default for an unknown one.
    pub fn from_i64(n: i64) -> (r: Blocked)
        ensures
            r == Blocked::of_code(n as int),
    {
        match n {
            1 => Blocked::Manually,
            2 => Blocked::Deaddrop,
            _ => Blocked::Not,
        }
    }
}

impl Default for Blocked {
    fn default() -> (r: Self)
        ensures
            r == Blocked::Not,
    {
        Blocked::Not
    }
}

/// The command that a message carries, if it is more than something to read.
#[derive(Debug, Clone, Copy, PartialEq, Eq, Structural)]
pub enum SystemMessage {
    Unknown,
    GroupNameChanged,
    GroupImageChanged,
    MemberAddedToGroup,
    MemberRemovedFromGroup,
    AutocryptSetupMessage,
    SecurejoinMessage,
    LocationStreamingEnabled,
    LocationOnly,
}

impl SystemMessage {
    /// The number under which the value is stored.
    pub open spec fn code(self) -> int {
        match self {
            SystemMessage::Unknown => 0,
            SystemMessage::GroupNameChanged => 2,
            SystemMessage::GroupImageChanged => 3,
            SystemMessage::MemberAddedToGroup => 4,
            SystemMessage::MemberRemovedFromGroup => 5,
            SystemMessage::AutocryptSetupMessage => 6,
            SystemMessage::SecurejoinMessage => 7,
            SystemMessage::LocationStreamingEnabled => 8,
            SystemMessage::LocationOnly => 9,
        }
    }

    /// The value stored under a number; numbers that stand for nothing give
    /// `Unknown`.
    pub open spec fn of_code(n: int) -> SystemMessage {
        if n == 2 {
            SystemMessage::GroupNameChanged
        } else if n == 3 {
            SystemMessage::GroupImageChanged
        } else if n == 4 {
            SystemMessage::MemberAddedToGroup
        } else if n == 5 {
            SystemMessage::MemberRemovedFromGroup
        } else if n == 6 {
            SystemMessage::AutocryptSetupMessage
        } else if n == 7 {
            SystemMessage::SecurejoinMessage
        } else if n == 8 {
            SystemMessage::LocationStreamingEnabled
        } else if n == 9 {
            SystemMessage::LocationOnly
        } else {
            SystemMessage::Unknown
        }
    }

    /// The number under which the value is stored.
    pub fn to_i32(self) -> (r: i32)
        ensures
            r == self.code(),
    {
        match self {
            SystemMessage::Unknown => 0,
            SystemMessage::GroupNameChanged => 2,
            SystemMessage::GroupImageChanged => 3,
            SystemMessage::MemberAddedToGroup => 4,
            SystemMessage::MemberRemovedFromGroup => 5,
            SystemMessage::AutocryptSetupMessage => 6,
            SystemMessage::SecurejoinMessage => 7,
            SystemMessage::LocationStreamingEnabled => 8,
            SystemMessage::LocationOnly => 9,
        }
    }

    /// The value stored under a number, or the default for an unknown one.
    pub fn from_i64(n: i64) -> (r: SystemMessage)
        ensures
            r == SystemMessage::of_code(n as int),
    {
        match n {
            2 => SystemMessage::GroupNameChanged,
            3 => SystemMessage::GroupImageChanged,
            4 => SystemMessage::MemberAddedToGroup,
            5 => SystemMessage::MemberRemovedFromGroup,
            6 => SystemMessage::AutocryptSetupMessage,
            7 => SystemMessage::SecurejoinMessage,
            8 => SystemMessage::LocationStreamingEnabled,
            9 => SystemMessage::LocationOnly,
            _ => SystemMessage::Unknown,
        }
    }
}

impl Default for SystemMessage {
    fn default() -> (r: Self)
        ensures
            r == SystemMessage::Unknown,
    {
        SystemMessage::Unknown
    }
}

/// The numbers that the types of messages are stored under, and their names. Any other number stands
/// for an unknown type.
pub proof fn viewtype_numbers(v: Viewtype, n: int)
    ensures
        v.code() == (match v {
            Viewtype::Unknown => 0int,
            Viewtype::Text => 10,
            Viewtype::Image => 20,
            Viewtype::Gif => 21,
            Viewtype::Sticker => 23,
            Viewtype::Audio => 40,
            Viewtype::Voice => 41,
            Viewtype::Video => 50,
            Viewtype::File => 60,
        }),
        n == v.code() ==> Viewtype::of_code(n) == v,
        Viewtype::of_code(n) != Viewtype::Unknown ==> Viewtype::of_code(n).code() == n,
        v.name() == (match v {
            Viewtype::Unknown => "Unknown"@,
            Viewtype::Text => "Text"@,
            Viewtype::Image => "Image"@,
            Viewtype::Gif => "Gif"@,
            Viewtype::Sticker => "Sticker"@,
            Viewtype::Audio => "Audio"@,
            Viewtype::Voice => "Voice"@,
            Viewtype::Video => "Video"@,
            Viewtype::File => "File"@,
        }),
        v.has_file() <==> v.code() >= 20,
{
}

/// The numbers that the kinds of chats are stored under.
pub proof fn chattype_numbers(t: Chattype, n: int)
    ensures
        t.code() == (match t {
            Chattype::Undefined => 0int,
            Chattype::Single => 100,
            Chattype::Group => 120,
            Chattype::VerifiedGroup => 130,
        }),
        n == t.code() ==> Chattype::of_code(n) == t,
        Chattype::of_code(n) != Chattype::Undefined ==> Chattype::of_code(n).code() == n,
{
}

/// The numbers that say whether a chat is blocked. Any other number says that it is not.
pub proof fn blocked_numbers(b: Blocked, n: int)
    ensures
        b.code() == (match b {
            Blocked::Not => 0int,
            Blocked::Manually => 1,
            Blocked::Deaddrop => 2,
        }),
        n == b.code() ==> Blocked::of_code(n) == b,
        Blocked::of_code(n) != Blocked::Not ==> Blocked::of_code(n).code() == n,
{
}

/// The numbers that the commands are stored under.
pub proof fn system_message_numbers(c: SystemMessage, n: int)
    ensures
        c.code() == (match c {
            SystemMessage::Unknown => 0int,
            SystemMessage::GroupNameChanged => 2,
            SystemMessage::GroupImageChanged => 3,
            SystemMessage::MemberAddedToGroup => 4,
            SystemMessage::MemberRemovedFromGroup => 5,
            SystemMessage::AutocryptSetupMessage => 6,
            SystemMessage::SecurejoinMessage => 7,
            SystemMessage::LocationStreamingEnabled => 8,
            SystemMessage::LocationOnly => 9,
        }),
        n == c.code() ==> SystemMessage::of_code(n) == c,
        SystemMessage::of_code(n) != SystemMessage::Unknown ==> SystemMessage::of_code(n).code()
            == n,
{
}

} // verus!
