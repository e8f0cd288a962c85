//! Summaries of messages.
use vstd::prelude::*;

use crate::chat::{Chat, Contact};
use crate::constants::{SystemMessage, Viewtype, DC_CHAT_ID_DEADDROP, DC_CONTACT_ID_SELF};
use crate::context::{Context, StockMessage};
use crate::lot::{Lot, LotState, Meaning};
use crate::message;
use crate::message::Message;
use crate::param;
use crate::param::{Param, Params};
use crate::path;
use crate::state::MessageState;
use crate::text;

verus! {

/// In practice, the user additionally cuts the string themselves
/// pixel-accurate.
pub const SUMMARY_CHARACTERS: usize = 160;

/// The name of the file that parameters refer to, or a name for one that cannot be told.
pub open spec fn summary_file_name(m: Map<Param, Seq<char>>, context: &Context) -> Seq<char> {
    match message::file_of(m, context) {
        Some(p) => match path::file_name_of(p) {
            Some(name) => name,
            None => "ErrFileName"@,
        },
        None => "ErrFileName"@,
    }
}

/// Two texts with a dash between them.
pub open spec fn dashed(a: Seq<char>, b: Seq<char>) -> Seq<char> {
    a + " \u{2013} "@ + b
}

/// Whether the summary says no more than what kind of message it is.
pub open spec fn says_kind_only(viewtype: Viewtype, m: Map<Param, Seq<char>>) -> bool {
    match viewtype {
        Viewtype::Audio | Viewtype::File => param::cmd_of(m)
            == SystemMessage::AutocryptSetupMessage,
        Viewtype::Text | Viewtype::Unknown => param::cmd_of(m) == SystemMessage::LocationOnly,
        _ => false,
    }
}

/// The kind of message that the summary begins with: nothing for a plain text.
pub open spec fn summary_prefix(
    viewtype: Viewtype,
    m: Map<Param, Seq<char>>,
    context: &Context,
) -> Seq<char> {
    match viewtype {
        Viewtype::Image => context.stock(StockMessage::Image),
        Viewtype::Gif => context.stock(StockMessage::Gif),
        Viewtype::Sticker => context.stock(StockMessage::Sticker),
        Viewtype::Video => context.stock(StockMessage::Video),
        Viewtype::Voice => context.stock(StockMessage::VoiceMessage),
        Viewtype::Audio | Viewtype::File => if says_kind_only(viewtype, m) {
            context.stock(StockMessage::AcSetupMsgSubject)
        } else {
            dashed(
                context.stock(
                    if viewtype == Viewtype::Audio {
                        StockMessage::Audio
                    } else {
                        StockMessage::File
                    },
                ),
                summary_file_name(m, context),
            )
        },
        Viewtype::Text | Viewtype::Unknown => if says_kind_only(viewtype, m) {
            context.stock(StockMessage::Location)
        } else {
            Seq::empty()
        },
    }
}

/// A summary: the kind of message, then its text, shortened where there is a text.
pub open spec fn summary_text(
    viewtype: Viewtype,
    text: Option<Seq<char>>,
    m: Map<Param, Seq<char>>,
    approx_characters: nat,
    context: &Context,
) -> Seq<char> {
    let prefix = summary_prefix(viewtype, m, context);
    match text {
        Some(t) => if says_kind_only(viewtype, m) || t.len() == 0 {
            prefix
        } else if prefix.len() == 0 {
            text::truncated(t, approx_characters, true)
        } else {
            text::truncated(dashed(prefix, t), approx_characters, true)
        },
        None => prefix,
    }
}

/// The text, if there is one.
pub open spec fn referenced_text(text: Option<&String>) -> Option<Seq<char>> {
    match text {
        Some(t) => Some(t@),
        None => None,
    }
}

fn dash(a: &str, b: &str) -> (r: String)
    ensures
        r@ == dashed(a@, b@),
{
    let mut out: String = a.to_owned();
    out.append(" \u{2013} ");
    out.append(b);
    out
}

/// Returns a summary text.
pub fn get_summarytext_by_raw(
    viewtype: Viewtype,
    text: Option<&String>,
    param: &Params,
    approx_characters: usize,
    context: &Context,
) -> (r: String)
    ensures
        r@ == summary_text(
            viewtype,
            referenced_text(text),
            param@,
            approx_characters as nat,
            context,
        ),
{
    let mut append_text: bool = true;
    let prefix: String = match viewtype {
        Viewtype::Image => context.stock_str(StockMessage::Image),
        Viewtype::Gif => context.stock_str(StockMessage::Gif),
        Viewtype::Sticker => context.stock_str(StockMessage::Sticker),
        Viewtype::Video => context.stock_str(StockMessage::Video),
        Viewtype::Voice => context.stock_str(StockMessage::VoiceMessage),
        Viewtype::Audio | Viewtype::File => {
            if param.get_cmd() == SystemMessage::AutocryptSetupMessage {
                append_text = false;
                context.stock_str(StockMessage::AcSetupMsgSubject)
            } else {
                let file: Option<String> = message::file_path(param, context);
                let file_name: &str = match &file {
                    Some(p) => match path::file_name(p.as_str()) {
                        Some(name) => name,
                        None => "ErrFileName",
                    },
                    None => "ErrFileName",
                };
                let label: String = context.stock_str(
                    if viewtype == Viewtype::Audio {
                        StockMessage::Audio
                    } else {
                        StockMessage::File
                    },
                );
                dash(label.as_str(), file_name)
            }
        },
        Viewtype::Text | Viewtype::Unknown => {
            if param.get_cmd() != SystemMessage::LocationOnly {
                String::new()
            } else {
                append_text = false;
                context.stock_str(StockMessage::Location)
            }
        },
    };
    assert(prefix@ == summary_prefix(viewtype, param@, context));
    assert(append_text == !says_kind_only(viewtype, param@));
    if !append_text {
        return prefix;
    }
    match text {
        Some(text) => if text.as_str().is_empty() {
            prefix
        } else if prefix.as_str().is_empty() {
            text::dc_truncate(text.as_str(), approx_characters, true)
        } else {
            let tmp: String = dash(prefix.as_str(), text.as_str());
            text::dc_truncate(tmp.as_str(), approx_characters, true)
        },
        None => prefix,
    }
}

/// Whether the first text of the summary is left empty.
pub open spec fn hides_sender(msg: Message, chat: Chat, contact: Option<&Contact>) -> bool {
    if msg.from_id == DC_CONTACT_ID_SELF {
        msg.info() || chat.self_talk
    } else {
        msg.info() || contact is None
    }
}

/// The first text of the summary of a message and what it means; `before` is what they were, and
/// what they stay in a chat of two.
pub open spec fn summary_sender(
    before: (Option<Seq<char>>, Meaning),
    msg: Message,
    chat: Chat,
    contact: Option<&Contact>,
    context: &Context,
) -> (Option<Seq<char>>, Meaning) {
    if msg.state == MessageState::OutDraft {
        (Some(context.stock(StockMessage::Draft)), Meaning::Text1Draft)
    } else if msg.from_id == DC_CONTACT_ID_SELF {
        if hides_sender(msg, chat, contact) {
            (None, Meaning::Nothing)
        } else {
            (Some(context.stock(StockMessage::SelfMsg)), Meaning::Text1Self)
        }
    } else if chat.group() {
        if hides_sender(msg, chat, contact) {
            (None, Meaning::Nothing)
        } else if chat.id == DC_CHAT_ID_DEADDROP {
            (Some(contact->0.display_name@), Meaning::Text1Username)
        } else {
            (Some(contact->0.first_name@), Meaning::Text1Username)
        }
    } else {
        before
    }
}

/// Whether `after` is what a summary becomes that is filled for a message; `before` is what its
/// first text was, and what that meant.
pub open spec fn filled(
    before: (Option<Seq<char>>, Meaning),
    after: Lot,
    msg: Message,
    chat: Chat,
    contact: Option<&Contact>,
    context: &Context,
) -> bool {
    &&& (text::viewed_option(after.text1), after.text1_meaning) == summary_sender(
        before,
        msg,
        chat,
        contact,
        context,
    )
    &&& text::viewed_option(after.text2) == Some(
        summary_text(
            msg.type_0,
            text::viewed_option(msg.text),
            msg.param@,
            SUMMARY_CHARACTERS as nat,
            context,
        ),
    )
    &&& after.timestamp == msg.shown_timestamp()
    &&& after.state == LotState::of_state(msg.state)
}

impl Lot {
    /// Fills the summary for a message.
    pub fn fill(&mut self, msg: &Message, chat: &Chat, contact: Option<&Contact>, context: &Context)
        ensures
            filled(
                (text::viewed_option(old(self).text1), old(self).text1_meaning),
                *final(self),
                *msg,
                *chat,
                contact,
                context,
            ),
    {
        if msg.state == MessageState::OutDraft {
            self.text1 = Some(context.stock_str(StockMessage::Draft));
            self.text1_meaning = Meaning::Text1Draft;
        } else if msg.from_id == DC_CONTACT_ID_SELF {
            if msg.is_info() || chat.is_self_talk() {
                self.text1 = None;
                self.text1_meaning = Meaning::Nothing;
            } else {
                self.text1 = Some(context.stock_str(StockMessage::SelfMsg));
                self.text1_meaning = Meaning::Text1Self;
            }
        } else if chat.is_group() {
            match contact {
                Some(contact) if !msg.is_info() => {
                    if chat.id == DC_CHAT_ID_DEADDROP {
                        self.text1 = Some(contact.display_name.clone());
                    } else {
                        self.text1 = Some(contact.first_name.clone());
                    }
                    self.text1_meaning = Meaning::Text1Username;
                },
                _ => {
                    self.text1 = None;
                    self.text1_meaning = Meaning::Nothing;
                },
            }
        }
        self.text2 = Some(
            get_summarytext_by_raw(
                msg.type_0,
                msg.text.as_ref(),
                &msg.param,
                SUMMARY_CHARACTERS,
                context,
            ),
        );
        self.timestamp = msg.get_timestamp();
        self.state = LotState::from(msg.state);
    }
}

impl Message {
    /// Whether the summary of the message may name its sender.
    pub open spec fn names_sender(self, chat: Chat) -> bool {
        self.from_id != DC_CONTACT_ID_SELF && chat.group()
    }

    /// The contact that has to be known for the summary of the message in a chat.
    pub fn summary_contact(&self, chat: &Chat) -> (r: Option<u32>)
        ensures
            r == (if self.names_sender(*chat) {
                Some(self.from_id)
            } else {
                None
            }),
    {
        if self.from_id != DC_CONTACT_ID_SELF && chat.is_group() {
            Some(self.from_id)
        } else {
            None
        }
    }

    /// The summary of the message. `chat` is the chat that it is in, if that is known, and
    /// `contact` the one that [`Message::summary_contact`] asks for, if it is known.
    pub fn get_summary(
        &self,
        context: &Context,
        chat: Option<&Chat>,
        contact: Option<&Contact>,
    ) -> (r: Lot)
        ensures
            is_summary(*self, r, context, chat, contact),
    {
        let mut ret: Lot = Lot::new();
        match chat {
            Some(chat) => {
                let contact: Option<&Contact> = if self.summary_contact(chat).is_some() {
                    contact
                } else {
                    None
                };
                ret.fill(self, chat, contact, context);
            },
            None => {},
        }
        ret
    }

    /// The summary text of the message.
    pub fn get_summarytext(&self, context: &Context, approx_characters: usize) -> (r: String)
        ensures
            r@ == summary_text(
                self.type_0,
                text::viewed_option(self.text),
                self.param@,
                approx_characters as nat,
                context,
            ),
    {
        get_summarytext_by_raw(
            self.type_0,
            self.text.as_ref(),
            &self.param,
            approx_characters,
            context,
        )
    }
}

/// Whether `r` is the summary of a message in a chat, if that is known; `contact` is the sender, if
/// they are known. Only where the sender may be named do they matter.
pub open spec fn is_summary(
    msg: Message,
    r: Lot,
    context: &Context,
    chat: Option<&Chat>,
    contact: Option<&Contact>,
) -> bool {
    match chat {
        Some(chat) => filled(
            (None, Meaning::Nothing),
            r,
            msg,
            *chat,
            if msg.names_sender(*chat) {
                contact
            } else {
                None
            },
            context,
        ),
        None => r.is_blank(),
    }
}

/// File names are not added for images, animated images, stickers, videos and voice messages:
/// whatever parameters such a message has, its summary is the same.
pub proof fn no_file_name_for_pictures_and_recordings(
    viewtype: Viewtype,
    text: Option<Seq<char>>,
    m1: Map<Param, Seq<char>>,
    m2: Map<Param, Seq<char>>,
    approx_characters: nat,
    context: &Context,
)
    requires
        viewtype is Image || viewtype is Gif || viewtype is Sticker || viewtype is Video
            || viewtype is Voice,
    ensures
        summary_text(viewtype, text, m1, approx_characters, context) == summary_text(
            viewtype,
            text,
            m2,
            approx_characters,
            context,
        ),
{
}

/// An empty text is skipped.
pub proof fn empty_text_is_skipped(
    viewtype: Viewtype,
    m: Map<Param, Seq<char>>,
    approx_characters: nat,
    context: &Context,
)
    ensures
        summary_text(viewtype, Some(Seq::empty()), m, approx_characters, context) == summary_text(
            viewtype,
            None,
            m,
            approx_characters,
            context,
        ),
{
}

/// For simple text, the type is not added to the summary, and the summary keeps to its limit, if
/// there is one.
pub proof fn plain_text_is_its_own_summary(
    text: Seq<char>,
    m: Map<Param, Seq<char>>,
    approx_characters: nat,
    context: &Context,
)
    requires
        param::cmd_of(m) != SystemMessage::LocationOnly,
    ensures
        ({
            let summary = summary_text(Viewtype::Text, Some(text), m, approx_characters, context);
            &&& summary == text::truncated(text, approx_characters, true)
            &&& approx_characters > 0 ==> summary.len() <= approx_characters + text::ellipse(true).len()
        }),
{
    text::truncation_keeps_its_limit(text, approx_characters, true);
    if text.len() == 0 {
        assert(text =~= Seq::<char>::empty());
    }
}

/// The summary of a message that transfers keys says so and nothing else: neither the name of the
/// file nor a text is added.
pub proof fn nothing_is_added_for_setup_messages(
    msg: Message,
    approx_characters: nat,
    context: &Context,
)
    requires
        msg.setupmessage(),
    ensures
        summary_text(
            msg.type_0,
            text::viewed_option(msg.text),
            msg.param@,
            approx_characters,
            context,
        ) == context.stock(StockMessage::AcSetupMsgSubject),
{
}

/// The summary of an image, an animated image, a sticker, a video or a voice message, whatever
/// parameters it has, says its kind, and behind a dash its text if it has one, the whole shortened to
/// the limit. The text stands alone only if the kind has an empty translation.
pub proof fn captions_are_kept(
    viewtype: Viewtype,
    said: Seq<char>,
    m: Map<Param, Seq<char>>,
    approx_characters: nat,
    context: &Context,
)
    requires
        viewtype is Image || viewtype is Gif || viewtype is Sticker || viewtype is Video
            || viewtype is Voice,
    ensures
        ({
            let kind = context.stock(
                match viewtype {
                    Viewtype::Image => StockMessage::Image,
                    Viewtype::Gif => StockMessage::Gif,
                    Viewtype::Sticker => StockMessage::Sticker,
                    Viewtype::Video => StockMessage::Video,
                    _ => StockMessage::VoiceMessage,
                },
            );
            let summary = summary_text(viewtype, Some(said), m, approx_characters, context);
            &&& summary_text(viewtype, None, m, approx_characters, context) == kind
            &&& said.len() == 0 ==> summary == kind
            &&& said.len() > 0 && kind.len() > 0 ==> summary == text::truncated(
                kind + " \u{2013} "@ + said,
                approx_characters,
                true,
            )
            &&& said.len() > 0 && kind.len() == 0 ==> summary == text::truncated(
                said,
                approx_characters,
                true,
            )
        }),
{
}

/// The summary of an audio file or of any other file says its kind and, behind a dash, the name that
/// the path of the file ends in, or that there is none to be told, and behind another dash its text
/// if it has one. This is shortened to the limit only if there is a text. A message that transfers
/// keys (command 6) is the exception: only this is said of it.
pub proof fn files_are_named(
    viewtype: Viewtype,
    said: Seq<char>,
    m: Map<Param, Seq<char>>,
    approx_characters: nat,
    context: &Context,
)
    requires
        viewtype is Audio || viewtype is File,
    ensures
        ({
            let kind = context.stock(
                if viewtype is Audio {
                    StockMessage::Audio
                } else {
                    StockMessage::File
                },
            );
            let name = if m.contains_key(Param::File) {
                match param::referenced_path(m[Param::File], context.blobdir@) {
                    Ok(p) => match path::file_name_of(p) {
                        Some(name) => name,
                        None => "ErrFileName"@,
                    },
                    Err(_) => "ErrFileName"@,
                }
            } else {
                "ErrFileName"@
            };
            let named = kind + " \u{2013} "@ + name;
            let summary = summary_text(viewtype, Some(said), m, approx_characters, context);
            let silent = summary_text(viewtype, None, m, approx_characters, context);
            if param::int_or_zero(m, Param::Cmd) == 6 {
                &&& summary == context.stock(StockMessage::AcSetupMsgSubject)
                &&& silent == context.stock(StockMessage::AcSetupMsgSubject)
            } else {
                &&& silent == named
                &&& said.len() == 0 ==> summary == named
                &&& said.len() > 0 ==> summary == text::truncated(
                    named + " \u{2013} "@ + said,
                    approx_characters,
                    true,
                )
            }
        }),
{
    reveal_strlit(" \u{2013} ");
}

/// The summary of a text, or of a message of unknown kind, is the text itself, shortened to the
/// limit. A message that is only a location (command 9) is the exception: only this is said of it.
pub proof fn texts_speak_for_themselves(
    viewtype: Viewtype,
    said: Seq<char>,
    m: Map<Param, Seq<char>>,
    approx_characters: nat,
    context: &Context,
)
    requires
        viewtype is Text || viewtype is Unknown,
    ensures
        ({
            let summary = summary_text(viewtype, Some(said), m, approx_characters, context);
            let silent = summary_text(viewtype, None, m, approx_characters, context);
            if param::int_or_zero(m, Param::Cmd) == 9 {
                &&& summary == context.stock(StockMessage::Location)
                &&& silent == context.stock(StockMessage::Location)
            } else {
                &&& silent == Seq::<char>::empty()
                &&& summary == text::truncated(said, approx_characters, true)
            }
        }),
{
    if said.len() == 0 {
        assert(said =~= Seq::<char>::empty());
    }
}

/// The user's own messages are announced as such in every chat, whatever its kind and identifier,
/// unless it is the chat with oneself or the message tells of something that happened. A draft is
/// announced as a draft, whoever is in the chat.
pub proof fn own_messages_are_announced(
    msg: Message,
    r: Lot,
    context: &Context,
    chat: &Chat,
    contact: Option<&Contact>,
)
    requires
        is_summary(msg, r, context, Some(chat), contact),
    ensures
        msg.state is OutDraft ==> text::viewed_option(r.text1) == Some(
            context.stock(StockMessage::Draft),
        ) && r.text1_meaning is Text1Draft,
        !(msg.state is OutDraft) && msg.from_id == 1 && !msg.info() && !chat.self_talk
            ==> text::viewed_option(r.text1) == Some(context.stock(StockMessage::SelfMsg))
            && r.text1_meaning is Text1Self,
        !(msg.state is OutDraft) && msg.from_id == 1 && (msg.info() || chat.self_talk) ==> r.text1
            is None && r.text1_meaning is Nothing,
{
}

/// In a group or a verified group the sender is named by the first name, in the one for unknown
/// senders by the whole name, unless the message tells of something that happened or the sender is
/// not known. In any other chat nobody is named.
pub proof fn senders_are_named_in_groups(
    msg: Message,
    r: Lot,
    context: &Context,
    chat: &Chat,
    contact: Option<&Contact>,
)
    requires
        is_summary(msg, r, context, Some(chat), contact),
        msg.from_id != 1,
        !(msg.state is OutDraft),
    ensures
        (chat.typ is Group || chat.typ is VerifiedGroup) && !msg.info() ==> match contact {
            Some(contact) => text::viewed_option(r.text1) == Some(
                if chat.id == 1 {
                    contact.display_name@
                } else {
                    contact.first_name@
                },
            ) && r.text1_meaning is Text1Username,
            None => r.text1 is None && r.text1_meaning is Nothing,
        },
        (chat.typ is Group || chat.typ is VerifiedGroup) && msg.info() ==> r.text1 is None
            && r.text1_meaning is Nothing,
        chat.typ is Single || chat.typ is Undefined ==> r.text1 is None && r.text1_meaning
            is Nothing,
{
}

/// A summary that is filled for a message of somebody else in a chat that is no group keeps its first
/// text; in all other chats the first text does not depend on what it was.
pub proof fn first_texts_are_kept_in_chats_of_two(
    before: (Option<Seq<char>>, Meaning),
    other: (Option<Seq<char>>, Meaning),
    msg: Message,
    chat: Chat,
    contact: Option<&Contact>,
    context: &Context,
)
    ensures
        ({
            let after = summary_sender(before, msg, chat, contact, context);
            if !(msg.state is OutDraft) && msg.from_id != 1 && (chat.typ is Single || chat.typ
                is Undefined) {
                after == before
            } else {
                after == summary_sender(other, msg, chat, contact, context)
            }
        }),
{
}

/// Whatever chat a message is in, its summary has the summary text with a limit of 160 characters,
/// the time that is shown, and the state of the message. Without a chat there is nothing.
pub proof fn summaries_tell_text_time_and_state(
    msg: Message,
    r: Lot,
    context: &Context,
    chat: Option<&Chat>,
    contact: Option<&Contact>,
)
    requires
        is_summary(msg, r, context, chat, contact),
    ensures
        chat is Some ==> {
            &&& text::viewed_option(r.text2) == Some(
                summary_text(
                    msg.type_0,
                    text::viewed_option(msg.text),
                    msg.param@,
                    160,
                    context,
                ),
            )
            &&& r.timestamp == (if msg.timestamp_sent != 0 {
                msg.timestamp_sent
            } else {
                msg.timestamp_sort
            })
            &&& r.state == (match msg.state {
                MessageState::Undefined => LotState::Undefined,
                MessageState::InFresh => LotState::MsgInFresh,
                MessageState::InNoticed => LotState::MsgInNoticed,
                MessageState::InSeen => LotState::MsgInSeen,
                MessageState::OutPreparing => LotState::MsgOutPreparing,
                MessageState::OutDraft => LotState::MsgOutDraft,
                MessageState::OutPending => LotState::MsgOutPending,
                MessageState::OutFailed => LotState::MsgOutFailed,
                MessageState::OutDelivered => LotState::MsgOutDelivered,
                MessageState::OutMdnRcvd => LotState::MsgOutMdnRcvd,
            })
        },
        chat is None ==> r.text1 is None && r.text2 is None && r.text1_meaning is Nothing
            && r.timestamp == 0 && r.state is Undefined,
{
}

/// The sender has to be known just for the messages of others in groups and verified groups.
pub proof fn contacts_that_are_asked_for(msg: Message, chat: Chat)
    ensures
        msg.names_sender(chat) <==> msg.from_id != 1 && (chat.typ is Group || chat.typ
            is VerifiedGroup),
{
}

/// The text that a summary is asked for is the one that it speaks of.
pub proof fn summaries_speak_of_their_text(said: &String)
    ensures
        referenced_text(Some(said)) == Some(said@),
        referenced_text(None) is None,
        text::viewed_option(Some(*said)) == Some(said@),
        text::viewed_option(None) is None,
{
}

} // verus!
