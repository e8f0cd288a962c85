//! What a user is told who asks for the details of a message.
use vstd::prelude::*;

use crate::chat::Contact;
use crate::column;
use crate::column::{read_i32, read_text};
use crate::constants::{Viewtype, DC_CONTACT_ID_INFO, DC_CONTACT_ID_SELF};
use crate::context::Context;
use crate::message::Message;
use crate::msgid::MsgId;
use crate::param;
use crate::param::{Param, Params};
use crate::sql;
use crate::sql::{ColumnValue, Statement};
use crate::state::MessageState;
use crate::text;

verus! {

/// The longest text, in about as many characters, that is shown among the details.
pub const MAX_INFO_TEXT_LEN: usize = 100000;

/// What has to be found out before the details of a message can be told.
#[derive(Debug, Clone)]
pub struct InfoRequest {
    /// The time to be written as the one of sending.
    pub sent: i64,
    /// The contact who sent the message.
    pub sender: u32,
    /// The time to be written as the one of receiving.
    pub received: Option<i64>,
    /// The statement that asks for receipts.
    pub receipts: Option<Statement>,
}

/// A row that answers [`Statement::Receipts`].
#[derive(Debug, Clone)]
pub struct ReceiptRow {
    /// Who sent the receipt.
    pub contact_id: ColumnValue,
    /// When it was sent.
    pub timestamp_sent: ColumnValue,
}

impl ReceiptRow {
    /// Who sent the receipt, and when, if the row tells both.
    pub open spec fn told(self) -> Option<(u32, i64)> {
        match (column::answered_i32(Some(&self.contact_id)), self.timestamp_sent.as_int()) {
            (Some(contact_id), Ok(timestamp_sent)) => Some(
                (sql::unwrapped(contact_id), timestamp_sent),
            ),
            _ => None,
        }
    }

    fn read(&self) -> (r: Option<(u32, i64)>)
        ensures
            r == self.told(),
    {
        match (read_i32(Some(&self.contact_id)), self.timestamp_sent.integer()) {
            (Some(contact_id), Ok(timestamp_sent)) => Some(
                (sql::unwrap(contact_id), timestamp_sent),
            ),
            _ => None,
        }
    }
}

/// Reads who sent the receipts for a message, and when. If one row does not tell, no receipt
/// counts.
pub fn read_receipts(rows: &Vec<ReceiptRow>) -> (r: Option<Vec<(u32, i64)>>)
    ensures
        match r {
            Some(receipts) => {
                &&& receipts@.len() == rows@.len()
                &&& forall|i: int|
                    0 <= i < rows@.len() ==> (#[trigger] rows@[i]).told() == Some(receipts@[i])
            },
            None => exists|i: int| 0 <= i < rows@.len() && (#[trigger] rows@[i]).told() is None,
        },
{
    let mut out: Vec<(u32, i64)> = Vec::new();
    let mut i: usize = 0;
    while i < rows.len()
        invariant
            i <= rows@.len(),
            out@.len() == i,
            forall|j: int| 0 <= j < i ==> (#[trigger] rows@[j]).told() == Some(out@[j]),
        decreases rows.len() - i,
    {
        match rows[i].read() {
            Some(receipt) => {
                out.push(receipt);
            },
            None => {
                assert(rows@[i as int].told() is None);
                return None;
            },
        }
        i += 1;
    }
    Some(out)
}

/// A receipt for a message.
#[derive(Debug, Clone)]
pub struct Receipt {
    /// When it was sent, in local time.
    pub time: String,
    /// Who sent it, if that is known.
    pub contact: Option<Contact>,
}

/// What was found out on an [`InfoRequest`].
#[derive(Debug, Clone)]
pub struct InfoReply {
    /// When the message was sent, in local time.
    pub sent: String,
    /// Who sent it, if that is known.
    pub sender: Option<Contact>,
    /// When it was received, in local time.
    pub received: String,
    /// The receipts for it, if they could be asked for.
    pub receipts: Option<Vec<Receipt>>,
    /// The size of its file.
    pub file_bytes: u64,
}

impl Message {
    /// Whether the message came from outside.
    pub open spec fn not_from_self(self) -> bool {
        self.from_id != DC_CONTACT_ID_SELF
    }

    /// Whether the message is one of the device itself.
    pub open spec fn device_internal(self) -> bool {
        self.from_id == DC_CONTACT_ID_INFO || self.to_id == DC_CONTACT_ID_INFO
    }

    /// What has to be found out before the details of the message can be told. The messages of
    /// the user have no time of receiving, and those of the device no receipts.
    pub fn info_request(&self, msg_id: MsgId) -> (r: InfoRequest)
        ensures
            r.sent == self.shown_timestamp(),
            r.sender == self.from_id,
            r.received == (if self.not_from_self() {
                Some(
                    if self.timestamp_rcvd != 0 {
                        self.timestamp_rcvd
                    } else {
                        self.timestamp_sort
                    },
                )
            } else {
                None
            }),
            r.receipts == (if self.device_internal() {
                None::<Statement>
            } else {
                Some(Statement::Receipts(msg_id))
            }),
    {
        let received: Option<i64> = if self.from_id != DC_CONTACT_ID_SELF {
            Some(
                if 0 != self.timestamp_rcvd {
                    self.timestamp_rcvd
                } else {
                    self.timestamp_sort
                },
            )
        } else {
            None
        };
        let receipts: Option<Statement> = if self.from_id == DC_CONTACT_ID_INFO || self.to_id
            == DC_CONTACT_ID_INFO {
            None
        } else {
            Some(Statement::Receipts(msg_id))
        };
        InfoRequest { sent: self.get_timestamp(), sender: self.from_id, received, receipts }
    }
}

/// How a contact is called who may be unknown.
pub open spec fn name_or_nothing(contact: Option<Contact>) -> Seq<char> {
    match contact {
        Some(contact) => contact.name_n_addr@,
        None => Seq::empty(),
    }
}

/// The lines on the receipts for a message.
pub open spec fn receipt_lines(receipts: Seq<Receipt>) -> Seq<char>
    decreases receipts.len(),
{
    if receipts.len() == 0 {
        Seq::empty()
    } else {
        let last = receipts.last();
        receipt_lines(receipts.drop_last()) + "Read: "@ + last.time@ + " by "@ + name_or_nothing(
            last.contact,
        ) + "\n"@
    }
}

/// What is told of sending and receiving.
pub open spec fn times_part(msg: Message, reply: InfoReply) -> Seq<char> {
    let sent = "Sent: "@ + reply.sent@ + " by "@ + name_or_nothing(reply.sender) + "\n"@;
    if msg.not_from_self() {
        sent + "Received: "@ + reply.received@ + "\n"@
    } else {
        sent
    }
}

/// What is told of receipts.
pub open spec fn receipts_part(reply: InfoReply) -> Seq<char> {
    match reply.receipts {
        Some(receipts) => receipt_lines(receipts@),
        None => Seq::empty(),
    }
}

/// The word for a state.
pub open spec fn state_word(state: MessageState) -> Seq<char> {
    match state {
        MessageState::InFresh => "Fresh"@,
        MessageState::InNoticed => "Noticed"@,
        MessageState::InSeen => "Seen"@,
        MessageState::OutDelivered => "Delivered"@,
        MessageState::OutFailed => "Failed"@,
        MessageState::OutMdnRcvd => "Read"@,
        MessageState::OutPending => "Pending"@,
        MessageState::OutPreparing => "Preparing"@,
        MessageState::Undefined | MessageState::OutDraft => state.name(),
    }
}

/// Whether the signature of a message is reported as missing or wrong.
pub open spec fn signature_invalid(e2ee_errors: int) -> bool {
    (e2ee_errors / 2) % 2 == 1
}

/// What is told of the encryption of a message.
pub open spec fn encryption_part(m: Map<Param, Seq<char>>) -> Seq<char> {
    let errors = param::int_or_zero(m, Param::ErroneousE2ee);
    if errors != 0 {
        if signature_invalid(errors) {
            ", Encrypted, no valid signature"@
        } else {
            Seq::empty()
        }
    } else if param::int_or_zero(m, Param::GuaranteeE2ee) != 0 {
        ", Encrypted"@
    } else {
        Seq::empty()
    }
}

/// What is told of the state of a message.
pub open spec fn state_part(msg: Message) -> Seq<char> {
    let location = if msg.location_id != 0 {
        ", Location sent"@
    } else {
        Seq::empty()
    };
    let error = match param::value_of(msg.param@, Param::Error) {
        Some(error) => "Error: "@ + error,
        None => Seq::empty(),
    };
    "State: "@ + state_word(msg.state) + location + encryption_part(msg.param@) + "\n"@ + error
}

/// What is told of the file of a message.
pub open spec fn file_part(msg: Message, reply: InfoReply, context: &Context) -> Seq<char> {
    let file = match msg.file(context) {
        Some(p) => "\nFile: "@ + p + ", "@ + text::decimal(reply.file_bytes as nat) + ", bytes\n"@,
        None => Seq::empty(),
    };
    let kind = if msg.type_0 != Viewtype::Text {
        "Type: "@ + msg.type_0.name() + "\n"@ + "Mimetype: "@ + (match msg.filemime() {
            Some(mime) => mime,
            None => Seq::empty(),
        }) + "\n"@
    } else {
        Seq::empty()
    };
    file + kind
}

/// What is told of the size and the length of a recording.
pub open spec fn media_part(m: Map<Param, Seq<char>>) -> Seq<char> {
    let w = param::int_or_zero(m, Param::Width);
    let h = param::int_or_zero(m, Param::Height);
    let duration = param::int_or_zero(m, Param::Duration);
    let dimension = if w != 0 || h != 0 {
        "Dimension: "@ + text::signed_decimal(w) + " x "@ + text::signed_decimal(h) + "\n"@
    } else {
        Seq::empty()
    };
    if duration != 0 {
        dimension + "Duration: "@ + text::signed_decimal(duration) + " ms\n"@
    } else {
        dimension
    }
}

/// What is told of the text of a message, and of where it came from.
pub open spec fn origin_part(msg: Message, rawtxt: Seq<char>) -> Seq<char> {
    let shown = text::truncated(text::trimmed(rawtxt), MAX_INFO_TEXT_LEN as nat, false);
    let body = if shown.len() > 0 {
        "\n"@ + shown + "\n"@
    } else {
        Seq::empty()
    };
    let mid = if msg.rfc724_mid@.len() > 0 {
        "\nMessage-ID: "@ + msg.rfc724_mid@
    } else {
        Seq::empty()
    };
    let seen = match msg.server_folder {
        Some(folder) => if folder@.len() > 0 {
            "\nLast seen as: "@ + folder@ + "/"@ + text::decimal(msg.server_uid as nat)
        } else {
            Seq::empty()
        },
        None => Seq::empty(),
    };
    body + mid + seen
}

/// The details of a message: nothing of one that could not be loaded, one sentence if its text
/// could not, and only the times of one of the device itself.
pub open spec fn msg_info(
    msg_id: MsgId,
    msg: Option<&Message>,
    rawtxt: Option<&ColumnValue>,
    reply: InfoReply,
    context: &Context,
) -> Seq<char> {
    match msg {
        Some(msg) => match column::answered_text(rawtxt) {
            Some(rawtxt) => if msg.device_internal() {
                times_part(*msg, reply)
            } else {
                times_part(*msg, reply) + receipts_part(reply) + state_part(*msg) + file_part(
                    *msg,
                    reply,
                    context,
                ) + media_part(msg.param@) + origin_part(*msg, rawtxt)
            },
            None => "Cannot load message "@ + msg_id.shown() + "."@,
        },
        None => Seq::empty(),
    }
}

fn append_times(ret: &mut String, msg: &Message, reply: &InfoReply)
    ensures
        final(ret)@ == old(ret)@ + times_part(*msg, *reply),
{
    ret.append("Sent: ");
    ret.append(reply.sent.as_str());
    ret.append(" by ");
    if let Some(contact) = &reply.sender {
        ret.append(contact.name_n_addr.as_str());
    }
    ret.append("\n");
    if msg.from_id != DC_CONTACT_ID_SELF {
        ret.append("Received: ");
        ret.append(reply.received.as_str());
        ret.append("\n");
    }
    assert(ret@ =~= old(ret)@ + times_part(*msg, *reply));
}

fn append_receipts(ret: &mut String, reply: &InfoReply)
    ensures
        final(ret)@ == old(ret)@ + receipts_part(*reply),
{
    if let Some(receipts) = &reply.receipts {
        let mut i: usize = 0;
        assert(receipts@.take(0).len() == 0);
        assert(ret@ =~= old(ret)@ + receipt_lines(receipts@.take(0)));
        while i < receipts.len()
            invariant
                i <= receipts@.len(),
                ret@ == old(ret)@ + receipt_lines(receipts@.take(i as int)),
            decreases receipts.len() - i,
        {
            ret.append("Read: ");
            ret.append(receipts[i].time.as_str());
            ret.append(" by ");
            if let Some(contact) = &receipts[i].contact {
                ret.append(contact.name_n_addr.as_str());
            }
            ret.append("\n");
            assert(receipts@.take(i + 1).drop_last() == receipts@.take(i as int));
            assert(ret@ =~= old(ret)@ + receipt_lines(receipts@.take(i + 1)));
            i += 1;
        }
        assert(receipts@.take(i as int) == receipts@);
    }
}

fn state_text(state: MessageState) -> (r: String)
    ensures
        r@ == state_word(state),
{
    match state {
        MessageState::InFresh => "Fresh".to_owned(),
        MessageState::InNoticed => "Noticed".to_owned(),
        MessageState::InSeen => "Seen".to_owned(),
        MessageState::OutDelivered => "Delivered".to_owned(),
        MessageState::OutFailed => "Failed".to_owned(),
        MessageState::OutMdnRcvd => "Read".to_owned(),
        MessageState::OutPending => "Pending".to_owned(),
        MessageState::OutPreparing => "Preparing".to_owned(),
        _ => state.to_string(),
    }
}

fn encryption_text(param: &Params) -> (r: &'static str)
    ensures
        r@ == encryption_part(param@),
{
    proof {
        reveal_strlit("");
        assert(""@ =~= Seq::<char>::empty());
    }
    let e2ee_errors: i32 = param.get_int_or_zero(Param::ErroneousE2ee);
    if 0 != e2ee_errors {
        proof {
            lemma_signature_bit(e2ee_errors);
        }
        if 0 != e2ee_errors & 0x2 {
            ", Encrypted, no valid signature"
        } else {
            ""
        }
    } else if 0 != param.get_int_or_zero(Param::GuaranteeE2ee) {
        ", Encrypted"
    } else {
        ""
    }
}

fn append_state(ret: &mut String, msg: &Message)
    ensures
        final(ret)@ == old(ret)@ + state_part(*msg),
{
    let state: String = state_text(msg.state);
    ret.append("State: ");
    ret.append(state.as_str());
    if msg.has_location() {
        ret.append(", Location sent");
    }
    ret.append(encryption_text(&msg.param));
    ret.append("\n");
    if let Some(err) = msg.param.get(Param::Error) {
        ret.append("Error: ");
        ret.append(err);
    }
    assert(ret@ =~= old(ret)@ + state_part(*msg));
}

proof fn lemma_signature_bit(n: i32)
    ensures
        (n & 0x2 != 0) == signature_invalid(n as int),
{
    assert((n & 0x2 != 0) == ((n / 2) % 2 == 1)) by (bit_vector);
}

fn append_file(ret: &mut String, msg: &Message, reply: &InfoReply, context: &Context)
    ensures
        final(ret)@ == old(ret)@ + file_part(*msg, *reply, context),
{
    if let Some(path) = msg.get_file(context) {
        ret.append("\nFile: ");
        ret.append(path.as_str());
        ret.append(", ");
        let bytes: String = text::decimal_text(reply.file_bytes);
        ret.append(bytes.as_str());
        ret.append(", bytes\n");
    }
    if msg.type_0 != Viewtype::Text {
        ret.append("Type: ");
        let name: String = msg.type_0.to_string();
        ret.append(name.as_str());
        ret.append("\n");
        ret.append("Mimetype: ");
        if let Some(mime) = msg.get_filemime() {
            ret.append(mime.as_str());
        }
        ret.append("\n");
    }
    assert(ret@ =~= old(ret)@ + file_part(*msg, *reply, context));
}

fn append_media(ret: &mut String, msg: &Message)
    ensures
        final(ret)@ == old(ret)@ + media_part(msg.param@),
{
    let w: i32 = msg.get_width();
    let h: i32 = msg.get_height();
    if w != 0 || h != 0 {
        let w: String = text::signed_text(w);
        let h: String = text::signed_text(h);
        ret.append("Dimension: ");
        ret.append(w.as_str());
        ret.append(" x ");
        ret.append(h.as_str());
        ret.append("\n");
    }
    let duration: i32 = msg.get_duration();
    if duration != 0 {
        let duration: String = text::signed_text(duration);
        ret.append("Duration: ");
        ret.append(duration.as_str());
        ret.append(" ms\n");
    }
    assert(ret@ =~= old(ret)@ + media_part(msg.param@));
}

fn append_origin(ret: &mut String, msg: &Message, rawtxt: &str)
    ensures
        final(ret)@ == old(ret)@ + origin_part(*msg, rawtxt@),
{
    let shown: String = text::dc_truncate(text::trim(rawtxt), MAX_INFO_TEXT_LEN, false);
    if !shown.as_str().is_empty() {
        ret.append("\n");
        ret.append(shown.as_str());
        ret.append("\n");
    }
    if !msg.rfc724_mid.as_str().is_empty() {
        ret.append("\nMessage-ID: ");
        ret.append(msg.rfc724_mid.as_str());
    }
    if let Some(server_folder) = &msg.server_folder {
        if !server_folder.as_str().is_empty() {
            let uid: String = text::decimal_text(msg.server_uid as u64);
            ret.append("\nLast seen as: ");
            ret.append(server_folder.as_str());
            ret.append("/");
            ret.append(uid.as_str());
        }
    }
    assert(ret@ =~= old(ret)@ + origin_part(*msg, rawtxt@));
}

/// Tells the details of a message. `msg` is the message if it could be loaded, `rawtxt` the
/// answer to the question for its text as it came, and `reply` what was found out on [`Message::info_request`].
pub fn get_msg_info(
    msg_id: MsgId,
    msg: Option<&Message>,
    rawtxt: Option<&ColumnValue>,
    reply: &InfoReply,
    context: &Context,
) -> (r: String)
    ensures
        r@ == msg_info(msg_id, msg, rawtxt, *reply, context),
{
    let mut ret: String = String::new();
    if let Some(msg) = msg {
        match read_text(rawtxt) {
            Some(raw) => {
                append_times(&mut ret, msg, reply);
                if msg.from_id == DC_CONTACT_ID_INFO || msg.to_id == DC_CONTACT_ID_INFO {
                    // device-internal message, no further details needed
                    assert(ret@ =~= times_part(*msg, *reply));
                    return ret;
                }
                append_receipts(&mut ret, reply);
                append_state(&mut ret, msg);
                append_file(&mut ret, msg, reply, context);
                append_media(&mut ret, msg);
                append_origin(&mut ret, msg, raw.as_str());
                assert(ret@ =~= msg_info(msg_id, Some(msg), rawtxt, *reply, context));
            },
            None => {
                let id: String = msg_id.to_string();
                ret.append("Cannot load message ");
                ret.append(id.as_str());
                ret.append(".");
                assert(ret@ =~= "Cannot load message "@ + msg_id.shown() + "."@);
            },
        }
    }
    ret
}

/// Whether a piece stands in a text at a place.
pub open spec fn stands_at(whole: Seq<char>, place: int, piece: Seq<char>) -> bool {
    0 <= place && place + piece.len() <= whole.len() && whole.subrange(place, place + piece.len())
        == piece
}

proof fn lemma_lines_grow(receipts: Seq<Receipt>, i: int)
    requires
        0 <= i < receipts.len(),
    ensures
        receipt_lines(receipts.take(i + 1)) == receipt_lines(receipts.take(i)) + ("Read: "@
            + receipts[i].time@ + " by "@ + name_or_nothing(receipts[i].contact) + "\n"@),
{
    let longer = receipts.take(i + 1);
    assert(longer.drop_last() =~= receipts.take(i));
    assert(longer.last() == receipts[i]);
    assert(receipt_lines(longer) =~= receipt_lines(receipts.take(i)) + ("Read: "@
        + receipts[i].time@ + " by "@ + name_or_nothing(receipts[i].contact) + "\n"@));
}

proof fn lemma_lines_are_prefixes(receipts: Seq<Receipt>, i: int, j: int)
    requires
        0 <= i <= j <= receipts.len(),
    ensures
        receipt_lines(receipts.take(i)).len() <= receipt_lines(receipts.take(j)).len(),
        receipt_lines(receipts.take(j)).take(receipt_lines(receipts.take(i)).len() as int)
            == receipt_lines(receipts.take(i)),
    decreases j,
{
    let a = receipt_lines(receipts.take(i));
    if i < j {
        lemma_lines_grow(receipts, j - 1);
        lemma_lines_are_prefixes(receipts, i, j - 1);
        let b = receipt_lines(receipts.take(j - 1));
        let c = receipt_lines(receipts.take(j));
        assert(c.take(a.len() as int) =~= b.take(a.len() as int));
    } else {
        assert(a.take(a.len() as int) =~= a);
    }
}

proof fn lemma_state_first(msg: Message, a: Seq<char>, b: Seq<char>, c: Seq<char>)
    ensures
        "State: "@.is_prefix_of(state_part(msg) + a + b + c),
{
    assert("State: "@.is_prefix_of(state_part(msg)));
    let s = state_part(msg);
    let n = "State: "@.len() as int;
    assert((s + a + b + c).subrange(0, n) =~= s.subrange(0, n));
}

proof fn lemma_places(head: Seq<char>, receipts: Seq<Receipt>, rest: Seq<char>) -> (places: Seq<
    int,
>)
    requires
        "State: "@.is_prefix_of(rest),
    ensures
        ({
            let whole = head + receipt_lines(receipts) + rest;
            &&& stands_at(whole, 0, head)
            &&& places.len() == receipts.len() + 1
            &&& places[0] == head.len()
            &&& forall|i: int| #![trigger receipts[i]]
                0 <= i < receipts.len() ==> {
                    let line = "Read: "@ + receipts[i].time@ + " by "@ + name_or_nothing(
                        receipts[i].contact,
                    ) + "\n"@;
                    stands_at(whole, places[i], line) && places[i + 1] == places[i] + line.len()
                }
            &&& stands_at(whole, places.last(), "State: "@)
        }),
{
    let lines = receipt_lines(receipts);
    let whole = head + lines + rest;
    assert(receipts.take(receipts.len() as int) =~= receipts);
    assert(receipts.take(0) =~= Seq::<Receipt>::empty());
    let places = Seq::new(
        receipts.len() + 1,
        |i: int| (head.len() + receipt_lines(receipts.take(i)).len()) as int,
    );
    assert(whole.subrange(0, head.len() as int) =~= head);
    assert forall|i: int| #![trigger receipts[i]] 0 <= i < receipts.len() implies ({
        let line = "Read: "@ + receipts[i].time@ + " by "@ + name_or_nothing(receipts[i].contact)
            + "\n"@;
        stands_at(whole, places[i], line) && places[i + 1] == places[i] + line.len()
    }) by {
        lemma_lines_grow(receipts, i);
        lemma_lines_are_prefixes(receipts, i + 1, receipts.len() as int);
        let line = "Read: "@ + receipts[i].time@ + " by "@ + name_or_nothing(receipts[i].contact)
            + "\n"@;
        lemma_line_within(head, lines, rest, receipt_lines(receipts.take(i)), line);
    }
    let state = "State: "@;
    assert forall|k: int| 0 <= k < state.len() implies whole[places.last() + k] == state[k] by {
        assert(whole[places.last() + k] == rest[k]);
        assert(rest.subrange(0, state.len() as int)[k] == state[k]);
    }
    assert(whole.subrange(places.last(), places.last() + state.len()) =~= state);
    places
}

proof fn lemma_line_within(
    head: Seq<char>,
    lines: Seq<char>,
    rest: Seq<char>,
    before: Seq<char>,
    line: Seq<char>,
)
    requires
        (before + line).len() <= lines.len(),
        lines.take((before + line).len() as int) == before + line,
    ensures
        stands_at(head + lines + rest, (head.len() + before.len()) as int, line),
{
    let whole = head + lines + rest;
    let place = (head.len() + before.len()) as int;
    assert forall|k: int| 0 <= k < line.len() implies whole[place + k] == line[k] by {
        assert(lines.take((before + line).len() as int)[before.len() + k] == line[k]);
    }
    assert(whole.subrange(place, place + line.len()) =~= line);
}

/// The details of a message that is not one of the device itself, whoever sent it, tell when it was
/// sent and by whom, when it was received if it came from somebody else, and then each receipt for
/// it, one line after the other in their order, each with its time and with the name of the contact
/// if that is known. The state comes right behind the last of these lines.
pub proof fn receipts_are_listed(
    msg_id: MsgId,
    msg: &Message,
    rawtxt: &ColumnValue,
    reply: InfoReply,
    context: &Context,
) -> (places: Seq<int>)
    requires
        column::answered_text(Some(rawtxt)) is Some,
        msg.from_id != 2,
        msg.to_id != 2,
    ensures
        ({
            let whole = msg_info(msg_id, Some(msg), Some(rawtxt), reply, context);
            let receipts = match reply.receipts {
                Some(receipts) => receipts@,
                None => Seq::empty(),
            };
            let sent = "Sent: "@ + reply.sent@ + " by "@ + (match reply.sender {
                Some(contact) => contact.name_n_addr@,
                None => Seq::empty(),
            }) + "\n"@;
            let head = if msg.from_id == 1 {
                sent
            } else {
                sent + "Received: "@ + reply.received@ + "\n"@
            };
            &&& stands_at(whole, 0, head)
            &&& places.len() == receipts.len() + 1
            &&& places[0] == head.len()
            &&& forall|i: int| #![trigger receipts[i]]
                0 <= i < receipts.len() ==> {
                    let line = "Read: "@ + receipts[i].time@ + " by "@ + (
                    match receipts[i].contact {
                        Some(contact) => contact.name_n_addr@,
                        None => Seq::empty(),
                    }) + "\n"@;
                    stands_at(whole, places[i], line) && places[i + 1] == places[i] + line.len()
                }
            &&& stands_at(whole, places.last(), "State: "@)
        }),
{
    let whole = msg_info(msg_id, Some(msg), Some(rawtxt), reply, context);
    let raw = column::answered_text(Some(rawtxt))->0;
    let receipts = match reply.receipts {
        Some(receipts) => receipts@,
        None => Seq::empty(),
    };
    let rest = state_part(*msg) + file_part(*msg, reply, context) + media_part(msg.param@)
        + origin_part(*msg, raw);
    lemma_details_end(msg_id, msg, rawtxt, reply, context);
    assert(receipts_part(reply) == receipt_lines(receipts));
    lemma_state_first(
        *msg,
        file_part(*msg, reply, context),
        media_part(msg.param@),
        origin_part(*msg, raw),
    );
    lemma_places(times_part(*msg, reply), receipts, rest)
}

/// The word that stands for a state among the details.
pub proof fn words_for_states(state: MessageState)
    ensures
        state_word(state) == (match state {
            MessageState::Undefined => "Undefined"@,
            MessageState::InFresh => "Fresh"@,
            MessageState::InNoticed => "Noticed"@,
            MessageState::InSeen => "Seen"@,
            MessageState::OutPreparing => "Preparing"@,
            MessageState::OutDraft => "OutDraft"@,
            MessageState::OutPending => "Pending"@,
            MessageState::OutFailed => "Failed"@,
            MessageState::OutDelivered => "Delivered"@,
            MessageState::OutMdnRcvd => "Read"@,
        }),
{
}

/// What the details end in, behind the receipts: the state with what is known of location and
/// encryption, the error, the file, the kind of message unless it is a text, the size and the length
/// where they are not zero, the text unless it is blank, the Message-ID and the place on the server
/// unless they are empty.
pub proof fn details_end_in_state_and_origin(
    msg_id: MsgId,
    msg: &Message,
    rawtxt: &ColumnValue,
    reply: InfoReply,
    context: &Context,
)
    requires
        column::answered_text(Some(rawtxt)) is Some,
        msg.from_id != 2,
        msg.to_id != 2,
    ensures
        ({
            let whole = msg_info(msg_id, Some(msg), Some(rawtxt), reply, context);
            let none = Seq::<char>::empty();
            let m = msg.param@;
            let location = if msg.location_id == 0 {
                none
            } else {
                ", Location sent"@
            };
            let errors = param::int_or_zero(m, Param::ErroneousE2ee);
            let encryption = if errors == 0 && param::int_or_zero(m, Param::GuaranteeE2ee) != 0 {
                ", Encrypted"@
            } else if errors % 4 >= 2 {
                ", Encrypted, no valid signature"@
            } else {
                none
            };
            let error = if m.contains_key(Param::Error) {
                "Error: "@ + m[Param::Error]
            } else {
                none
            };
            let file = match msg.file(context) {
                Some(p) => "\nFile: "@ + p + ", "@ + text::decimal(reply.file_bytes as nat)
                    + ", bytes\n"@,
                None => none,
            };
            let kind = if msg.type_0 is Text {
                none
            } else {
                "Type: "@ + msg.type_0.name() + "\n"@ + "Mimetype: "@ + (match msg.filemime() {
                    Some(mime) => mime,
                    None => none,
                }) + "\n"@
            };
            let w = param::int_or_zero(m, Param::Width);
            let h = param::int_or_zero(m, Param::Height);
            let d = param::int_or_zero(m, Param::Duration);
            let dimension = if w == 0 && h == 0 {
                none
            } else {
                "Dimension: "@ + text::signed_decimal(w) + " x "@ + text::signed_decimal(h) + "\n"@
            };
            let duration = if d == 0 {
                none
            } else {
                "Duration: "@ + text::signed_decimal(d) + " ms\n"@
            };
            let said = text::truncated(
                text::trimmed(column::answered_text(Some(rawtxt))->0),
                100000,
                false,
            );
            let body = if said == none {
                none
            } else {
                "\n"@ + said + "\n"@
            };
            let mid = if msg.rfc724_mid@ == none {
                none
            } else {
                "\nMessage-ID: "@ + msg.rfc724_mid@
            };
            let seen = if msg.server_folder is None || msg.server_folder->0@ == none {
                none
            } else {
                "\nLast seen as: "@ + msg.server_folder->0@ + "/"@ + text::decimal(
                    msg.server_uid as nat,
                )
            };
            let end = ("State: "@ + state_word(msg.state) + location + encryption + "\n"@ + error)
                + (file + kind) + (dimension + duration) + (body + mid + seen);
            let lines = match reply.receipts {
                Some(receipts) => receipt_lines(receipts@),
                None => none,
            };
            whole == times_part(*msg, reply) + lines + end
        }),
{
    lemma_encryption_told(msg.param@);
    lemma_media_told(msg.param@);
    lemma_origin_told(*msg, column::answered_text(Some(rawtxt))->0);
    lemma_details_end(msg_id, msg, rawtxt, reply, context);
}

proof fn lemma_encryption_told(m: Map<Param, Seq<char>>)
    ensures
        encryption_part(m) == ({
            let errors = param::int_or_zero(m, Param::ErroneousE2ee);
            if errors == 0 && param::int_or_zero(m, Param::GuaranteeE2ee) != 0 {
                ", Encrypted"@
            } else if errors % 4 >= 2 {
                ", Encrypted, no valid signature"@
            } else {
                Seq::empty()
            }
        }),
{
    lemma_second_bit(param::int_or_zero(m, Param::ErroneousE2ee));
}

proof fn lemma_second_bit(n: int)
    ensures
        n % 4 >= 2 <==> (n / 2) % 2 == 1,
{
    let q = n / 4;
    let r = n % 4;
    assert(n == 4 * q + r);
    if r >= 2 {
        assert(n / 2 == 2 * q + 1);
    } else {
        assert(n / 2 == 2 * q);
    }
}

proof fn lemma_media_told(m: Map<Param, Seq<char>>)
    ensures
        media_part(m) == ({
            let w = param::int_or_zero(m, Param::Width);
            let h = param::int_or_zero(m, Param::Height);
            let d = param::int_or_zero(m, Param::Duration);
            let dimension = if w == 0 && h == 0 {
                Seq::empty()
            } else {
                "Dimension: "@ + text::signed_decimal(w) + " x "@ + text::signed_decimal(h) + "\n"@
            };
            let duration = if d == 0 {
                Seq::empty()
            } else {
                "Duration: "@ + text::signed_decimal(d) + " ms\n"@
            };
            dimension + duration
        }),
{
    let d = param::int_or_zero(m, Param::Duration);
    let w = param::int_or_zero(m, Param::Width);
    let h = param::int_or_zero(m, Param::Height);
    let dimension = if w == 0 && h == 0 {
        Seq::empty()
    } else {
        "Dimension: "@ + text::signed_decimal(w) + " x "@ + text::signed_decimal(h) + "\n"@
    };
    if d == 0 {
        assert(dimension + Seq::<char>::empty() =~= dimension);
    } else {
        lemma_three_behind(dimension, "Duration: "@, text::signed_decimal(d), " ms\n"@);
    }
}

proof fn lemma_three_behind(a: Seq<char>, b: Seq<char>, c: Seq<char>, d: Seq<char>)
    ensures
        a + b + c + d == a + (b + c + d),
{
    assert(a + b + c + d =~= a + (b + c + d));
}

proof fn lemma_origin_told(msg: Message, raw: Seq<char>)
    ensures
        origin_part(msg, raw) == ({
            let none = Seq::<char>::empty();
            let said = text::truncated(text::trimmed(raw), 100000, false);
            let body = if said == none {
                none
            } else {
                "\n"@ + said + "\n"@
            };
            let mid = if msg.rfc724_mid@ == none {
                none
            } else {
                "\nMessage-ID: "@ + msg.rfc724_mid@
            };
            let seen = if msg.server_folder is None || msg.server_folder->0@ == none {
                none
            } else {
                "\nLast seen as: "@ + msg.server_folder->0@ + "/"@ + text::decimal(
                    msg.server_uid as nat,
                )
            };
            body + mid + seen
        }),
{
    let said = text::truncated(text::trimmed(raw), 100000, false);
    if said.len() == 0 {
        assert(said =~= Seq::<char>::empty());
    }
    if msg.rfc724_mid@.len() == 0 {
        assert(msg.rfc724_mid@ =~= Seq::<char>::empty());
    }
    if let Some(folder) = msg.server_folder {
        if folder@.len() == 0 {
            assert(folder@ =~= Seq::<char>::empty());
        }
    }
}

proof fn lemma_details_end(
    msg_id: MsgId,
    msg: &Message,
    rawtxt: &ColumnValue,
    reply: InfoReply,
    context: &Context,
)
    requires
        column::answered_text(Some(rawtxt)) is Some,
        !msg.device_internal(),
    ensures
        msg_info(msg_id, Some(msg), Some(rawtxt), reply, context) == times_part(*msg, reply)
            + receipts_part(reply) + (state_part(*msg) + file_part(*msg, reply, context)
            + media_part(msg.param@) + origin_part(
            *msg,
            column::answered_text(Some(rawtxt))->0,
        )),
{
    assert(msg_info(msg_id, Some(msg), Some(rawtxt), reply, context) =~= times_part(*msg, reply)
        + receipts_part(reply) + (state_part(*msg) + file_part(*msg, reply, context) + media_part(
        msg.param@,
    ) + origin_part(*msg, column::answered_text(Some(rawtxt))->0)));
}

/// Of a message of the device itself, or to it, only the times are told. Of one that could not be
/// loaded nothing is, and of one whose text could not be only that.
pub proof fn details_that_are_short(
    msg_id: MsgId,
    msg: &Message,
    rawtxt: Option<&ColumnValue>,
    reply: InfoReply,
    context: &Context,
)
    ensures
        msg_info(msg_id, None, rawtxt, reply, context) == Seq::<char>::empty(),
        column::answered_text(rawtxt) is None ==> msg_info(
            msg_id,
            Some(msg),
            rawtxt,
            reply,
            context,
        ) == "Cannot load message "@ + msg_id.shown() + "."@,
        column::answered_text(rawtxt) is Some && (msg.from_id == 2 || msg.to_id == 2) ==> msg_info(
            msg_id,
            Some(msg),
            rawtxt,
            reply,
            context,
        ) == ({
            let sent = "Sent: "@ + reply.sent@ + " by "@ + (match reply.sender {
                Some(contact) => contact.name_n_addr@,
                None => Seq::empty(),
            }) + "\n"@;
            if msg.from_id == 1 {
                sent
            } else {
                sent + "Received: "@ + reply.received@ + "\n"@
            }
        }),
        msg.not_from_self() <==> msg.from_id != 1,
        msg.device_internal() <==> msg.from_id == 2 || msg.to_id == 2,
{
}

/// A receipt tells its contact by the signed integer that is stored for it, and its time. Both have
/// to be there.
pub proof fn rows_of_receipts_tell_both(contact_id: u32, time: i64, row: ReceiptRow)
    ensures
        (ReceiptRow {
            contact_id: ColumnValue::Integer(sql::wrapped(contact_id) as i64),
            timestamp_sent: ColumnValue::Integer(time),
        }).told() == Some((contact_id, time)),
        row.told() matches Some((who, when)) ==> row.contact_id == ColumnValue::Integer(
            sql::wrapped(who) as i64,
        ) && row.timestamp_sent == ColumnValue::Integer(when),
{
}

} // verus!
