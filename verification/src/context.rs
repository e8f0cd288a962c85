//! What the library knows of the account that it works for.
use vstd::prelude::*;

verus! {

/// A text that is shown to the user and may be translated.
#[derive(Debug, Clone, Copy, PartialEq, Eq, Structural)]
pub enum StockMessage {
    /// In front of the user's own messages.
    SelfMsg,
    /// In front of a draft.
    Draft,
    /// A recorded voice message.
    VoiceMessage,
    /// An image.
    Image,
    /// A video.
    Video,
    /// An audio file.
    Audio,
    /// Any file.
    File,
    /// An animated image.
    Gif,
    /// The subject of a message that transfers keys.
    AcSetupMsgSubject,
    /// A location.
    Location,
    /// A sticker.
    Sticker,
}

impl StockMessage {
    /// The text where there is no translation.
    pub open spec fn english(self) -> Seq<char> {
        match self {
            StockMessage::SelfMsg => "Me"@,
            StockMessage::Draft => "Draft"@,
            StockMessage::VoiceMessage => "Voice message"@,
            StockMessage::Image => "Image"@,
            StockMessage::Video => "Video"@,
            StockMessage::Audio => "Audio"@,
            StockMessage::File => "File"@,
            StockMessage::Gif => "GIF"@,
            StockMessage::AcSetupMsgSubject => "Autocrypt Setup Message"@,
            StockMessage::Location => "Location"@,
            StockMessage::Sticker => "Sticker"@,
        }
    }

    /// The text where there is no translation.
    pub fn fallback(self) -> (r: &'static str)
        ensures
            r@ == self.english(),
    {
        match self {
            StockMessage::SelfMsg => "Me",
            StockMessage::Draft => "Draft",
            StockMessage::VoiceMessage => "Voice message",
            StockMessage::Image => "Image",
            StockMessage::Video => "Video",
            StockMessage::Audio => "Audio",
            StockMessage::File => "File",
            StockMessage::Gif => "GIF",
            StockMessage::AcSetupMsgSubject => "Autocrypt Setup Message",
            StockMessage::Location => "Location",
            StockMessage::Sticker => "Sticker",
        }
    }
}

/// Where the files of an account lie, and how texts are translated.
#[derive(Debug, Clone)]
pub struct Context {
    /// The directory that the files of messages are kept in.
    pub blobdir: String,
    /// Translations; of two for one text, the first counts.
    pub translations: Vec<(StockMessage, String)>,
}

/// The text for `id` among `translations`, or its fallback.
pub open spec fn translated(
    translations: Seq<(StockMessage, String)>,
    id: StockMessage,
) -> Seq<char>
    decreases translations.len(),
{
    if translations.len() == 0 {
        id.english()
    } else if translations[0].0 == id {
        translations[0].1@
    } else {
        translated(translations.skip(1), id)
    }
}

impl Context {
    /// The text for `id`.
    pub open spec fn stock(&self, id: StockMessage) -> Seq<char> {
        translated(self.translations@, id)
    }

    /// An account without translations.
    pub fn new(blobdir: String) -> (r: Context)
        ensures
            r.blobdir == blobdir,
            forall|id: StockMessage| #[trigger] r.stock(id) == id.english(),
    {
        Context { blobdir, translations: Vec::new() }
    }

    /// The text for `id`: its translation, or its fallback.
    pub fn stock_str(&self, id: StockMessage) -> (r: String)
        ensures
            r@ == self.stock(id),
    {
        let mut i: usize = 0;
        assert(self.translations@.skip(0) == self.translations@);
        while i < self.translations.len()
            invariant
                i <= self.translations@.len(),
                self.stock(id) == translated(self.translations@.skip(i as int), id),
            decreases self.translations.len() - i,
        {
            if self.translations[i].0 == id {
                return self.translations[i].1.clone();
            }
            assert(self.translations@.skip(i as int).skip(1) == self.translations@.skip(i + 1));
            i += 1;
        }
        id.fallback().to_owned()
    }
}

/// A text is the first translation that there is for it, and the translations of other texts do not
/// matter.
pub proof fn the_first_translation_counts(
    first: (StockMessage, String),
    rest: Seq<(StockMessage, String)>,
    id: StockMessage,
)
    ensures
        translated(Seq::empty(), id) == id.english(),
        translated(seq![first] + rest, first.0) == first.1@,
        id != first.0 ==> translated(seq![first] + rest, id) == translated(rest, id),
{
    assert((seq![first] + rest).skip(1) =~= rest);
}

/// The texts where there is no translation.
pub proof fn english_texts(id: StockMessage)
    ensures
        id.english() == (match id {
            StockMessage::SelfMsg => "Me"@,
            StockMessage::Draft => "Draft"@,
            StockMessage::VoiceMessage => "Voice message"@,
            StockMessage::Image => "Image"@,
            StockMessage::Video => "Video"@,
            StockMessage::Audio => "Audio"@,
            StockMessage::File => "File"@,
            StockMessage::Gif => "GIF"@,
            StockMessage::AcSetupMsgSubject => "Autocrypt Setup Message"@,
            StockMessage::Location => "Location"@,
            StockMessage::Sticker => "Sticker"@,
        }),
{
}

} // verus!
