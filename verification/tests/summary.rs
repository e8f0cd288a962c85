use deltachat_message::chat::{Chat, Contact};
use deltachat_message::constants::{Chattype, SystemMessage, Viewtype};
use deltachat_message::context::{Context, StockMessage};
use deltachat_message::lot::{Lot, LotState, Meaning};
use deltachat_message::message::Message;
use deltachat_message::param::{Param, Params};
use deltachat_message::state::MessageState;
use deltachat_message::summary::get_summarytext_by_raw;

fn context() -> Context {
    Context::new("/home/me/blobs".to_string())
}

fn chat(id: u32, typ: Chattype) -> Chat {
    Chat {
        id,
        typ,
        self_talk: false,
    }
}

fn contact() -> Contact {
    Contact {
        display_name: "Ada Lovelace".to_string(),
        first_name: "Ada".to_string(),
        name_n_addr: "Ada Lovelace (ada@example.org)".to_string(),
    }
}

#[test]
fn test_get_summarytext_by_raw() {
    let ctx = &context();

    let some_text = Some("bla bla".to_string());
    let empty_text = Some("".to_string());
    let no_text: Option<String> = None;

    let mut some_file = Params::new();
    some_file.set(Param::File, "foo.bar");

    assert_eq!(
        get_summarytext_by_raw(
            Viewtype::Text,
            some_text.as_ref(),
            &mut Params::new(),
            50,
            &ctx
        ),
        "bla bla" // for simple text, the type is not added to the summary
    );

    assert_eq!(
        get_summarytext_by_raw(Viewtype::Image, no_text.as_ref(), &mut some_file, 50, &ctx,),
        "Image" // file names are not added for images
    );

    assert_eq!(
        get_summarytext_by_raw(Viewtype::Video, no_text.as_ref(), &mut some_file, 50, &ctx,),
        "Video" // file names are not added for videos
    );

    assert_eq!(
        get_summarytext_by_raw(Viewtype::Gif, no_text.as_ref(), &mut some_file, 50, &ctx,),
        "GIF" // file names are not added for GIFs
    );

    assert_eq!(
        get_summarytext_by_raw(
            Viewtype::Sticker,
            no_text.as_ref(),
            &mut some_file,
            50,
            &ctx,
        ),
        "Sticker" // file names are not added for stickers
    );

    assert_eq!(
        get_summarytext_by_raw(
            Viewtype::Voice,
            empty_text.as_ref(),
            &mut some_file,
            50,
            &ctx,
        ),
        "Voice message" // file names are not added for voice messages, empty text is skipped
    );

    assert_eq!(
        get_summarytext_by_raw(Viewtype::Voice, no_text.as_ref(), &mut some_file, 50, &ctx),
        "Voice message" // file names are not added for voice messages
    );

    assert_eq!(
        get_summarytext_by_raw(
            Viewtype::Voice,
            some_text.as_ref(),
            &mut some_file,
            50,
            &ctx
        ),
        "Voice message \u{2013} bla bla" // `\u{2013}` explicitly checks for "EN DASH"
    );

    assert_eq!(
        get_summarytext_by_raw(Viewtype::Audio, no_text.as_ref(), &mut some_file, 50, &ctx),
        "Audio \u{2013} foo.bar" // file name is added for audio
    );

    assert_eq!(
        get_summarytext_by_raw(
            Viewtype::Audio,
            empty_text.as_ref(),
            &mut some_file,
            50,
            &ctx,
        ),
        "Audio \u{2013} foo.bar" // file name is added for audio, empty text is not added
    );

    assert_eq!(
        get_summarytext_by_raw(
            Viewtype::Audio,
            some_text.as_ref(),
            &mut some_file,
            50,
            &ctx
        ),
        "Audio \u{2013} foo.bar \u{2013} bla bla" // file name and text added for audio
    );

    assert_eq!(
        get_summarytext_by_raw(Viewtype::File, some_text.as_ref(), &mut some_file, 50, &ctx),
        "File \u{2013} foo.bar \u{2013} bla bla" // file name is added for files
    );

    let mut asm_file = Params::new();
    asm_file.set(Param::File, "foo.bar");
    asm_file.set_cmd(SystemMessage::AutocryptSetupMessage);
    assert_eq!(
        get_summarytext_by_raw(Viewtype::File, no_text.as_ref(), &mut asm_file, 50, &ctx),
        "Autocrypt Setup Message" // file name is not added for autocrypt setup messages
    );
    assert_eq!(
        get_summarytext_by_raw(Viewtype::File, some_text.as_ref(), &asm_file, 50, &ctx),
        "Autocrypt Setup Message"
    );
}

#[test]
fn file_names_that_cannot_be_told() {
    let ctx = context();
    let mut params = Params::new();
    assert_eq!(
        get_summarytext_by_raw(Viewtype::File, None, &params, 50, &ctx),
        "File \u{2013} ErrFileName"
    );
    params.set(Param::File, "$BLOBDIR/a/b");
    assert_eq!(
        get_summarytext_by_raw(Viewtype::Audio, None, &params, 50, &ctx),
        "Audio \u{2013} ErrFileName"
    );
    params.set(Param::File, "$BLOBDIR/song.mp3");
    assert_eq!(
        get_summarytext_by_raw(Viewtype::Audio, None, &params, 50, &ctx),
        "Audio \u{2013} song.mp3"
    );
    params.set(Param::File, "/somewhere/..");
    assert_eq!(
        get_summarytext_by_raw(Viewtype::Audio, None, &params, 50, &ctx),
        "Audio \u{2013} ErrFileName"
    );
}

#[test]
fn locations_and_long_texts() {
    let ctx = context();
    let text = "one two three four five six".to_string();
    let mut params = Params::new();
    assert_eq!(
        get_summarytext_by_raw(Viewtype::Text, Some(&text), &params, 10, &ctx),
        "one two ..."
    );
    assert_eq!(
        get_summarytext_by_raw(Viewtype::Image, Some(&text), &params, 10, &ctx),
        "Image \u{2013} ..."
    );
    assert_eq!(
        get_summarytext_by_raw(Viewtype::Text, Some(&text), &params, 0, &ctx),
        text
    );
    params.set_cmd(SystemMessage::LocationOnly);
    assert_eq!(
        get_summarytext_by_raw(Viewtype::Text, Some(&text), &params, 10, &ctx),
        "Location"
    );
    assert_eq!(
        get_summarytext_by_raw(Viewtype::Unknown, None, &params, 10, &ctx),
        "Location"
    );
}

#[test]
fn translations_take_the_place_of_the_fallback() {
    let mut ctx = context();
    ctx.translations.push((StockMessage::Image, "Bild".to_string()));
    ctx.translations.push((StockMessage::Image, "Foto".to_string()));
    let msg = Message::new(Viewtype::Image);
    assert_eq!(msg.get_summarytext(&ctx, 50), "Bild");
    assert_eq!(Message::new(Viewtype::Video).get_summarytext(&ctx, 50), "Video");
}

#[test]
fn drafts_are_announced() {
    let mut msg = Message::new(Viewtype::Text);
    msg.state = MessageState::OutDraft;
    msg.from_id = 1;
    msg.timestamp_sort = 7;
    msg.set_text(Some("half a word".to_string()));
    let lot = msg.get_summary(&context(), Some(&chat(12, Chattype::Single)), None);
    assert_eq!(lot.text1, Some("Draft".to_string()));
    assert_eq!(lot.text1_meaning, Meaning::Text1Draft);
    assert_eq!(lot.text2, Some("half a word".to_string()));
    assert_eq!(lot.timestamp, 7);
    assert_eq!(lot.state, LotState::MsgOutDraft);
}

#[test]
fn own_messages_are_announced_but_for_the_talk_with_oneself() {
    let mut msg = Message::new(Viewtype::Text);
    msg.state = MessageState::OutDelivered;
    msg.from_id = 1;
    let mut single = chat(12, Chattype::Single);
    let lot = msg.get_summary(&context(), Some(&single), None);
    assert_eq!(lot.text1, Some("Me".to_string()));
    assert_eq!(lot.text1_meaning, Meaning::Text1Self);
    assert_eq!(lot.text2, Some("".to_string()));
    single.self_talk = true;
    let lot = msg.get_summary(&context(), Some(&single), None);
    assert_eq!(lot.text1, None);
    assert_eq!(lot.text1_meaning, Meaning::Nothing);
    single.self_talk = false;
    msg.param.set_cmd(SystemMessage::GroupNameChanged);
    let lot = msg.get_summary(&context(), Some(&single), None);
    assert_eq!(lot.text1, None);
}

#[test]
fn senders_are_named_in_groups() {
    let ctx = context();
    let ada = contact();
    let mut msg = Message::new(Viewtype::Text);
    msg.from_id = 17;
    let group = chat(12, Chattype::VerifiedGroup);
    assert_eq!(msg.summary_contact(&group), Some(17));
    let lot = msg.get_summary(&ctx, Some(&group), Some(&ada));
    assert_eq!(lot.text1, Some("Ada".to_string()));
    assert_eq!(lot.text1_meaning, Meaning::Text1Username);
    let lot = msg.get_summary(&ctx, Some(&chat(1, Chattype::Group)), Some(&ada));
    assert_eq!(lot.text1, Some("Ada Lovelace".to_string()));
    let lot = msg.get_summary(&ctx, Some(&group), None);
    assert_eq!(lot.text1, None);
    assert_eq!(lot.text1_meaning, Meaning::Nothing);
    msg.to_id = 2;
    let lot = msg.get_summary(&ctx, Some(&group), Some(&ada));
    assert_eq!(lot.text1, None);
    msg.to_id = 0;
    let single = chat(12, Chattype::Single);
    assert_eq!(msg.summary_contact(&single), None);
    let lot = msg.get_summary(&ctx, Some(&single), Some(&ada));
    assert_eq!(lot.text1, None);
    assert_eq!(lot.text1_meaning, Meaning::Nothing);
    msg.from_id = 1;
    assert_eq!(msg.summary_contact(&group), None);
}

#[test]
fn a_chat_of_two_keeps_the_first_text() {
    let mut msg = Message::new(Viewtype::Text);
    msg.from_id = 17;
    msg.timestamp_sent = 5;
    msg.state = MessageState::InFresh;
    let mut lot = Lot::new();
    lot.text1 = Some("kept".to_string());
    lot.text1_meaning = Meaning::Text1Username;
    lot.fill(&msg, &chat(12, Chattype::Single), None, &context());
    assert_eq!(lot.text1, Some("kept".to_string()));
    assert_eq!(lot.text1_meaning, Meaning::Text1Username);
    assert_eq!(lot.timestamp, 5);
    assert_eq!(lot.state, LotState::MsgInFresh);
}

#[test]
fn without_a_chat_there_is_no_summary() {
    let msg = Message::new(Viewtype::Image);
    let lot = msg.get_summary(&context(), None, None);
    assert_eq!(lot.text1, None);
    assert_eq!(lot.text2, None);
    assert_eq!(lot.text1_meaning, Meaning::Nothing);
    assert_eq!(lot.timestamp, 0);
    assert_eq!(lot.state, LotState::Undefined);
}
