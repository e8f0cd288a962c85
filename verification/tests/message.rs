use deltachat_message::constants::{Blocked, Chattype, SystemMessage, Viewtype};
use deltachat_message::context::Context;
use deltachat_message::lot::LotState;
use deltachat_message::message::{Coordinate, Message};
use deltachat_message::msgid::{InvalidMsgId, MsgId};
use deltachat_message::param::{Param, Params, WrongBlobName};
use deltachat_message::path;
use deltachat_message::setup::{setupcode_of_armor, Armor};
use deltachat_message::sql::{unwrap, wrap, ColumnValue, FromSqlError, Statement};
use deltachat_message::state::MessageState;
use deltachat_message::suffix::{guess_msgtype_from_extension, guess_msgtype_from_suffix};
use deltachat_message::text;

fn context() -> Context {
    Context::new("/home/me/blobs".to_string())
}

#[test]
fn test_guess_msgtype_from_suffix() {
    assert_eq!(
        guess_msgtype_from_suffix("foo/bar-sth.mp3"),
        Some((Viewtype::Audio, "audio/mpeg"))
    );
}

#[test]
fn suffixes_of_all_kinds() {
    let known = [
        ("a.aac", Viewtype::Audio, "audio/aac"),
        ("a.mp4", Viewtype::Video, "video/mp4"),
        ("a.jpg", Viewtype::Image, "image/jpeg"),
        ("a.JPEG", Viewtype::Image, "image/jpeg"),
        ("a.jpe", Viewtype::Image, "image/jpeg"),
        ("a.PnG", Viewtype::Image, "image/png"),
        ("a.webp", Viewtype::Image, "image/webp"),
        ("a.gif", Viewtype::Gif, "image/gif"),
        ("a.vcf", Viewtype::File, "text/vcard"),
        ("a.vcard", Viewtype::File, "text/vcard"),
        ("a.tar.mp3/", Viewtype::Audio, "audio/mpeg"),
    ];
    for (path, viewtype, mime) in known.iter() {
        assert_eq!(guess_msgtype_from_suffix(path), Some((*viewtype, *mime)));
    }
    for path in ["mp3", ".mp3", "a.mp3x", "a.", "", "a.mp3/b", "a.mp3/..", "a.\u{212a}"].iter() {
        assert_eq!(guess_msgtype_from_suffix(path), None);
    }
}

#[test]
fn suffixes_without_a_path() {
    assert_eq!(guess_msgtype_from_extension("MP3"), Some((Viewtype::Audio, "audio/mpeg")));
    assert_eq!(guess_msgtype_from_extension("vcard"), Some((Viewtype::File, "text/vcard")));
    assert_eq!(guess_msgtype_from_extension(""), None);
    assert_eq!(guess_msgtype_from_extension("a.mp3"), None);
}

#[test]
fn paths_are_taken_apart_as_by_the_standard_library() {
    let paths = [
        "", "/", ".", "..", "./", "../", "a", "a/", "a//", "a/.", "a/./", "a/..", "a/../b", "./a",
        "/a", "//a", "a/b.c", "a/.b", "a/b.", "a/..b", ".a.b", "a.b/c", "a/./.", "/.", "/..", "...",
        "a b/c d.e f", "\u{e4}/\u{f6}.\u{fc}", "a\\b.c",
    ];
    for p in paths.iter() {
        let std_path = std::path::Path::new(p);
        assert_eq!(path::file_name(p), std_path.file_name().and_then(|n| n.to_str()), "{}", p);
        assert_eq!(path::extension(p), std_path.extension().and_then(|n| n.to_str()), "{}", p);
    }
    for dir in ["", "/", "a", "a/", "/a/b"].iter() {
        for name in ["x", "x.y", ""].iter() {
            assert_eq!(
                path::join(dir, name),
                std::path::Path::new(dir).join(name).to_str().unwrap()
            );
        }
    }
}

#[test]
fn special_message_ids() {
    for n in 0..10u32 {
        assert!(MsgId::new(n).is_special());
        assert_eq!(MsgId::new(n).to_sql(), Err(InvalidMsgId));
    }
    assert!(!MsgId::new(10).is_special());
    assert!(MsgId::new_unset().is_unset());
    assert!(MsgId::new_unset().is_special());
    assert!(!MsgId::new(1).is_unset());
    assert!(MsgId::new(1).is_marker1());
    assert!(!MsgId::new(9).is_marker1());
    assert!(MsgId::new(9).is_daymarker());
    assert!(!MsgId::new(1).is_daymarker());
    assert_eq!(MsgId::default(), MsgId::new_unset());
    assert_eq!(MsgId::new(77).to_u32(), 77);
    assert_eq!(InvalidMsgId.to_string(), "Invalid Message ID.");
}

#[test]
fn message_ids_as_text() {
    assert_eq!(MsgId::new(1).to_string(), "Msg#Marker1");
    assert_eq!(MsgId::new(9).to_string(), "Msg#DayMarker");
    assert_eq!(MsgId::new(0).to_string(), "Msg#UnknownSpecial");
    assert_eq!(MsgId::new(8).to_string(), "Msg#UnknownSpecial");
    assert_eq!(MsgId::new(10).to_string(), "Msg#10");
    assert_eq!(MsgId::new(4294967295).to_string(), "Msg#4294967295");
}

#[test]
fn message_ids_in_the_database() {
    assert_eq!(MsgId::new(10).to_sql(), Ok(10));
    assert_eq!(MsgId::new(4294967295).to_sql(), Ok(4294967295));
    assert_eq!(
        MsgId::column_result(&ColumnValue::Integer(4294967295)),
        Ok(MsgId::new(4294967295))
    );
    assert_eq!(MsgId::column_result(&ColumnValue::Integer(0)), Ok(MsgId::new(0)));
    assert_eq!(
        MsgId::column_result(&ColumnValue::Integer(4294967296)),
        Err(FromSqlError::OutOfRange(4294967296))
    );
    assert_eq!(
        MsgId::column_result(&ColumnValue::Integer(-1)),
        Err(FromSqlError::OutOfRange(-1))
    );
    assert_eq!(MsgId::column_result(&ColumnValue::Null), Err(FromSqlError::InvalidType));
    assert_eq!(
        MsgId::column_result(&ColumnValue::Text(b"12".to_vec())),
        Err(FromSqlError::InvalidType)
    );
}

#[test]
fn truncation_of_texts() {
    let s = "this is a little test string";
    assert_eq!(text::dc_truncate(s, 16, false), "this is a [...]");
    assert_eq!(text::dc_truncate(s, 16, true), "this is a ...");
    assert_eq!(text::dc_truncate("1234", 2, false), "1234");
    assert_eq!(text::dc_truncate("1234567", 1, false), "1[...]");
    assert_eq!(text::dc_truncate("1234567", 1, true), "1...");
    assert_eq!(text::dc_truncate("123456", 4, false), "123456");
    assert_eq!(text::dc_truncate("", 4, false), "");
    assert_eq!(text::dc_truncate("\n  hello \n world", 4, false), "\n  [...]");
    assert_eq!(text::dc_truncate(s, 0, false), s);
    assert_eq!(text::dc_truncate(s, usize::MAX, false), s);
    let once = text::dc_truncate(s, 5, true);
    assert_eq!(once, "this ...");
    assert_eq!(text::dc_truncate(&once, 5, true), once);
}

#[test]
fn numbers_as_text_and_back() {
    for n in [0i32, 1, -1, 9, 10, -10, 123456789, i32::MAX, i32::MIN].iter() {
        assert_eq!(text::signed_text(*n), format!("{}", n));
        assert_eq!(text::parse_i32(&text::signed_text(*n)), Some(*n));
    }
    for s in [
        "", "+", "-", "+5", "-0", "007", "2147483647", "2147483648", "-2147483648", "-2147483649",
        "4294967296", "99999999999999999999", "1 ", " 1", "1a", "--1", "\u{661}", "+-1",
    ]
    .iter()
    {
        assert_eq!(text::parse_i32(s), s.parse::<i32>().ok(), "{:?}", s);
    }
    assert_eq!(text::decimal_text(u64::MAX), "18446744073709551615");
}

#[test]
fn white_space_is_trimmed() {
    for s in ["", " ", " a ", "\t\r\na b\u{a0}\u{3000}", "\u{200b}a", "a\u{85}", "\u{1c}a\u{2029}"].iter() {
        assert_eq!(text::trim(s), s.trim());
    }
    for n in 0..0x3100u32 {
        if let Some(c) = std::char::from_u32(n) {
            assert_eq!(text::is_white_space(c), c.is_whitespace());
        }
    }
}

#[test]
fn parameters_are_stored_as_lines() {
    let mut params = Params::new();
    assert_eq!(params.to_string(), "");
    params.set(Param::Width, "7");
    params.set(Param::File, "x=y z");
    params.set(Param::Arg, "");
    assert_eq!(params.to_string(), "E=\nf=x=y z\nw=7");
    let read = Params::parse(&params.to_string()).unwrap();
    assert_eq!(read.get(Param::File), Some("x=y z"));
    assert_eq!(read.get(Param::Width), Some("7"));
    assert_eq!(read.get(Param::Arg), Some(""));
    assert_eq!(read.get(Param::Height), None);
    params.set(Param::Width, "8");
    assert_eq!(params.to_string(), "E=\nf=x=y z\nw=8");
}

#[test]
fn parameters_are_read_from_lines() {
    let params = Params::parse(" \n a = 1 \r\nf= b \nh=2\nh=3\n\n").unwrap();
    assert_eq!(params.get_int(Param::Forwarded), Some(1));
    assert_eq!(params.get(Param::File), Some("b"));
    assert_eq!(params.get_int(Param::Height), Some(3));
    assert!(Params::parse("").is_ok());
    assert!(Params::parse("a").is_err());
    assert!(Params::parse("=1").is_err());
    assert!(Params::parse("a=1\nf\nw=2").is_err());
    let spaced = Params::parse("a=1\n\n \t\r\nf=2").unwrap();
    assert_eq!(spaced.to_string(), "a=1\nf=2");
    assert!(Params::parse("?=1").is_err());
    assert!(Params::parse("\u{e4}=1").is_err());
}

#[test]
fn values_with_line_breaks_are_not_kept() {
    let mut params = Params::new();
    params.set(Param::Error, "one\nf=two");
    let read = Params::parse(&params.to_string()).unwrap();
    assert_eq!(read.get(Param::Error), Some("one"));
    assert_eq!(read.get(Param::File), Some("two"));
}

#[test]
fn commands_in_parameters() {
    let mut params = Params::new();
    assert_eq!(params.get_cmd(), SystemMessage::Unknown);
    params.set_cmd(SystemMessage::AutocryptSetupMessage);
    assert_eq!(params.get_int(Param::Cmd), Some(6));
    assert_eq!(params.get_cmd(), SystemMessage::AutocryptSetupMessage);
    params.set_int(Param::Cmd, 1);
    assert_eq!(params.get_cmd(), SystemMessage::Unknown);
    params.set(Param::Cmd, "x");
    assert_eq!(params.get_int(Param::Cmd), None);
    assert_eq!(params.get_cmd(), SystemMessage::Unknown);
}

#[test]
fn references_to_files() {
    let ctx = context();
    let mut msg = Message::new(Viewtype::File);
    assert_eq!(msg.get_file(&ctx), None);
    assert_eq!(msg.get_filename(), None);
    assert_eq!(msg.get_filebytes(&ctx, 5), 0);
    msg.set_file("$BLOBDIR/a.txt", None);
    assert_eq!(msg.get_file(&ctx), Some("/home/me/blobs/a.txt".to_string()));
    assert_eq!(msg.get_filename(), Some("a.txt".to_string()));
    assert_eq!(msg.get_filebytes(&ctx, 5), 5);
    msg.set_file("/tmp/b.txt", None);
    assert_eq!(msg.get_file(&ctx), Some("/tmp/b.txt".to_string()));
    for bad in ["$BLOBDIR/a/b", "$BLOBDIR/a\\b", "$BLOBDIR/a\0b"].iter() {
        msg.set_file(bad, None);
        assert_eq!(msg.param.get_path(Param::File, &ctx), Err(WrongBlobName));
        assert_eq!(msg.get_file(&ctx), None);
        assert_eq!(msg.get_filebytes(&ctx, 5), 0);
    }
    msg.set_file("$BLOBDIR", None);
    assert_eq!(msg.get_file(&ctx), Some("$BLOBDIR".to_string()));
}

#[test]
fn mime_types_of_files() {
    let mut msg = Message::new(Viewtype::File);
    assert_eq!(msg.get_filemime(), None);
    msg.set_file("a.PNG", None);
    assert_eq!(msg.get_filemime(), Some("image/png".to_string()));
    msg.set_file("a.xyz", None);
    assert_eq!(msg.get_filemime(), Some("application/octet-stream".to_string()));
    msg.set_file("a.png", Some("text/plain"));
    assert_eq!(msg.get_filemime(), Some("text/plain".to_string()));
    assert_eq!(msg.get_filename(), Some("a.png".to_string()));
}

#[test]
fn a_new_message_is_blank() {
    let msg = Message::new(Viewtype::Voice);
    assert_eq!(msg.get_viewtype(), Viewtype::Voice);
    assert_eq!(msg.get_id(), MsgId::new_unset());
    assert_eq!(msg.get_from_id(), 0);
    assert_eq!(msg.get_chat_id(), 0);
    assert_eq!(msg.get_state(), MessageState::Undefined);
    assert_eq!(msg.get_text(), None);
    assert_eq!(msg.get_timestamp(), 0);
    assert_eq!(msg.get_received_timestamp(), 0);
    assert_eq!(msg.get_sort_timestamp(), 0);
    assert_eq!(msg.get_width(), 0);
    assert_eq!(msg.get_height(), 0);
    assert_eq!(msg.get_duration(), 0);
    assert!(!msg.get_showpadlock());
    assert!(!msg.has_location());
    assert!(!msg.is_sent());
    assert!(!msg.is_starred());
    assert!(!msg.is_forwarded());
    assert!(!msg.is_info());
    assert!(!msg.is_increation());
    assert!(!msg.is_setupmessage());
    assert_eq!(Message::default().get_viewtype(), Viewtype::Unknown);
}

#[test]
fn sizes_are_read_back() {
    let mut msg = Message::new(Viewtype::Video);
    msg.set_dimension(640, -480);
    msg.set_duration(i32::MIN);
    assert_eq!(msg.get_width(), 640);
    assert_eq!(msg.get_height(), -480);
    assert_eq!(msg.get_duration(), i32::MIN);
}

#[test]
fn sizes_that_come_late() {
    let mut msg = Message::new(Viewtype::Video);
    msg.id = MsgId::new(42);
    msg.set_dimension(1, 2);
    let save = msg.latefiling_mediasize(0, 9, 3);
    assert_eq!(msg.get_width(), 1);
    assert_eq!(msg.get_height(), 2);
    assert_eq!(msg.get_duration(), 3);
    match save {
        Statement::SaveParam { param, msg_id } => {
            assert_eq!(param, "d=3\nh=2\nw=1");
            assert_eq!(msg_id, MsgId::new(42));
        }
        _ => panic!("not a statement that saves"),
    }
    msg.latefiling_mediasize(8, 9, 0);
    assert_eq!(msg.get_width(), 8);
    assert_eq!(msg.get_height(), 9);
    assert_eq!(msg.get_duration(), 3);
}

#[test]
fn locations_are_set() {
    let zero = Coordinate {
        text: "0".to_string(),
        is_zero: true,
    };
    let some = Coordinate {
        text: "1.5".to_string(),
        is_zero: false,
    };
    let mut msg = Message::new(Viewtype::Text);
    msg.set_location(&zero, &zero);
    assert_eq!(msg.param.get(Param::SetLatitude), None);
    msg.set_location(&zero, &some);
    assert_eq!(msg.param.get(Param::SetLatitude), Some("0"));
    assert_eq!(msg.param.get(Param::SetLongitude), Some("1.5"));
    msg.location_id = 3;
    assert!(msg.has_location());
}

#[test]
fn times_of_messages() {
    let mut msg = Message::new(Viewtype::Text);
    msg.timestamp_sort = 86399;
    assert_eq!(msg.get_timestamp(), 86399);
    assert!(!msg.has_deviating_timestamp(0));
    assert!(!msg.has_deviating_timestamp(1));
    msg.timestamp_sent = 86400;
    assert_eq!(msg.get_timestamp(), 86400);
    assert!(msg.has_deviating_timestamp(0));
    assert!(!msg.has_deviating_timestamp(3600));
    msg.timestamp_sort = -1;
    msg.timestamp_sent = 1;
    assert!(!msg.has_deviating_timestamp(0));
    msg.timestamp_sort = -86400;
    assert!(msg.has_deviating_timestamp(0));
    msg.timestamp_sort = i64::MAX;
    msg.timestamp_sent = i64::MIN;
    assert!(msg.has_deviating_timestamp(i64::MAX));
}

#[test]
fn texts_of_messages() {
    let mut msg = Message::new(Viewtype::Text);
    msg.set_text(Some("hello".to_string()));
    assert_eq!(msg.get_text(), Some("hello".to_string()));
    let long = "x".repeat(40000);
    msg.set_text(Some(long));
    assert_eq!(msg.get_text(), Some("x".repeat(30000) + "[...]"));
    msg.set_text(Some("x".repeat(30005)));
    assert_eq!(msg.get_text(), Some("x".repeat(30005)));
    msg.set_text(None);
    assert_eq!(msg.get_text(), None);
}

#[test]
fn states_of_messages() {
    let codes = [
        (MessageState::Undefined, 0, "Undefined", LotState::Undefined),
        (MessageState::InFresh, 10, "InFresh", LotState::MsgInFresh),
        (MessageState::InNoticed, 13, "InNoticed", LotState::MsgInNoticed),
        (MessageState::InSeen, 16, "InSeen", LotState::MsgInSeen),
        (MessageState::OutPreparing, 18, "OutPreparing", LotState::MsgOutPreparing),
        (MessageState::OutDraft, 19, "OutDraft", LotState::MsgOutDraft),
        (MessageState::OutPending, 20, "OutPending", LotState::MsgOutPending),
        (MessageState::OutFailed, 24, "OutFailed", LotState::MsgOutFailed),
        (MessageState::OutDelivered, 26, "OutDelivered", LotState::MsgOutDelivered),
        (MessageState::OutMdnRcvd, 28, "OutMdnRcvd", LotState::MsgOutMdnRcvd),
    ];
    for (state, code, name, lot) in codes.iter() {
        assert_eq!(state.to_i32(), *code);
        assert_eq!(MessageState::from_i64(*code as i64), *state);
        assert_eq!(state.to_string(), *name);
        assert_eq!(LotState::from(*state), *lot);
        let mut msg = Message::new(Viewtype::Image);
        msg.state = *state;
        assert_eq!(msg.is_sent(), *code >= 26);
        assert_eq!(state.can_fail(), [18, 20, 26].contains(code));
        assert_eq!(msg.is_increation(), *code == 18);
        msg.type_0 = Viewtype::Text;
        assert!(!msg.is_increation());
    }
    assert_eq!(MessageState::from_i64(11), MessageState::Undefined);
    assert_eq!(MessageState::default(), MessageState::Undefined);
    assert_eq!(Viewtype::from_i64(23), Viewtype::Sticker);
    assert_eq!(Viewtype::default(), Viewtype::Unknown);
    assert_eq!(Chattype::from_i64(130), Chattype::VerifiedGroup);
    assert_eq!(Chattype::from_i64(1), Chattype::Undefined);
    assert_eq!(Blocked::from_i64(2), Blocked::Deaddrop);
}

#[test]
fn messages_of_blocked_chats_are_shown_elsewhere() {
    let mut msg = Message::new(Viewtype::Text);
    msg.chat_id = 55;
    assert_eq!(msg.get_chat_id(), 55);
    msg.chat_blocked = Blocked::Manually;
    assert_eq!(msg.get_chat_id(), 1);
    msg.chat_blocked = Blocked::Deaddrop;
    assert_eq!(msg.get_chat_id(), 1);
}

#[test]
fn flags_in_parameters() {
    let mut msg = Message::new(Viewtype::Text);
    msg.param.set_int(Param::GuaranteeE2ee, 1);
    msg.param.set_int(Param::Forwarded, 1);
    msg.starred = true;
    assert!(msg.get_showpadlock());
    assert!(msg.is_forwarded());
    assert!(msg.is_starred());
    msg.param.set_int(Param::GuaranteeE2ee, 0);
    assert!(!msg.get_showpadlock());
}

#[test]
fn messages_about_something_that_happened() {
    let mut msg = Message::new(Viewtype::Text);
    msg.from_id = 2;
    assert!(msg.is_info());
    msg.from_id = 1;
    assert!(!msg.is_info());
    msg.to_id = 2;
    assert!(msg.is_info());
    msg.to_id = 12;
    msg.param.set_cmd(SystemMessage::MemberAddedToGroup);
    assert!(msg.is_info());
    msg.param.set_cmd(SystemMessage::AutocryptSetupMessage);
    assert!(!msg.is_info());
    assert!(!msg.is_setupmessage());
    msg.type_0 = Viewtype::File;
    assert!(msg.is_setupmessage());
}

fn setup_message() -> Message {
    let mut msg = Message::new(Viewtype::File);
    msg.param.set_cmd(SystemMessage::AutocryptSetupMessage);
    msg
}

fn armored(kind: &str, footer: &str, headers: &str) -> Vec<u8> {
    format!(
        "-----BEGIN {}-----\n{}\naGVsbG8gd29ybGQ=\n-----END {}-----\n",
        kind, headers, footer
    )
    .into_bytes()
}

#[test]
fn setup_codes_of_armored_files() {
    let msg = setup_message();
    let headers = "Passphrase-Format: numeric9x4\nPassphrase-Begin: 17\n";
    let file = armored("PGP MESSAGE", "PGP MESSAGE", headers);
    assert_eq!(msg.get_setupcodebegin(Some(&file)), Some("17".to_string()));
    assert_eq!(msg.get_setupcodebegin(None), None);
    assert_eq!(Message::new(Viewtype::File).get_setupcodebegin(Some(&file)), None);
    let mut text = setup_message();
    text.type_0 = Viewtype::Text;
    assert_eq!(text.get_setupcodebegin(Some(&file)), None);
    let shouted = armored("PGP MESSAGE", "PGP MESSAGE", "PASSPHRASE-BEGIN: 2 \n");
    assert_eq!(msg.get_setupcodebegin(Some(&shouted)), Some("2".to_string()));
    let other = armored("PGP SIGNATURE", "PGP SIGNATURE", headers);
    assert_eq!(msg.get_setupcodebegin(Some(&other)), None);
    let mixed = armored("PGP MESSAGE", "PGP SIGNATURE", headers);
    assert_eq!(msg.get_setupcodebegin(Some(&mixed)), None);
    let without = armored("PGP MESSAGE", "PGP MESSAGE", "Version: 1\n");
    assert_eq!(msg.get_setupcodebegin(Some(&without)), None);
    for bytes in ["", "hello", "-----", "-----BEGIN PGP MESSAGE-----\n"].iter() {
        assert_eq!(msg.get_setupcodebegin(Some(&bytes.as_bytes().to_vec())), None);
    }
}

#[test]
fn setup_codes_of_heads() {
    let mut armor = Armor {
        typ: "PGP MESSAGE".to_string(),
        headers: vec![
            (" Passphrase-Begin".to_string(), vec!["1".to_string(), " 2 ".to_string()]),
            ("Version".to_string(), vec!["9".to_string()]),
        ],
    };
    assert_eq!(setupcode_of_armor(&armor), Some("2".to_string()));
    armor.headers.push(("passphrase-begin".to_string(), vec!["3".to_string()]));
    assert_eq!(setupcode_of_armor(&armor), Some("3".to_string()));
    armor.headers.push(("passphrase-begin".to_string(), Vec::new()));
    assert_eq!(setupcode_of_armor(&armor), Some("3".to_string()));
    armor.typ = "PGP MESSAGE, PART 1/2".to_string();
    assert_eq!(setupcode_of_armor(&armor), None);
}

#[test]
fn numbers_as_signed_integers() {
    for (number, signed) in [
        (0u32, 0i32),
        (2147483647, 2147483647),
        (2147483648, -2147483648),
        (4294967295, -1),
    ]
    .iter()
    {
        assert_eq!(wrap(*number), *signed);
        assert_eq!(unwrap(*signed), *number);
    }
}
