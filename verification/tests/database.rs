use deltachat_message::chat::Contact;
use deltachat_message::constants::{Blocked, Viewtype};
use deltachat_message::context::Context;
use deltachat_message::effect::{Action, Effect, Event};
use deltachat_message::info::{get_msg_info, read_receipts, InfoReply, Receipt, ReceiptRow};
use deltachat_message::load::{LoadError, MessageRow};
use deltachat_message::message::Message;
use deltachat_message::msgid::{InvalidMsgId, MsgId};
use deltachat_message::param::Param;
use deltachat_message::receipts::{mdn_from_ext, MdnReply, MdnRequest, MdnState, SentRow};
use deltachat_message::seen::{markseen_msgs, markseen_query, SeenLookup};
use deltachat_message::sql::{ColumnValue, FromSqlError, SqlValue, Statement};
use deltachat_message::state::MessageState;
use deltachat_message::store::{
    dc_empty_server, deaddrop_msg_cnt_query, delete_msgs, failed_event, get_deaddrop_msg_cnt, get_mime_headers,
    mime_headers_query,
    get_real_msg_cnt, msg_exists, msg_exists_query, raw_text_query, real_msg_cnt_query,
    rfc724_mid_cnt, rfc724_mid_cnt_query, rfc724_mid_exists, rfc724_mid_exists_query,
    set_msg_failed, star_msgs, star_next, update_msg_state, update_server_uid, MidError, MidRow,
    StarStep,
};

fn text(s: &str) -> ColumnValue {
    ColumnValue::Text(s.as_bytes().to_vec())
}

fn row() -> MessageRow {
    MessageRow {
        id: ColumnValue::Integer(4711),
        rfc724mid: text("Mr.1@example.org"),
        mime_in_reply_to: ColumnValue::Null,
        server_folder: text("INBOX"),
        server_uid: ColumnValue::Integer(12),
        chat_id: ColumnValue::Integer(13),
        from_id: ColumnValue::Integer(14),
        to_id: ColumnValue::Integer(1),
        timestamp: ColumnValue::Integer(100),
        timestamp_sent: ColumnValue::Integer(99),
        timestamp_rcvd: ColumnValue::Integer(-5),
        typ: ColumnValue::Integer(20),
        state: ColumnValue::Integer(10),
        msgrmsg: ColumnValue::Integer(1),
        txt: text("hi"),
        param: text("f=$BLOBDIR/x.jpg\nw=640"),
        starred: ColumnValue::Integer(2),
        hidden: ColumnValue::Integer(0),
        location: ColumnValue::Integer(3),
        blocked: ColumnValue::Integer(2),
    }
}

fn context() -> Context {
    Context::new("/blobs".to_string())
}

fn shown(effects: &[Effect]) -> Vec<String> {
    effects.iter().map(|e| format!("{:?}", e)).collect()
}

fn integers(statement: &Statement) -> Vec<i64> {
    statement
        .params()
        .unwrap()
        .iter()
        .map(|v| match v {
            SqlValue::Integer(n) => *n,
            SqlValue::Text(s) => panic!("unexpected text {}", s),
        })
        .collect()
}

#[test]
fn messages_are_loaded_from_rows() {
    let msg = Message::load_from_db(MsgId::new(4711), Some(&row())).unwrap();
    assert_eq!(msg.get_id(), MsgId::new(4711));
    assert_eq!(msg.rfc724_mid, "Mr.1@example.org");
    assert_eq!(msg.in_reply_to, None);
    assert_eq!(msg.server_folder, Some("INBOX".to_string()));
    assert_eq!(msg.server_uid, 12);
    assert_eq!(msg.chat_id, 13);
    assert_eq!(msg.get_chat_id(), 1);
    assert_eq!(msg.get_from_id(), 14);
    assert_eq!(msg.to_id, 1);
    assert_eq!(msg.get_sort_timestamp(), 100);
    assert_eq!(msg.get_timestamp(), 99);
    assert_eq!(msg.get_received_timestamp(), -5);
    assert_eq!(msg.get_viewtype(), Viewtype::Image);
    assert_eq!(msg.get_state(), MessageState::InFresh);
    assert_eq!(msg.is_dc_message, 1);
    assert_eq!(msg.get_text(), Some("hi".to_string()));
    assert_eq!(msg.get_file(&context()), Some("/blobs/x.jpg".to_string()));
    assert_eq!(msg.get_width(), 640);
    assert!(msg.is_starred());
    assert!(!msg.hidden);
    assert!(msg.has_location());
    assert_eq!(msg.chat_blocked, Blocked::Deaddrop);
}

#[test]
fn a_loaded_text_message_has_no_mime_type() {
    let mut plain = row();
    plain.typ = ColumnValue::Integer(10);
    plain.param = text("");
    let msg = Message::load_from_db(MsgId::new(4711), Some(&plain)).unwrap();
    assert_eq!(msg.get_filemime(), None);
}

#[test]
fn test_prepare_message_and_send() {
    let mut msg = Message::new(Viewtype::Text);
    msg.id = MsgId::new(10);
    msg.state = MessageState::OutPreparing;

    let stored = |n: i64| ColumnValue::Integer(n);
    let prepared = MessageRow {
        id: stored(msg.id.to_sql().unwrap()),
        rfc724mid: text("Mr.2@example.com"),
        mime_in_reply_to: text(""),
        server_folder: ColumnValue::Null,
        server_uid: stored(0),
        chat_id: stored(10),
        from_id: stored(1),
        to_id: stored(10),
        timestamp: stored(1577836800),
        timestamp_sent: stored(0),
        timestamp_rcvd: stored(0),
        typ: stored(10),
        state: stored(msg.state.to_i32() as i64),
        msgrmsg: stored(1),
        txt: text(""),
        param: text(&msg.param.to_string()),
        starred: stored(0),
        hidden: stored(0),
        location: stored(0),
        blocked: stored(0),
    };

    let _msg2 = Message::load_from_db(msg.id, Some(&prepared)).unwrap();
    assert_eq!(_msg2.get_filemime(), None);
    assert_eq!(_msg2.get_viewtype(), Viewtype::Text);
    assert_eq!(_msg2.get_state(), MessageState::OutPreparing);
}

#[test]
fn special_messages_are_not_loaded() {
    assert_eq!(
        Message::load_from_db(MsgId::new(9), Some(&row())).unwrap_err(),
        LoadError::SpecialMsgId
    );
    assert_eq!(
        Message::load_from_db(MsgId::new(10), None).unwrap_err(),
        LoadError::NotFound
    );
    assert_eq!(Message::load_query(MsgId::new(9)).unwrap_err(), LoadError::SpecialMsgId);
    let query = Message::load_query(MsgId::new(10)).unwrap();
    assert_eq!(integers(&query), vec![10]);
    assert_eq!(
        query.sql(),
        "SELECT    m.id AS id,    rfc724_mid AS rfc724mid,    \
         m.mime_in_reply_to AS mime_in_reply_to,    m.server_folder AS server_folder,    \
         m.server_uid AS server_uid,    m.chat_id AS chat_id,    m.from_id AS from_id,    \
         m.to_id AS to_id,    m.timestamp AS timestamp,    m.timestamp_sent AS timestamp_sent,    \
         m.timestamp_rcvd AS timestamp_rcvd,    m.type AS type,    m.state AS state,    \
         m.msgrmsg AS msgrmsg,    m.txt AS txt,    m.param AS param,    m.starred AS starred,    \
         m.hidden AS hidden,    m.location_id AS location,    c.blocked AS blocked \
         FROM msgs m LEFT JOIN chats c ON c.id=m.chat_id WHERE m.id=?;"
    );
}

#[test]
fn columns_that_are_not_what_they_should_be() {
    let load = |r: &MessageRow| Message::from_row(r).unwrap_err();
    let mut bad = row();
    bad.to_id = ColumnValue::Integer(-1);
    bad.blocked = text("x");
    assert_eq!(load(&bad), FromSqlError::OutOfRange(-1));
    let mut bad = row();
    bad.rfc724mid = ColumnValue::Null;
    assert_eq!(load(&bad), FromSqlError::InvalidType);
    let mut bad = row();
    bad.server_folder = ColumnValue::Text(vec![0xff]);
    assert_eq!(load(&bad), FromSqlError::InvalidUtf8);
    let mut bad = row();
    bad.timestamp = ColumnValue::Real;
    assert_eq!(load(&bad), FromSqlError::InvalidType);
    let mut bad = row();
    bad.starred = ColumnValue::Blob(vec![1]);
    assert_eq!(load(&bad), FromSqlError::InvalidType);
}

#[test]
fn columns_that_are_mended() {
    let mut odd = row();
    odd.txt = ColumnValue::Text(vec![b'a', 0xff, b'b']);
    odd.param = text("no parameters");
    odd.blocked = ColumnValue::Null;
    odd.typ = ColumnValue::Integer(999);
    odd.state = ColumnValue::Integer(-3);
    let msg = Message::from_row(&odd).unwrap();
    assert_eq!(msg.get_text(), Some("a\u{fffd}b".to_string()));
    assert_eq!(msg.param.to_string(), "");
    assert_eq!(msg.chat_blocked, Blocked::Not);
    assert_eq!(msg.get_viewtype(), Viewtype::Unknown);
    assert_eq!(msg.get_state(), MessageState::Undefined);
    odd.txt = ColumnValue::Integer(5);
    assert_eq!(Message::from_row(&odd).unwrap().get_text(), Some("".to_string()));
    odd.txt = text("\u{e4}\u{1f600}");
    assert_eq!(
        Message::from_row(&odd).unwrap().get_text(),
        Some("\u{e4}\u{1f600}".to_string())
    );
}

#[test]
fn saved_parameters_come_back() {
    let mut msg = Message::from_row(&row()).unwrap();
    msg.set_duration(77);
    let saved = match msg.save_param_to_disk() {
        Statement::SaveParam { param, .. } => param,
        _ => panic!("not a statement that saves"),
    };
    let mut again = row();
    again.param = text(&saved);
    let loaded = Message::from_row(&again).unwrap();
    assert_eq!(loaded.param.to_string(), msg.param.to_string());
    assert_eq!(loaded.get_duration(), 77);
}

#[test]
fn deleting_from_the_database() {
    let msg = Message::from_row(&row()).unwrap();
    let statements = Message::delete_from_db(Some(&msg));
    let texts: Vec<&str> = statements.iter().map(|s| s.sql()).collect();
    assert_eq!(
        texts,
        vec!["DELETE FROM msgs WHERE id=?;", "DELETE FROM msgs_mdns WHERE msg_id=?;"]
    );
    assert_eq!(integers(&statements[0]), vec![4711]);
    assert_eq!(integers(&statements[1]), vec![4711]);
    assert!(Message::delete_from_db(None).is_empty());
}

#[test]
fn statements_about_special_messages_are_refused() {
    assert_eq!(mime_headers_query(MsgId::new(9)).params().unwrap_err(), InvalidMsgId);
    assert_eq!(integers(&mime_headers_query(MsgId::new(10))), vec![10]);
    assert_eq!(mime_headers_query(MsgId::new(10)).sql(), "SELECT mime_headers FROM msgs WHERE id=?;");
    assert_eq!(raw_text_query(MsgId::new(3)).params().unwrap_err(), InvalidMsgId);
    let update = update_msg_state(MsgId::new(11), MessageState::OutPending);
    assert_eq!(update.sql(), "UPDATE msgs SET state=? WHERE id=?;");
    assert_eq!(integers(&update), vec![20, 11]);
    let update = update_msg_state(MsgId::new(0), MessageState::OutPending);
    assert_eq!(update.params().unwrap_err(), InvalidMsgId);
}

#[test]
fn deleting_messages() {
    assert!(delete_msgs(&Vec::new()).is_empty());
    let effects = delete_msgs(&vec![
        (MsgId::new(20), None),
        (MsgId::new(21), Some(0)),
        (MsgId::new(4294967295), Some(4294967294)),
    ]);
    assert_eq!(effects.len(), 10);
    match &effects[1] {
        Effect::AddJob(job) => {
            assert_eq!(job.action, Action::DeleteMsgOnImap);
            assert_eq!(job.foreign_id, 20);
            assert_eq!(job.delay_seconds, 0);
        }
        _ => panic!("not a job"),
    }
    match (&effects[0], &effects[4], &effects[5], &effects[6]) {
        (
            Effect::Execute(first),
            Effect::Execute(location),
            Effect::Execute(trash),
            Effect::AddJob(job),
        ) => {
            assert_eq!(first.sql(), "UPDATE msgs SET chat_id=? WHERE id=?;");
            assert_eq!(integers(first), vec![3, 20]);
            assert_eq!(
                location.sql(),
                "DELETE FROM locations WHERE independent = 1 AND id=?;"
            );
            assert_eq!(integers(location), vec![-2]);
            assert_eq!(integers(trash), vec![3, 4294967295]);
            assert_eq!(job.foreign_id, -1);
        }
        _ => panic!("wrong effects {:?}", effects),
    }
    assert_eq!(
        shown(&effects[7..]),
        vec![
            "Emit(MsgsChanged { chat_id: 0, msg_id: MsgId(0) })",
            "KillJobs(Housekeeping)",
            "AddJob(Job { action: Housekeeping, foreign_id: 0, delay_seconds: 10 })",
        ]
    );
}

fn lookup(state: i64, blocked: i64) -> SeenLookup {
    SeenLookup::Row {
        state: ColumnValue::Integer(state),
        blocked: ColumnValue::Integer(blocked),
    }
}

#[test]
fn marking_messages_as_seen() {
    let (ok, effects) = markseen_msgs(&vec![
        (MsgId::new(20), lookup(10, 0)),
        (MsgId::new(21), lookup(13, 0)),
        (MsgId::new(22), lookup(16, 0)),
        (MsgId::new(23), lookup(10, 2)),
        (MsgId::new(24), lookup(13, 1)),
        (MsgId::new(25), SeenLookup::NoRow),
        (MsgId::new(26), lookup(26, 0)),
    ]);
    assert!(ok);
    assert_eq!(
        shown(&effects),
        vec![
            "Execute(SetState { state: InSeen, msg_id: MsgId(20) })",
            "AddJob(Job { action: MarkseenMsgOnImap, foreign_id: 20, delay_seconds: 0 })",
            "Execute(SetState { state: InSeen, msg_id: MsgId(21) })",
            "AddJob(Job { action: MarkseenMsgOnImap, foreign_id: 21, delay_seconds: 0 })",
            "Execute(SetState { state: InNoticed, msg_id: MsgId(23) })",
            "Emit(MsgsChanged { chat_id: 0, msg_id: MsgId(0) })",
        ]
    );
    assert_eq!(
        markseen_query(MsgId::new(20)).sql(),
        "SELECT    m.state AS state,    c.blocked AS blocked FROM msgs m \
         LEFT JOIN chats c ON c.id=m.chat_id WHERE m.id=? AND m.chat_id>9"
    );
}

#[test]
fn marking_messages_as_seen_twice() {
    let first = vec![(MsgId::new(20), lookup(10, 0)), (MsgId::new(21), lookup(10, 2))];
    assert_eq!(markseen_msgs(&first).1.len(), 4);
    let second = vec![(MsgId::new(20), lookup(16, 0)), (MsgId::new(21), lookup(13, 2))];
    let (ok, effects) = markseen_msgs(&second);
    assert!(ok);
    assert!(effects.is_empty());
}

#[test]
fn marking_nothing_as_seen() {
    let (ok, effects) = markseen_msgs(&Vec::new());
    assert!(!ok);
    assert!(effects.is_empty());
    let (ok, effects) = markseen_msgs(&vec![(MsgId::new(20), lookup(16, 0))]);
    assert!(ok);
    assert!(effects.is_empty());
    let fresh = (MsgId::new(20), lookup(10, 0));
    for bad in vec![
        (MsgId::new(21), SeenLookup::Failed),
        (MsgId::new(9), SeenLookup::NoRow),
        (
            MsgId::new(21),
            SeenLookup::Row {
                state: ColumnValue::Null,
                blocked: ColumnValue::Null,
            },
        ),
    ] {
        let (ok, effects) = markseen_msgs(&vec![fresh.clone(), bad]);
        assert!(!ok);
        assert!(effects.is_empty());
    }
    let (ok, effects) = markseen_msgs(&vec![(
        MsgId::new(21),
        SeenLookup::Row {
            state: ColumnValue::Integer(10),
            blocked: ColumnValue::Null,
        },
    )]);
    assert!(ok);
    assert_eq!(effects.len(), 3);
}

#[test]
fn starring_messages() {
    assert!(star_msgs(&Vec::new(), true).is_none());
    let statements = star_msgs(&vec![MsgId::new(30), MsgId::new(2)], true).unwrap();
    assert_eq!(statements.len(), 2);
    assert_eq!(statements[0].sql(), "UPDATE msgs SET starred=? WHERE id=?;");
    assert_eq!(integers(&statements[0]), vec![1, 30]);
    assert_eq!(statements[1].params().unwrap_err(), InvalidMsgId);
    let statements = star_msgs(&vec![MsgId::new(30)], false).unwrap();
    assert_eq!(integers(&statements[0]), vec![0, 30]);
}

#[test]
fn starring_ends_at_the_first_failure() {
    assert_eq!(star_next(0, 0, false), StarStep::Answer(false));
    assert_eq!(star_next(2, 0, false), StarStep::Put(0));
    assert_eq!(star_next(2, 1, false), StarStep::Put(1));
    assert_eq!(star_next(2, 2, false), StarStep::Answer(true));
    assert_eq!(star_next(2, 0, true), StarStep::Answer(false));
    assert_eq!(star_next(2, 1, true), StarStep::Answer(false));
}

#[test]
fn existing_messages() {
    assert!(msg_exists_query(MsgId::new(9)).is_none());
    let query = msg_exists_query(MsgId::new(10)).unwrap();
    assert_eq!(query.sql(), "SELECT chat_id FROM msgs WHERE id=?;");
    assert!(msg_exists(MsgId::new(10), Some(&ColumnValue::Integer(12))));
    assert!(!msg_exists(MsgId::new(10), Some(&ColumnValue::Integer(3))));
    assert!(!msg_exists(MsgId::new(10), Some(&ColumnValue::Integer(-12))));
    assert!(!msg_exists(MsgId::new(10), Some(&ColumnValue::Null)));
    assert!(!msg_exists(MsgId::new(10), None));
    assert!(!msg_exists(MsgId::new(9), Some(&ColumnValue::Integer(12))));
}

#[test]
fn headers_that_were_kept() {
    assert_eq!(get_mime_headers(Some(&text("From: a@b"))), Some("From: a@b".to_string()));
    assert_eq!(get_mime_headers(Some(&text(""))), Some("".to_string()));
    assert_eq!(get_mime_headers(Some(&ColumnValue::Null)), None);
    assert_eq!(get_mime_headers(Some(&ColumnValue::Text(vec![0xc3]))), None);
    assert_eq!(get_mime_headers(None), None);
}

#[test]
fn failing_messages() {
    let mut msg = Message::new(Viewtype::Text);
    msg.state = MessageState::OutPending;
    msg.chat_id = 33;
    let (statement, event) = set_msg_failed(&mut msg, MsgId::new(50), Some("no route"));
    assert_eq!(msg.get_state(), MessageState::OutFailed);
    assert_eq!(msg.param.get(Param::Error), Some("no route"));
    assert_eq!(
        event,
        Event::MsgFailed {
            chat_id: 33,
            msg_id: MsgId::new(50)
        }
    );
    assert_eq!(statement.sql(), "UPDATE msgs SET state=?, param=? WHERE id=?;");
    let values = format!("{:?}", statement.params().unwrap());
    assert_eq!(values, "[Integer(24), Text(\"L=no route\"), Integer(50)]");
    let mut msg = Message::new(Viewtype::Text);
    msg.state = MessageState::OutMdnRcvd;
    set_msg_failed(&mut msg, MsgId::new(50), None);
    assert_eq!(failed_event(true, event), Some(event));
    assert_eq!(failed_event(false, event), None);
    assert_eq!(msg.get_state(), MessageState::OutMdnRcvd);
    assert_eq!(msg.param.get(Param::Error), None);
}

fn sent(chat_type: i64, state: i64) -> MdnReply {
    MdnReply::Found(Some(SentRow {
        msg_id: ColumnValue::Integer(60),
        chat_id: ColumnValue::Integer(61),
        typ: ColumnValue::Integer(chat_type),
        state: ColumnValue::Integer(state),
    }))
}

fn request_text(state: &MdnState) -> String {
    format!("{:?}", state.request())
}

#[test]
fn receipts_that_are_not_looked_at() {
    for state in vec![mdn_from_ext(9, "a@b", 5), mdn_from_ext(10, "", 5)] {
        assert_eq!(request_text(&state), "Finished(None)");
    }
    let state = mdn_from_ext(10, "a@b", 5).next(MdnReply::Found(None));
    assert_eq!(request_text(&state), "Finished(None)");
    let state = mdn_from_ext(10, "a@b", 5).next(sent(100, 28));
    assert_eq!(request_text(&state), "Finished(None)");
    let state = mdn_from_ext(10, "a@b", 5).next(MdnReply::Found(Some(SentRow {
        msg_id: ColumnValue::Integer(60),
        chat_id: ColumnValue::Null,
        typ: ColumnValue::Null,
        state: ColumnValue::Integer(26),
    })));
    assert_eq!(request_text(&state), "Finished(None)");
}

#[test]
fn receipts_in_a_chat_of_two() {
    let state = mdn_from_ext(10, "a@b", 5);
    match state.request() {
        MdnRequest::Find(statement) => {
            assert_eq!(
                statement.sql(),
                "SELECT    m.id AS msg_id,    c.id AS chat_id,    c.type AS type,    \
                 m.state AS state FROM msgs m LEFT JOIN chats c ON m.chat_id=c.id \
                 WHERE rfc724_mid=? AND from_id=1 ORDER BY m.id;"
            );
            assert_eq!(format!("{:?}", statement.params().unwrap()), "[Text(\"a@b\")]");
        }
        other => panic!("wrong request {:?}", other),
    }
    let state = state.next(sent(100, 26));
    assert_eq!(
        request_text(&state),
        "HasRow(HasReceipt { msg_id: MsgId(60), contact_id: 10 })"
    );
    let state = state.next(MdnReply::HasRow(false));
    assert_eq!(
        request_text(&state),
        "Execute(AddReceipt { msg_id: MsgId(60), contact_id: 10, timestamp_sent: 5 })"
    );
    let state = state.next(MdnReply::Executed);
    assert_eq!(
        request_text(&state),
        "Execute(SetState { state: OutMdnRcvd, msg_id: MsgId(60) })"
    );
    let state = state.next(MdnReply::Executed);
    assert_eq!(request_text(&state), "Finished(Some((61, MsgId(60))))");
}

fn group_outcome(count: Option<ColumnValue>, members: usize) -> String {
    let state = mdn_from_ext(10, "a@b", 5)
        .next(sent(120, 26))
        .next(MdnReply::HasRow(true));
    assert_eq!(request_text(&state), "Count(CountReceipts(MsgId(60)))");
    let state = state.next(MdnReply::Counted(count));
    assert_eq!(request_text(&state), "ChatContactCount(61)");
    let state = state.next(MdnReply::Members(members));
    match state.request() {
        MdnRequest::Finished(None) => "wait".to_string(),
        MdnRequest::Execute(_) => request_text(&state.next(MdnReply::Executed)),
        other => panic!("wrong request {:?}", other),
    }
}

#[test]
fn receipts_in_groups() {
    let read = "Finished(Some((61, MsgId(60))))";
    for (members, needed) in [(2usize, 1i64), (3, 2), (4, 2), (5, 3), (6, 3)].iter() {
        assert_eq!(group_outcome(Some(ColumnValue::Integer(*needed)), *members), read);
        assert_eq!(group_outcome(Some(ColumnValue::Integer(*needed - 1)), *members), "wait");
    }
    assert_eq!(group_outcome(None, 2), "wait");
    assert_eq!(group_outcome(Some(ColumnValue::Null), 2), "wait");
    assert_eq!(group_outcome(Some(ColumnValue::Integer(-1)), 100), read);
    assert_eq!(group_outcome(None, 0), read);
    assert_eq!(group_outcome(Some(ColumnValue::Integer(1)), usize::MAX), "wait");
}

#[test]
fn counting_messages() {
    assert_eq!(
        real_msg_cnt_query().sql(),
        "SELECT COUNT(*) FROM msgs m  LEFT JOIN chats c ON c.id=m.chat_id \
         WHERE m.id>9 AND m.chat_id>9 AND c.blocked=0;"
    );
    assert!(real_msg_cnt_query().params().unwrap().is_empty());
    assert_eq!(get_real_msg_cnt(Some(&ColumnValue::Integer(7))), 7);
    assert_eq!(get_real_msg_cnt(Some(&ColumnValue::Integer(1 << 40))), 0);
    assert_eq!(get_real_msg_cnt(None), 0);
    assert_eq!(
        deaddrop_msg_cnt_query().sql(),
        "SELECT COUNT(*) FROM msgs m LEFT JOIN chats c ON c.id=m.chat_id WHERE c.blocked=2;"
    );
    assert_eq!(get_deaddrop_msg_cnt(Some(&ColumnValue::Integer(8))), 8);
    assert_eq!(get_deaddrop_msg_cnt(Some(&text("8"))), 0);
    assert_eq!(get_deaddrop_msg_cnt(None), 0);
    assert_eq!(get_deaddrop_msg_cnt(Some(&ColumnValue::Integer(-1))), usize::MAX);
    assert_eq!(
        rfc724_mid_cnt_query("a@b").sql(),
        "SELECT COUNT(*) FROM msgs WHERE rfc724_mid=?;"
    );
    assert_eq!(rfc724_mid_cnt(Some(&ColumnValue::Integer(2))), 2);
    assert_eq!(rfc724_mid_cnt(Some(&ColumnValue::Null)), 0);
}

#[test]
fn looking_up_message_ids() {
    assert_eq!(rfc724_mid_exists_query("").unwrap_err(), MidError::Empty);
    assert_eq!(
        rfc724_mid_exists_query("a@b").unwrap().sql(),
        "SELECT server_folder, server_uid, id FROM msgs WHERE rfc724_mid=?"
    );
    let mut found = MidRow {
        server_folder: ColumnValue::Null,
        server_uid: ColumnValue::Integer(4),
        id: ColumnValue::Integer(70),
    };
    assert_eq!(
        rfc724_mid_exists("a@b", Some(&found)),
        Ok(("".to_string(), 4, MsgId::new(70)))
    );
    found.server_folder = text("INBOX");
    assert_eq!(
        rfc724_mid_exists("a@b", Some(&found)),
        Ok(("INBOX".to_string(), 4, MsgId::new(70)))
    );
    assert_eq!(rfc724_mid_exists("", Some(&found)), Err(MidError::Empty));
    assert_eq!(rfc724_mid_exists("a@b", None), Err(MidError::NotFound));
    found.server_uid = ColumnValue::Integer(-4);
    assert_eq!(
        rfc724_mid_exists("a@b", Some(&found)),
        Err(MidError::Row(FromSqlError::OutOfRange(-4)))
    );
    let update = update_server_uid("a@b", "Sent", 9);
    assert_eq!(
        update.sql(),
        "UPDATE msgs SET server_folder=?, server_uid=? WHERE rfc724_mid=?;"
    );
    assert_eq!(
        format!("{:?}", update.params().unwrap()),
        "[Text(\"Sent\"), Integer(9), Text(\"a@b\")]"
    );
}

#[test]
fn emptying_the_server() {
    assert_eq!(
        shown(&dc_empty_server(0x8000_0001)),
        vec![
            "KillJobs(EmptyServer)",
            "AddJob(Job { action: EmptyServer, foreign_id: -2147483647, delay_seconds: 0 })",
        ]
    );
}

fn reply() -> InfoReply {
    InfoReply {
        sent: "2019.12.01 10:00:00".to_string(),
        sender: Some(contact("Ada (ada@b)")),
        received: "2019.12.01 10:00:05".to_string(),
        receipts: Some(vec![
            Receipt {
                time: "2019.12.02 11:00:00".to_string(),
                contact: Some(contact("Bob (bob@b)")),
            },
            Receipt {
                time: "2019.12.03 12:00:00".to_string(),
                contact: None,
            },
        ]),
        file_bytes: 1234,
    }
}

fn contact(name_n_addr: &str) -> Contact {
    Contact {
        display_name: "display".to_string(),
        first_name: "first".to_string(),
        name_n_addr: name_n_addr.to_string(),
    }
}

#[test]
fn details_of_a_message() {
    let mut msg = Message::from_row(&row()).unwrap();
    msg.param.set_int(Param::Height, 480);
    msg.param.set_int(Param::Duration, 9);
    msg.param.set_int(Param::ErroneousE2ee, 2);
    msg.param.set(Param::Error, "oops");
    let raw = text("  raw text \n");
    assert_eq!(
        get_msg_info(MsgId::new(4711), Some(&msg), Some(&raw), &reply(), &context()),
        "Sent: 2019.12.01 10:00:00 by Ada (ada@b)\n\
         Received: 2019.12.01 10:00:05\n\
         Read: 2019.12.02 11:00:00 by Bob (bob@b)\n\
         Read: 2019.12.03 12:00:00 by \n\
         State: Fresh, Location sent, Encrypted, no valid signature\n\
         Error: oops\n\
         File: /blobs/x.jpg, 1234, bytes\n\
         Type: Image\n\
         Mimetype: image/jpeg\n\
         Dimension: 640 x 480\n\
         Duration: 9 ms\n\
         \n\
         raw text\n\
         \n\
         Message-ID: Mr.1@example.org\n\
         Last seen as: INBOX/12"
    );
    let request = msg.info_request(MsgId::new(4711));
    assert_eq!(request.sent, 99);
    assert_eq!(request.sender, 14);
    assert_eq!(request.received, Some(-5));
    assert_eq!(
        request.receipts.unwrap().sql(),
        "SELECT contact_id, timestamp_sent FROM msgs_mdns WHERE msg_id=?;"
    );
}

#[test]
fn details_of_an_own_message() {
    let mut msg = Message::new(Viewtype::Text);
    msg.from_id = 1;
    msg.state = MessageState::OutDraft;
    msg.server_folder = Some("".to_string());
    msg.param.set_int(Param::GuaranteeE2ee, 1);
    let mut none = reply();
    none.receipts = None;
    none.sender = None;
    assert_eq!(
        get_msg_info(MsgId::new(11), Some(&msg), Some(&text("")), &none, &context()),
        "Sent: 2019.12.01 10:00:00 by \nState: OutDraft, Encrypted\n"
    );
    msg.param.set_int(Param::ErroneousE2ee, 1);
    assert_eq!(
        get_msg_info(MsgId::new(11), Some(&msg), Some(&text("")), &none, &context()),
        "Sent: 2019.12.01 10:00:00 by \nState: OutDraft\n"
    );
    let request = msg.info_request(MsgId::new(11));
    assert_eq!(request.received, None);
}

#[test]
fn words_for_states() {
    let words = [
        (MessageState::InFresh, "Fresh"),
        (MessageState::InNoticed, "Noticed"),
        (MessageState::InSeen, "Seen"),
        (MessageState::OutDelivered, "Delivered"),
        (MessageState::OutFailed, "Failed"),
        (MessageState::OutMdnRcvd, "Read"),
        (MessageState::OutPending, "Pending"),
        (MessageState::OutPreparing, "Preparing"),
        (MessageState::OutDraft, "OutDraft"),
        (MessageState::Undefined, "Undefined"),
    ];
    let mut none = reply();
    none.receipts = None;
    for (state, word) in words.iter() {
        let mut msg = Message::new(Viewtype::Text);
        msg.from_id = 1;
        msg.state = *state;
        assert_eq!(
            get_msg_info(MsgId::new(11), Some(&msg), Some(&text("")), &none, &context()),
            format!("Sent: 2019.12.01 10:00:00 by Ada (ada@b)\nState: {}\n", word)
        );
    }
}

#[test]
fn details_that_are_not_known() {
    let mut msg = Message::new(Viewtype::Text);
    msg.to_id = 2;
    msg.timestamp_sort = 3;
    assert_eq!(get_msg_info(MsgId::new(11), None, None, &reply(), &context()), "");
    assert_eq!(
        get_msg_info(MsgId::new(11), Some(&msg), None, &reply(), &context()),
        "Cannot load message Msg#11."
    );
    assert_eq!(
        get_msg_info(MsgId::new(11), Some(&msg), Some(&ColumnValue::Null), &reply(), &context()),
        "Cannot load message Msg#11."
    );
    assert_eq!(
        get_msg_info(MsgId::new(11), Some(&msg), Some(&text("x")), &reply(), &context()),
        "Sent: 2019.12.01 10:00:00 by Ada (ada@b)\nReceived: 2019.12.01 10:00:05\n"
    );
    let request = msg.info_request(MsgId::new(11));
    assert!(request.receipts.is_none());
    assert_eq!(request.received, Some(3));
}

#[test]
fn rows_of_receipts() {
    let row = |contact: i64, time: i64| ReceiptRow {
        contact_id: ColumnValue::Integer(contact),
        timestamp_sent: ColumnValue::Integer(time),
    };
    assert_eq!(read_receipts(&Vec::new()), Some(Vec::new()));
    assert_eq!(
        read_receipts(&vec![row(10, 5), row(-2, -6)]),
        Some(vec![(10, 5), (4294967294, -6)])
    );
    assert_eq!(read_receipts(&vec![row(10, 5), row(1 << 31, 6)]), None);
    let bad = ReceiptRow {
        contact_id: ColumnValue::Integer(10),
        timestamp_sent: ColumnValue::Null,
    };
    assert_eq!(read_receipts(&vec![bad, row(10, 5)]), None);
}

#[test]
fn a_second_receipt_from_the_same_contact() {
    let count = MdnReply::Counted(Some(ColumnValue::Integer(1)));
    let first = mdn_from_ext(10, "a@b", 5)
        .next(sent(120, 26))
        .next(MdnReply::HasRow(false))
        .next(MdnReply::Executed)
        .next(count.clone())
        .next(MdnReply::Members(5));
    assert_eq!(request_text(&first), "Finished(None)");
    let second = mdn_from_ext(10, "a@b", 6)
        .next(sent(120, 26))
        .next(MdnReply::HasRow(true))
        .next(count)
        .next(MdnReply::Members(5));
    assert_eq!(request_text(&second), "Finished(None)");
    let after_marking = mdn_from_ext(10, "a@b", 6).next(sent(120, 28));
    assert_eq!(request_text(&after_marking), "Finished(None)");
}

#[test]
fn replies_to_something_else_change_nothing() {
    let replies = || {
        vec![
            sent(100, 26),
            MdnReply::HasRow(false),
            MdnReply::Executed,
            MdnReply::Counted(None),
            MdnReply::Members(0),
        ]
    };
    let finding = mdn_from_ext(10, "a@b", 5);
    let checking = finding.clone().next(sent(100, 26));
    let marking = checking.clone().next(MdnReply::HasRow(true));
    let done = marking.clone().next(MdnReply::Executed);
    for (state, answered) in vec![(finding, 0), (checking, 1), (marking, 2), (done, 5)] {
        for (i, reply) in replies().into_iter().enumerate() {
            let next = request_text(&state.clone().next(reply));
            assert_eq!(next == request_text(&state), i != answered);
        }
    }
}
