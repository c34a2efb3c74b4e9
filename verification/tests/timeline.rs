use matrix_account::account::Account;
use matrix_account::error::AccountError;
use matrix_account::event::{
    DisplayMessage, FileKind, MatrixEvent, MessageContent, MessageKind, TimelineEvent,
};
use matrix_account::sync::raw_message_notifications;
use matrix_account::timeline::{
    assemble_event, assemble_message, history_messages, page_without_token, read_timeline_event,
    reply_target, Direction, EventHeader, HistoryStart, MessageHeader, MessagePayload, MessageRelation,
};
use matrix_sdk::ruma::events::room::MediaSource;
use matrix_sdk::ruma::OwnedMxcUri;

/// A room message with the given content, sent at 1234567890.987 by Bob.
fn message_json(event_id: &str, content: &str) -> String {
    format!(
        r#"{{"type":"m.room.message","event_id":"{event_id}","sender":"@bob:example.com","origin_server_ts":1234567890987,"content":{content}}}"#
    )
}

fn text_json(event_id: &str, body: &str) -> String {
    message_json(event_id, &format!(r#"{{"msgtype":"m.text","body":"{body}"}}"#))
}

fn attachment_json(msgtype: &str) -> String {
    message_json(
        "$a",
        &format!(
            r#"{{"msgtype":"{msgtype}","body":"a caption","filename":"cat.bin","url":"mxc://example.com/abc"}}"#
        ),
    )
}

fn shown_of(json: &str) -> Option<DisplayMessage> {
    Account::<()>::timeline_event_to_display_message(&read_timeline_event(json).unwrap())
}

fn shown_text(message: &DisplayMessage) -> &str {
    match &message.content {
        MessageContent::Text(body) => body,
        other => panic!("{other:?}"),
    }
}

fn is_abc(source: &MediaSource) -> bool {
    matches!(source, MediaSource::Plain(uri) if uri.as_str() == "mxc://example.com/abc")
}

#[test]
fn text_is_shown() {
    let message = shown_of(&text_json("$a", "hello")).unwrap();
    assert_eq!(message.sender, "@bob:example.com");
    assert_eq!(shown_text(&message), "hello");
    assert_eq!(message.timestamp, 1234567890);
    assert_eq!(message.event_id.as_deref(), Some("$a"));
    assert_eq!(message.reply_to_sender, None);
    assert_eq!(message.reply_to_body, None);
    assert!(message.reactions.is_empty());
    assert_eq!(message.reply_to_event_id_raw, None);
}

#[test]
fn notice_and_emote_are_shown_as_text() {
    let notice = message_json("$a", r#"{"msgtype":"m.notice","body":"note"}"#);
    assert_eq!(shown_text(&shown_of(&notice).unwrap()), "note");
    let emote = message_json("$a", r#"{"msgtype":"m.emote","body":"waves"}"#);
    assert_eq!(shown_text(&shown_of(&emote).unwrap()), "* waves");
}

fn location_json() -> String {
    message_json("$a", r#"{"msgtype":"m.location","body":"here","geo_uri":"geo:1,2"}"#)
}

#[test]
fn unsupported_types_are_not_shown() {
    assert!(shown_of(&location_json()).is_none());
    let custom = message_json("$a", r#"{"msgtype":"org.example.x","body":"x"}"#);
    assert!(shown_of(&custom).is_none());
    let server_notice = message_json(
        "$a",
        r#"{"msgtype":"m.server_notice","body":"x","server_notice_type":"org.example.x"}"#,
    );
    assert!(shown_of(&server_notice).is_none());
    let chunk = vec![text_json("$2", "two"), location_json(), text_json("$1", "one")];
    let (messages, _) = Account::<()>::fetch_history_paged(&chunk, 10, None);
    let bodies: Vec<&str> = messages.iter().map(shown_text).collect();
    assert_eq!(bodies, ["one", "two"]);
}

#[test]
fn unsupported_types_are_told_live() {
    let events: Vec<MatrixEvent<()>> =
        raw_message_notifications("!room:x", &location_json());
    assert!(matches!(
        &events[0],
        MatrixEvent::Message { body, .. } if body == "[unsupported message type]"
    ));
    assert!(matches!(events[1], MatrixEvent::RoomsUpdated));
}

/// A message that quotes something, with the given relation.
fn related_json(relation: &str) -> String {
    message_json(
        "$a",
        &format!(
            r#"{{"msgtype":"m.text","body":"> q\n\nyes","m.new_content":{{"msgtype":"m.text","body":"new"}},"m.relates_to":{relation}}}"#
        ),
    )
}

#[test]
fn only_a_reply_counts_as_one() {
    let reply = shown_of(&related_json(r#"{"m.in_reply_to":{"event_id":"$first"}}"#)).unwrap();
    assert_eq!(shown_text(&reply), "yes");
    assert_eq!(reply.reply_to_event_id_raw.as_deref(), Some("$first"));
    for relation in [
        r#"{"rel_type":"m.thread","event_id":"$root","m.in_reply_to":{"event_id":"$first"},"is_falling_back":true}"#,
        r#"{"rel_type":"m.thread","event_id":"$root","m.in_reply_to":{"event_id":"$first"}}"#,
        r#"{"rel_type":"m.replace","event_id":"$first"}"#,
        r#"{"rel_type":"org.example.x","event_id":"$first"}"#,
    ] {
        let json = related_json(relation);
        let shown = shown_of(&json).unwrap();
        assert_eq!(shown_text(&shown), "> q\n\nyes");
        assert_eq!(shown.reply_to_event_id_raw, None);
        let events: Vec<MatrixEvent<()>> = raw_message_notifications("!room:x", &json);
        assert!(matches!(
            &events[0],
            MatrixEvent::Message { body, reply_to_event_id: None, .. } if body == "> q\n\nyes"
        ));
    }
}

#[test]
fn reply_target_is_that_of_a_reply() {
    let reply = Some(MessageRelation::Reply { event_id: "$first".to_string() });
    assert_eq!(reply_target(&reply).as_deref(), Some("$first"));
    for relation in [
        Some(MessageRelation::Replacement),
        Some(MessageRelation::Thread),
        Some(MessageRelation::Other),
        None,
    ] {
        assert_eq!(reply_target(&relation), None);
    }
}

#[test]
fn reply_is_shown_without_its_fallback() {
    let content = r#"{"msgtype":"m.text","body":"> <@a:b> q\n\nyes","m.relates_to":{"m.in_reply_to":{"event_id":"$first"}}}"#;
    let message = shown_of(&message_json("$a", content)).unwrap();
    assert_eq!(shown_text(&message), "yes");
    assert_eq!(message.reply_to_event_id_raw.as_deref(), Some("$first"));
}

#[test]
fn quote_without_reply_is_kept() {
    let message = shown_of(&text_json("$a", r"> q\n\nyes")).unwrap();
    assert_eq!(shown_text(&message), "> q\n\nyes");
    assert_eq!(message.reply_to_event_id_raw, None);
}

#[test]
fn emote_in_reply_keeps_its_quote() {
    let content = r#"{"msgtype":"m.emote","body":"> q\n\nyes","m.relates_to":{"m.in_reply_to":{"event_id":"$first"}}}"#;
    let message = shown_of(&message_json("$a", content)).unwrap();
    assert_eq!(shown_text(&message), "* > q\n\nyes");
}

#[test]
fn image_is_shown_by_its_file_name() {
    match shown_of(&attachment_json("m.image")).unwrap().content {
        MessageContent::Image { body, source, protocol, loading } => {
            assert_eq!(body, "cat.bin");
            assert!(is_abc(&source));
            assert_eq!(protocol, None);
            assert!(!loading);
        }
        other => panic!("{other:?}"),
    }
}

#[test]
fn files_videos_and_audio_are_shown_as_files() {
    for (msgtype, kind) in [
        ("m.file", FileKind::File),
        ("m.video", FileKind::Video),
        ("m.audio", FileKind::Audio),
    ] {
        match shown_of(&attachment_json(msgtype)).unwrap().content {
            MessageContent::File { body, source, media_type } => {
                assert_eq!(body, "cat.bin");
                assert!(is_abc(&source));
                assert_eq!(media_type, kind);
            }
            other => panic!("{other:?}"),
        }
    }
}

#[test]
fn file_without_file_name_is_shown_by_its_body() {
    let content = r#"{"msgtype":"m.file","body":"report.pdf","url":"mxc://example.com/abc"}"#;
    match shown_of(&message_json("$a", content)).unwrap().content {
        MessageContent::File { body, .. } => assert_eq!(body, "report.pdf"),
        other => panic!("{other:?}"),
    }
}

#[test]
fn other_events_are_not_shown() {
    let state = r#"{"type":"m.room.name","state_key":"","event_id":"$s","sender":"@bob:example.com","origin_server_ts":1,"content":{"name":"x"}}"#;
    assert!(shown_of(state).is_none());
    let reaction = r#"{"type":"m.reaction","event_id":"$r","sender":"@bob:example.com","origin_server_ts":1,"content":{"m.relates_to":{"rel_type":"m.annotation","event_id":"$a","key":"x"}}}"#;
    assert!(shown_of(reaction).is_none());
    let redacted = r#"{"type":"m.room.message","event_id":"$d","sender":"@bob:example.com","origin_server_ts":1,"content":{},"unsigned":{"redacted_because":{"type":"m.room.redaction","event_id":"$e","sender":"@bob:example.com","origin_server_ts":2,"redacts":"$d","content":{"redacts":"$d"}}}}"#;
    assert!(shown_of(redacted).is_none());
}

#[test]
fn unreadable_events_are_told_apart() {
    assert!(read_timeline_event("no json").is_none());
    assert!(read_timeline_event("{}").is_none());
    assert!(read_timeline_event(&message_json("$a", "{}")).is_none());
}

#[test]
fn message_is_put_together_by_its_type() {
    let header = || MessageHeader {
        sender: "@bob:example.com".to_string(),
        event_id: "$a".to_string(),
        timestamp: 5,
        relation: Some(MessageRelation::Reply { event_id: "$b".to_string() }),
    };
    let source = || MediaSource::Plain(OwnedMxcUri::from("mxc://example.com/abc"));
    let with_attachment = |msgtype: &str| MessagePayload {
        msgtype: msgtype.to_string(),
        body: "b".to_string(),
        attachment: Some(("f".to_string(), source())),
    };
    assert!(matches!(
        assemble_message(header(), with_attachment("m.text")).kind,
        MessageKind::Text { body } if body == "b"
    ));
    assert!(matches!(
        assemble_message(header(), with_attachment("m.image")).kind,
        MessageKind::Image { filename, .. } if filename == "f"
    ));
    assert!(matches!(
        assemble_message(header(), with_attachment("m.sticker")).kind,
        MessageKind::Unsupported
    ));
    let bare = MessagePayload { attachment: None, ..with_attachment("m.image") };
    assert!(matches!(assemble_message(header(), bare).kind, MessageKind::Unsupported));
    let message = assemble_message(header(), with_attachment("m.notice"));
    assert_eq!(message.sender, "@bob:example.com");
    assert_eq!(message.event_id, "$a");
    assert_eq!(message.timestamp, 5);
    assert_eq!(message.reply_to_event_id.as_deref(), Some("$b"));

    let message = EventHeader::Message(header());
    let event = assemble_event(message.clone(), Some(with_attachment("m.text")));
    assert!(matches!(event, TimelineEvent::Message(_)));
    assert!(matches!(assemble_event(message, None), TimelineEvent::Other));
    for header in [EventHeader::RedactedMessage, EventHeader::Other] {
        let event = assemble_event(header, Some(with_attachment("m.text")));
        assert!(matches!(event, TimelineEvent::Other));
    }
}

#[test]
fn history_is_oldest_first() {
    let chunk = vec![text_json("$3", "three"), text_json("$2", "two"), text_json("$1", "one")];
    let (messages, end) =
        Account::<()>::fetch_history_paged(&chunk, 10, Some("token".to_string()));
    let bodies: Vec<&str> = messages.iter().map(shown_text).collect();
    assert_eq!(bodies, ["one", "two", "three"]);
    assert_eq!(end.as_deref(), Some("token"));
}

#[test]
fn history_keeps_the_newest() {
    let chunk = vec![text_json("$3", "three"), text_json("$2", "two"), text_json("$1", "one")];
    let (messages, end) = Account::<()>::fetch_history_paged(&chunk, 2, None);
    let bodies: Vec<&str> = messages.iter().map(shown_text).collect();
    assert_eq!(bodies, ["two", "three"]);
    assert_eq!(end, None);
    assert!(Account::<()>::fetch_history_paged(&chunk, 0, None).0.is_empty());
    assert_eq!(Account::<()>::fetch_history_paged(&chunk, 3, None).0.len(), 3);
}

#[test]
fn history_marks_what_it_cannot_read() {
    let state = r#"{"type":"m.room.name","state_key":"","event_id":"$s","sender":"@bob:example.com","origin_server_ts":1,"content":{"name":"x"}}"#;
    let chunk = vec!["{}".to_string(), state.to_string(), text_json("$1", "one")];
    let (messages, _) = Account::<()>::fetch_history_paged(&chunk, 10, None);
    assert_eq!(messages.len(), 2);
    assert_eq!(shown_text(&messages[0]), "one");
    let unreadable = &messages[1];
    assert_eq!(shown_text(unreadable), "[encrypted message \u{2014} unable to decrypt]");
    assert_eq!(unreadable.sender, "");
    assert_eq!(unreadable.timestamp, 0);
    assert_eq!(unreadable.event_id, None);
    assert_eq!(unreadable.reply_to_event_id_raw, None);
}

#[test]
fn pages_follow_each_other() {
    let event = |id: &str| read_timeline_event(&text_json(id, id));
    let newer = vec![event("$4"), event("$3")];
    let older = vec![event("$2"), Some(TimelineEvent::Other), event("$1")];
    let mut all = newer.clone();
    all.extend(older.clone());
    let ids = |list: Vec<DisplayMessage>| -> Vec<Option<String>> {
        list.into_iter().map(|m| m.event_id).collect()
    };
    let mut pages = ids(history_messages(&older, 3));
    pages.extend(ids(history_messages(&newer, 3)));
    assert_eq!(pages, ids(history_messages(&all, 5)));
    assert_eq!(pages.len(), 4);
}

#[test]
fn history_starts_at_a_token() {
    let start = Account::<()>::history_start(true, Some("t"), Some("p".to_string()), 50);
    assert!(matches!(
        start,
        Ok(HistoryStart::Request { direction: Direction::Backward, from, limit: 50 }) if from == "t"
    ));
    let start = Account::<()>::history_start(true, None, Some("p".to_string()), 7);
    assert!(matches!(
        start,
        Ok(HistoryStart::Request { direction: Direction::Backward, from, limit: 7 }) if from == "p"
    ));
    let start = Account::<()>::history_start(true, None, None, 50);
    assert!(matches!(start, Ok(HistoryStart::Empty)));
    let (messages, token) = page_without_token();
    assert!(messages.is_empty());
    assert_eq!(token, None);
    let start = Account::<()>::history_start(false, Some("t"), None, 50);
    assert!(matches!(start, Err(AccountError::RoomNotFound)));
}

#[test]
fn live_and_history_agree() {
    let json = text_json("$a", "hello");
    let shown = shown_of(&json).unwrap();
    let events: Vec<MatrixEvent<()>> = raw_message_notifications("!room:x", &json);
    match &events[0] {
        MatrixEvent::Message { room_id, sender, body, timestamp, event_id, reply_to_event_id } => {
            assert_eq!(room_id, "!room:x");
            assert_eq!(*sender, shown.sender);
            assert_eq!(body, shown_text(&shown));
            assert_eq!(*timestamp, shown.timestamp);
            assert_eq!(Some(event_id.clone()), shown.event_id);
            assert_eq!(*reply_to_event_id, shown.reply_to_event_id_raw);
        }
        other => panic!("{other:?}"),
    }
    assert!(matches!(events[1], MatrixEvent::RoomsUpdated));
    assert_eq!(events.len(), 2);
}

#[test]
fn live_attachments_are_told_by_file_name() {
    let events: Vec<MatrixEvent<()>> =
        raw_message_notifications("!room:x", &attachment_json("m.image"));
    assert!(matches!(
        &events[0],
        MatrixEvent::ImageMessage { body, source, event_id, .. }
            if body == "cat.bin" && is_abc(source) && event_id == "$a"
    ));
    assert!(matches!(events[1], MatrixEvent::RoomsUpdated));
    for (msgtype, kind) in [
        ("m.file", FileKind::File),
        ("m.video", FileKind::Video),
        ("m.audio", FileKind::Audio),
    ] {
        let events: Vec<MatrixEvent<()>> =
            raw_message_notifications("!room:x", &attachment_json(msgtype));
        assert!(matches!(
            &events[0],
            MatrixEvent::FileMessage { body, media_type, timestamp: 1234567890, .. }
                if body == "cat.bin" && *media_type == kind
        ));
        assert!(matches!(events[1], MatrixEvent::RoomsUpdated));
    }
}

#[test]
fn live_reply_is_told_without_its_fallback() {
    let content = r#"{"msgtype":"m.text","body":"> <@a:b> q\n\nyes","m.relates_to":{"m.in_reply_to":{"event_id":"$first"}}}"#;
    let events: Vec<MatrixEvent<()>> =
        raw_message_notifications("!room:x", &message_json("$a", content));
    assert!(matches!(
        &events[0],
        MatrixEvent::Message { body, reply_to_event_id: Some(id), .. }
            if body == "yes" && id == "$first"
    ));
}

#[test]
fn nothing_is_told_of_what_is_no_message() {
    assert!(raw_message_notifications::<()>("!room:x", "{}").is_empty());
}
