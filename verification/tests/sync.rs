use matrix_account::event::{MatrixEvent, MessageEvent, MessageKind};
use matrix_account::sync::{after_first_sync, sync_notifications, SyncEvent};

fn told(ev: SyncEvent) -> Vec<MatrixEvent<()>> {
    sync_notifications("@me:x", ev)
}

#[test]
fn message_is_told_and_the_room_list_changes() {
    let event = MessageEvent {
        sender: "@bob:example.com".to_string(),
        event_id: "$a".to_string(),
        timestamp: 9,
        reply_to_event_id: Some("$b".to_string()),
        kind: MessageKind::Text { body: "> q\n\nyes".to_string() },
    };
    let events = told(SyncEvent::Message { room_id: "!r:x".to_string(), event });
    assert_eq!(events.len(), 2);
    assert!(matches!(
        &events[0],
        MatrixEvent::Message { room_id, sender, body, timestamp: 9, event_id, reply_to_event_id }
            if room_id == "!r:x"
                && sender == "@bob:example.com"
                && body == "yes"
                && event_id == "$a"
                && reply_to_event_id.as_deref() == Some("$b")
    ));
    assert!(matches!(events[1], MatrixEvent::RoomsUpdated));
}

#[test]
fn typing_is_told() {
    let events = told(SyncEvent::Typing {
        room_id: "!r:x".to_string(),
        user_ids: vec!["@a:x".to_string(), "@b:x".to_string()],
    });
    assert_eq!(events.len(), 1);
    assert!(matches!(
        &events[0],
        MatrixEvent::Typing { room_id, user_ids }
            if room_id == "!r:x" && *user_ids == ["@a:x", "@b:x"]
    ));
}

#[test]
fn presence_is_told() {
    let events = told(SyncEvent::Presence {
        sender: "@a:x".to_string(),
        presence: "online".to_string(),
    });
    assert_eq!(events.len(), 1);
    assert!(matches!(
        &events[0],
        MatrixEvent::Presence { user_id, presence } if user_id == "@a:x" && presence == "online"
    ));
}

#[test]
fn reaction_is_told() {
    let events = told(SyncEvent::Reaction {
        room_id: "!r:x".to_string(),
        event_id: "$a".to_string(),
        key: "+1".to_string(),
    });
    assert_eq!(events.len(), 1);
    assert!(matches!(
        &events[0],
        MatrixEvent::Reaction { room_id, event_id, key }
            if room_id == "!r:x" && event_id == "$a" && key == "+1"
    ));
}

#[test]
fn verification_request_is_told_with_the_account() {
    let events = told(SyncEvent::VerificationRequest {
        sender: "@me:x".to_string(),
        transaction_id: "flow".to_string(),
    });
    assert_eq!(events.len(), 1);
    assert!(matches!(
        &events[0],
        MatrixEvent::VerificationIncoming { account_id, user_id, flow_id }
            if account_id == "@me:x" && user_id == "@me:x" && flow_id == "flow"
    ));
}

#[test]
fn sync_goes_on_only_after_success() {
    let (event, goes_on) = after_first_sync::<()>("@me:x", Ok(()));
    assert!(goes_on);
    assert!(matches!(event, MatrixEvent::SyncComplete { account_id } if account_id == "@me:x"));
    let (event, goes_on) = after_first_sync::<()>("@me:x", Err("down".to_string()));
    assert!(!goes_on);
    assert!(matches!(
        event,
        MatrixEvent::SyncError { account_id, error } if account_id == "@me:x" && error == "down"
    ));
}
