use matrix_account::account::{Account, SavedAccount};
use matrix_account::error::AccountError;
use matrix_account::requests::{ReceiptKind, ReceiptScope, RoomRequest};
use matrix_sdk::ruma::events::room::message::{Relation, RoomMessageEventContent};

fn requesting_account() -> Account<()> {
    let saved = SavedAccount {
        homeserver: "matrix.org".to_string(),
        user_id: "@alice:matrix.org".to_string(),
        access_token: "secret".to_string(),
        device_id: "DEVICE".to_string(),
    };
    Account::restore(&saved).unwrap().0
}

fn sent_content(result: Result<RoomRequest, AccountError>) -> RoomMessageEventContent {
    match result {
        Ok(RoomRequest::Send { content }) => content,
        other => panic!("{other:?}"),
    }
}

#[test]
fn text_message_is_sent() {
    let content = sent_content(requesting_account().send_message(true, "hello"));
    assert_eq!(content.body(), "hello");
    assert_eq!(content.msgtype(), "m.text");
    assert!(content.relates_to.is_none());
}

#[test]
fn unknown_room_is_named_with_the_account() {
    let error = requesting_account().send_message(false, "hello").unwrap_err();
    assert_eq!(error.message(), "Room not found for @alice:matrix.org");
}

#[test]
fn unknown_room_is_refused() {
    let account = requesting_account();
    for result in [
        account.set_room_name(false, "n"),
        account.set_room_topic(false, "t"),
        account.invite_user(false, "nobody"),
        account.leave_room(false),
        account.edit_message(false, "bad", "x"),
        account.redact_message(false, "bad"),
        account.send_reply(false, "x", "bad", "bad"),
        account.send_reaction(false, "bad", "x"),
        account.send_read_receipt(false, "bad"),
    ] {
        assert!(matches!(result, Err(AccountError::RoomNotFound)));
    }
    assert!(matches!(account.forget_room(false), Err(AccountError::RoomNotFound)));
}

#[test]
fn bad_identifiers_are_refused() {
    let account = requesting_account();
    for result in [
        account.invite_user(true, "nobody"),
        account.edit_message(true, "bad", "x"),
        account.redact_message(true, "bad"),
        account.send_reply(true, "x", "bad", "@bob:example.com"),
        account.send_reply(true, "x", "$abc", "bob"),
        account.send_reaction(true, "bad", "x"),
        account.send_read_receipt(true, "bad"),
    ] {
        assert!(matches!(result, Err(AccountError::InvalidId { .. })));
    }
}

#[test]
fn reply_checks_the_event_before_the_sender() {
    let account = requesting_account();
    let error = account.send_reply(true, "x", "bad", "@bob").unwrap_err();
    assert_eq!(error.message(), "leading sigil is incorrect or missing");
    let error = account.send_reply(true, "x", "$abc", "@bob").unwrap_err();
    assert_eq!(error.message(), "required colon is missing");
}

#[test]
fn room_settings_are_handed_on() {
    let account = requesting_account();
    assert!(matches!(
        account.set_room_name(true, "Name"),
        Ok(RoomRequest::SetName { name }) if name == "Name"
    ));
    assert!(matches!(
        account.set_room_topic(true, "Topic"),
        Ok(RoomRequest::SetTopic { topic }) if topic == "Topic"
    ));
    assert!(matches!(
        account.invite_user(true, "@bob:example.com"),
        Ok(RoomRequest::Invite { user_id }) if user_id == "@bob:example.com"
    ));
}

#[test]
fn forgetting_leaves_first() {
    let account = requesting_account();
    assert!(matches!(account.leave_room(true), Ok(RoomRequest::Leave)));
    assert!(matches!(account.forget_room(true), Ok(RoomRequest::Leave)));
    assert!(matches!(Account::<()>::after_leaving(Ok(())), Ok(RoomRequest::Forget)));
    assert!(Account::<()>::after_forgetting(Ok(())).is_ok());
}

#[test]
fn room_that_was_not_left_is_not_forgotten() {
    assert!(matches!(
        Account::<()>::after_leaving(Err("not left".to_string())),
        Err(AccountError::Failed { reason }) if reason == "not left"
    ));
    assert!(matches!(
        Account::<()>::after_forgetting(Err("not forgotten".to_string())),
        Err(AccountError::Failed { reason }) if reason == "not forgotten"
    ));
}

#[test]
fn edit_replaces_the_message() {
    let content = sent_content(requesting_account().edit_message(true, "$abc", "new"));
    match &content.relates_to {
        Some(Relation::Replacement(replacement)) => {
            assert_eq!(replacement.event_id.as_str(), "$abc");
            assert_eq!(replacement.new_content.msgtype.body(), "new");
        }
        other => panic!("{other:?}"),
    }
    assert_eq!(content.body(), "* new");
}

#[test]
fn reply_names_the_event_and_mentions_its_sender() {
    let account = requesting_account();
    let content = sent_content(account.send_reply(true, "yes", "$abc", "@bob:example.com"));
    assert_eq!(content.body(), "yes");
    match &content.relates_to {
        Some(Relation::Reply { in_reply_to }) => assert_eq!(in_reply_to.event_id.as_str(), "$abc"),
        other => panic!("{other:?}"),
    }
    let mentions = content.mentions.unwrap();
    let users: Vec<&str> = mentions.user_ids.iter().map(|id| id.as_str()).collect();
    assert_eq!(users, ["@bob:example.com"]);
}

#[test]
fn events_are_redacted_reacted_to_and_marked_as_read() {
    let account = requesting_account();
    assert!(matches!(
        account.redact_message(true, "$abc"),
        Ok(RoomRequest::Redact { event_id, reason: None }) if event_id == "$abc"
    ));
    assert!(matches!(
        account.send_reaction(true, "$abc", "+1"),
        Ok(RoomRequest::React { content })
            if content.relates_to.event_id.as_str() == "$abc" && content.relates_to.key == "+1"
    ));
    assert!(matches!(
        account.send_read_receipt(true, "$abc:matrix.org"),
        Ok(RoomRequest::SendReceipt {
            event_id,
            kind: ReceiptKind::Read,
            scope: ReceiptScope::Unthreaded,
        }) if event_id == "$abc:matrix.org"
    ));
}
