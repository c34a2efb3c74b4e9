use matrix_account::account::{Account, SavedAccount};
use matrix_account::error::AccountError;
use matrix_account::identifiers::{
    normalize_homeserver, normalize_user_id, parse_event_id, parse_user_id, session_db_path,
};
use matrix_account::rooms::{RoomPreset, Visibility};

#[test]
fn homeserver_gets_a_scheme() {
    assert_eq!(normalize_homeserver("matrix.org"), "https://matrix.org");
    assert_eq!(normalize_homeserver("http://localhost:8008"), "http://localhost:8008");
    assert_eq!(normalize_homeserver("https://matrix.org"), "https://matrix.org");
    assert_eq!(normalize_homeserver(""), "https://");
    assert_eq!(normalize_homeserver("http:/x"), "https://http:/x");
    assert_eq!(normalize_homeserver("ftp://x"), "https://ftp://x");
}

#[test]
fn normalizing_twice_is_normalizing_once() {
    for hs in ["matrix.org", "http://a", "https://b", ""] {
        let once = normalize_homeserver(hs);
        assert_eq!(normalize_homeserver(&once), once);
    }
}

#[test]
fn user_name_becomes_an_identifier() {
    assert_eq!(normalize_user_id("alice", "matrix.org"), "@alice:matrix.org");
    assert_eq!(normalize_user_id("@bob:example.com", "matrix.org"), "@bob:example.com");
    assert_eq!(normalize_user_id("alice", "https://matrix.org"), "@alice:matrix.org");
    assert_eq!(normalize_user_id("alice", "https://matrix.org/"), "@alice:matrix.org");
    assert_eq!(normalize_user_id("alice", "http://localhost:8008/a/b"), "@alice:localhost:8008");
    assert_eq!(normalize_user_id("alice", "matrix.org/path"), "@alice:matrix.org");
    assert_eq!(normalize_user_id("@bob:example.com", "https://matrix.org"), "@bob:example.com");
    assert_eq!(normalize_user_id("alice", "https://"), "@alice:");
    let id = normalize_user_id("alice", "matrix.org");
    assert_eq!(normalize_user_id(&id, "elsewhere.org"), id);
}

#[test]
fn session_directory_is_safe() {
    assert_eq!(session_db_path("@alice:matrix.org", "matrix.org"), ["sessions", "_alice_matrix_org"]);
    assert_eq!(session_db_path("", "x"), ["sessions", ""]);
    assert_eq!(session_db_path("@a-b:c.d:80", "x"), ["sessions", "_a-b_c_d_80"]);
    let name = session_db_path("@alice:matrix.org", "x").remove(1);
    assert_eq!(session_db_path(&name, "x")[1], name);
}

#[test]
fn user_identifiers_are_checked() {
    assert_eq!(parse_user_id("@alice:matrix.org").unwrap(), "@alice:matrix.org");
    assert!(matches!(parse_user_id("alice"), Err(AccountError::InvalidId { .. })));
    assert!(matches!(parse_user_id("@alice"), Err(AccountError::InvalidId { .. })));
    assert!(matches!(parse_user_id(""), Err(AccountError::InvalidId { .. })));
}

#[test]
fn event_identifiers_are_checked() {
    assert_eq!(parse_event_id("$abc").unwrap(), "$abc");
    assert_eq!(parse_event_id("$abc:matrix.org").unwrap(), "$abc:matrix.org");
    assert_eq!(parse_event_id("$").unwrap(), "$");
    assert!(matches!(parse_event_id("abc"), Err(AccountError::InvalidId { .. })));
    assert!(matches!(parse_event_id("abc:matrix.org"), Err(AccountError::InvalidId { .. })));
    assert!(matches!(parse_event_id(""), Err(AccountError::InvalidId { .. })));
}

#[test]
fn refused_identifier_has_a_message() {
    let message = parse_user_id("alice").unwrap_err().message();
    assert_eq!(message, "leading sigil is incorrect or missing");
}

#[test]
fn new_room_takes_its_choices() {
    let room =
        Account::<()>::create_room(Some("Name"), Some("Topic"), true, true, Vec::new()).unwrap();
    assert_eq!(room.name.as_deref(), Some("Name"));
    assert_eq!(room.topic.as_deref(), Some("Topic"));
    assert_eq!(room.visibility, Visibility::Public);
    assert_eq!(room.preset, RoomPreset::PublicChat);
    assert!(room.invite.is_empty());

    let room = Account::<()>::create_room(None, None, false, true, Vec::new()).unwrap();
    assert_eq!(room.name, None);
    assert_eq!(room.topic, None);
    assert_eq!(room.visibility, Visibility::Private);
    assert_eq!(room.preset, RoomPreset::TrustedPrivateChat);

    let room = Account::<()>::create_room(None, None, false, false, Vec::new()).unwrap();
    assert_eq!(room.preset, RoomPreset::PrivateChat);
    let room = Account::<()>::create_room(None, None, true, false, Vec::new()).unwrap();
    assert_eq!(room.preset, RoomPreset::PublicChat);
}

#[test]
fn invites_are_trimmed_and_blank_ones_left_out() {
    let ids = vec![
        " @alice:matrix.org\t".to_string(),
        "".to_string(),
        " \u{3000}\n".to_string(),
        "@bob:example.com\u{a0}".to_string(),
        "\u{85}\u{2003}\u{202f}@carol:x\u{2029}\u{205f}\u{1680}\r".to_string(),
    ];
    let room = Account::<()>::create_room(None, None, false, false, ids).unwrap();
    assert_eq!(room.invite, ["@alice:matrix.org", "@bob:example.com", "@carol:x"]);
}

#[test]
fn one_bad_invite_spoils_the_room() {
    let ids = vec!["@alice:matrix.org".to_string(), "bob".to_string(), "@x".to_string()];
    let error = Account::<()>::create_room(None, None, false, false, ids).unwrap_err();
    assert!(matches!(error, AccountError::InvalidId { .. }));
    assert_eq!(error.message(), "leading sigil is incorrect or missing");
}

#[test]
fn restored_session_is_that_of_a_login_by_url() {
    for homeserver in ["https://matrix.org", "http://matrix.org/", "https://matrix.org/x/y"] {
        let login = Account::<()>::login_target(homeserver, "alice");
        let saved = SavedAccount {
            homeserver: homeserver.to_string(),
            user_id: "@alice:matrix.org".to_string(),
            access_token: "token".to_string(),
            device_id: "DEVICE".to_string(),
        };
        let restore = Account::<()>::restore_target(&saved);
        assert_eq!(login.url, homeserver);
        assert_eq!(login.url, restore.url);
        assert_eq!(login.db_path, ["sessions", "_alice_matrix_org"]);
        assert_eq!(login.db_path, restore.db_path);
    }
}

#[test]
fn restored_session_is_that_of_the_login() {
    let login = Account::<()>::login_target("matrix.org", "alice");
    let saved = SavedAccount {
        homeserver: "matrix.org".to_string(),
        user_id: "@alice:matrix.org".to_string(),
        access_token: "token".to_string(),
        device_id: "DEVICE".to_string(),
    };
    let restore = Account::<()>::restore_target(&saved);
    assert_eq!(login.url, "https://matrix.org");
    assert_eq!(login.passphrase, None);
    assert_eq!(restore.passphrase, None);
    assert_eq!(login.url, restore.url);
    assert_eq!(login.db_path, ["sessions", "_alice_matrix_org"]);
    assert_eq!(login.db_path, restore.db_path);
}
