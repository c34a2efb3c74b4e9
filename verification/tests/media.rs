use matrix_account::account::{Account, SavedAccount};
use matrix_account::error::AccountError;
use matrix_account::media::{content_type_for, mime_from_extension};

fn sending_account() -> Account<()> {
    let saved = SavedAccount {
        homeserver: "matrix.org".to_string(),
        user_id: "@alice:matrix.org".to_string(),
        access_token: "secret".to_string(),
        device_id: "DEVICE".to_string(),
    };
    Account::restore(&saved).unwrap().0
}

#[test]
fn extensions_have_media_types() {
    for (ext, expected) in [
        ("png", "image/png"),
        ("jpg", "image/jpeg"),
        ("jpeg", "image/jpeg"),
        ("gif", "image/gif"),
        ("webp", "image/webp"),
        ("svg", "image/svg+xml"),
        ("txt", "application/octet-stream"),
        ("", "application/octet-stream"),
        ("pn", "application/octet-stream"),
    ] {
        assert_eq!(content_type_for(ext), expected);
        assert_eq!(mime_from_extension(ext).as_ref(), expected);
    }
}

#[test]
fn case_of_extensions_makes_no_difference() {
    assert_eq!(mime_from_extension("PNG").as_ref(), "image/png");
    assert_eq!(mime_from_extension("JpEg").as_ref(), "image/jpeg");
    assert_eq!(content_type_for("PNG"), "application/octet-stream");
}

#[test]
fn media_type_is_parsed() {
    let svg = mime_from_extension("svg");
    assert_eq!(svg.type_().as_str(), "image");
    assert_eq!(svg.subtype().as_str(), "svg");
    assert_eq!(svg.suffix().unwrap().as_str(), "xml");
}

#[test]
fn avatar_is_uploaded_by_its_extension() {
    assert_eq!(Account::<()>::upload_avatar(Some("gif")).as_ref(), "image/gif");
    assert_eq!(Account::<()>::upload_avatar(None).as_ref(), "application/octet-stream");
}

#[test]
fn attachment_takes_name_and_type() {
    let account = sending_account();
    let file = account.send_attachment(true, Some("cat.PNG"), Some("PNG")).unwrap();
    assert_eq!(file.filename, "cat.PNG");
    assert_eq!(file.content_type.as_ref(), "image/png");
    let file = account.send_attachment(true, None, None).unwrap();
    assert_eq!(file.filename, "file");
    assert_eq!(file.content_type.as_ref(), "application/octet-stream");
}

#[test]
fn attachment_needs_a_room() {
    let result = sending_account().send_attachment(false, Some("a"), None);
    assert!(matches!(result, Err(AccountError::RoomNotFound)));
}
