use matrix_account::account::{Account, LoginResponse, SavedAccount};
use matrix_account::encryption::{e2ee_settings, BackupDownload, SigningKeys};
use matrix_account::error::AccountError;

fn saved_account(user_id: &str) -> SavedAccount {
    SavedAccount {
        homeserver: "matrix.org".to_string(),
        user_id: user_id.to_string(),
        access_token: "secret".to_string(),
        device_id: "DEVICE".to_string(),
    }
}

fn restored_account() -> Account<u32> {
    Account::restore(&saved_account("@alice:matrix.org")).unwrap().0
}

#[test]
fn login_makes_a_fresh_account() {
    let response = LoginResponse {
        user_id: "@alice:matrix.org".to_string(),
        access_token: "secret".to_string(),
        device_id: "DEVICE".to_string(),
    };
    let (account, saved): (Account<u32>, SavedAccount) =
        Account::login("matrix.org", "alice", response);
    assert_eq!(account.user_id, "@alice:matrix.org");
    assert_eq!(account.display_name, "alice");
    assert_eq!(account.homeserver, "matrix.org");
    assert!(!account.syncing);
    assert!(!account.sync_complete);
    assert_eq!(account.sync_handle, None);
    assert_eq!(saved.homeserver, "matrix.org");
    assert_eq!(saved.user_id, "@alice:matrix.org");
    assert_eq!(saved.access_token, "secret");
    assert_eq!(saved.device_id, "DEVICE");
}

#[test]
fn login_request_names_the_device() {
    let request = Account::<()>::login_request("alice", "pass word");
    assert_eq!(request.username, "alice");
    assert_eq!(request.password, "pass word");
    assert_eq!(request.device_display_name, "MatrixTUI");
}

#[test]
fn restore_takes_the_session_up() {
    let (account, session) =
        Account::<u32>::restore(&saved_account("@alice:matrix.org")).unwrap();
    assert_eq!(account.user_id, "@alice:matrix.org");
    assert_eq!(account.display_name, "@alice:matrix.org");
    assert_eq!(account.homeserver, "matrix.org");
    assert!(!account.syncing);
    assert!(!account.sync_complete);
    assert_eq!(session.user_id, "@alice:matrix.org");
    assert_eq!(session.device_id, "DEVICE");
    assert_eq!(session.access_token, "secret");
    assert_eq!(session.refresh_token, None);
}

#[test]
fn restore_refuses_what_is_no_user() {
    let result = Account::<u32>::restore(&saved_account("alice"));
    assert!(matches!(result, Err(AccountError::InvalidId { .. })));
}

#[test]
fn sync_starts_once() {
    let mut account = restored_account();
    assert!(account.start_sync());
    account.attach_sync(7);
    assert_eq!(account.syncing, account.sync_handle.is_some());
    assert!(!account.start_sync());
    assert_eq!(account.sync_handle, Some(7));
}

#[test]
fn stopping_gives_the_task_out_and_allows_a_new_start() {
    let mut account = restored_account();
    assert_eq!(account.stop_sync(), None);
    assert!(account.start_sync());
    account.attach_sync(7);
    assert_eq!(account.stop_sync(), Some(7));
    assert!(!account.syncing);
    assert_eq!(account.sync_handle, None);
    assert!(account.start_sync());
    account.attach_sync(8);
    assert_eq!(account.take_sync_handle(), Some(8));
    assert!(account.syncing);
    assert_eq!(account.take_sync_handle(), None);
}

#[test]
fn keys_are_downloaded_where_decryption_fails() {
    let settings = e2ee_settings();
    assert_eq!(settings.backup_download, BackupDownload::AfterDecryptionFailure);
    assert!(settings.auto_enable_backups);
}

#[test]
fn session_is_verified_with_all_keys() {
    let all = SigningKeys { master: true, self_signing: true, user_signing: true };
    assert!(Account::<()>::is_session_verified(Some(all)));
    for keys in [
        SigningKeys { master: false, ..all },
        SigningKeys { self_signing: false, ..all },
        SigningKeys { user_signing: false, ..all },
    ] {
        assert!(!Account::<()>::is_session_verified(Some(keys)));
    }
    assert!(!Account::<()>::is_session_verified(None));
}

#[test]
fn errors_have_messages() {
    assert_eq!(AccountError::RoomNotFound.message(), "Room not found");
    let error = AccountError::RoomNotFoundFor { user_id: "@a:b".to_string() };
    assert_eq!(error.message(), "Room not found for @a:b");
    assert_eq!(AccountError::NotLoggedIn.message(), "Not logged in");
    assert_eq!(AccountError::OwnIdentityNotFound.message(), "Own identity not found");
    assert_eq!(
        AccountError::VerificationRequestNotFound.message(),
        "Verification request not found"
    );
    assert_eq!(AccountError::SasNotStarted.message(), "Failed to start SAS verification");
    assert_eq!(
        AccountError::RequestCancelled.message(),
        "Request cancelled before SAS could start"
    );
    assert_eq!(
        AccountError::StreamEnded.message(),
        "Verification request stream ended unexpectedly"
    );
    let error = AccountError::Failed { reason: "no network".to_string() };
    assert_eq!(error.message(), "no network");
}
