//! End-to-end encryption of an account's session.

use matrix_sdk::encryption::CrossSigningStatus;
use vstd::prelude::*;

use crate::account::Account;

verus! {

/// When room keys are downloaded from the backup.
#[derive(Clone, Copy, Debug, PartialEq, Eq, Structural)]
pub enum BackupDownload {
    /// All of them, as soon as the backup's key is known.
    OneShot,
    /// One at a time, where an event cannot be decrypted.
    AfterDecryptionFailure,
    /// Only on demand.
    Manual,
}

/// The choices that a client's encryption is set up with. All others are left at their defaults.
#[derive(Clone, Copy, Debug, PartialEq, Eq, Structural)]
pub struct E2eeSettings {
    pub backup_download: BackupDownload,
    /// Whether a backup is made where there is none.
    pub auto_enable_backups: bool,
}

/// The choices for every client.
pub fn e2ee_settings() -> (r: E2eeSettings)
    ensures
        r.backup_download == BackupDownload::AfterDecryptionFailure,
        r.auto_enable_backups,
{
    E2eeSettings {
        backup_download: BackupDownload::AfterDecryptionFailure,
        auto_enable_backups: true,
    }
}

/// Which of the private keys for cross-signing a session has.
#[derive(Clone, Copy, Debug, PartialEq, Eq, Structural)]
pub struct SigningKeys {
    pub master: bool,
    pub self_signing: bool,
    pub user_signing: bool,
}

/// `CrossSigningStatus::is_complete` says whether the session has all three keys.
#[verifier::external_body]
fn is_complete(keys: SigningKeys) -> (r: bool)
    ensures
        r == (keys.master && keys.self_signing && keys.user_signing),
{
    let status = CrossSigningStatus {
        has_master: keys.master,
        has_self_signing: keys.self_signing,
        has_user_signing: keys.user_signing,
    };
    status.is_complete()
}

impl<H> Account<H> {
    /// Whether the session is verified, by what the client says of its keys. A client that does not
    /// say is not verified.
    pub fn is_session_verified(keys: Option<SigningKeys>) -> (r: bool)
        ensures
            r == match keys {
                Some(keys) => keys.master && keys.self_signing && keys.user_signing,
                None => false,
            },
    {
        match keys {
            Some(keys) => is_complete(keys),
            None => false,
        }
    }
}

/// A session is verified if and only if the client says of its keys that it has all three.
pub proof fn law_verified_means_all_keys<H>(keys: Option<SigningKeys>, r: bool)
    requires
        call_ensures(Account::<H>::is_session_verified, (keys,), r),
    ensures
        r <==> keys == Some(SigningKeys { master: true, self_signing: true, user_signing: true }),
{
}

/// Every client downloads room keys where an event cannot be decrypted, and makes a backup where
/// there is none.
pub proof fn law_keys_come_from_the_backup(r: E2eeSettings)
    requires
        call_ensures(e2ee_settings, (), r),
    ensures
        r == (E2eeSettings {
            backup_download: BackupDownload::AfterDecryptionFailure,
            auto_enable_backups: true,
        }),
{
}

} // verus!
