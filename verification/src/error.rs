//! What can go wrong with an account's requests.

use matrix_sdk::ruma::IdParseError;
use vstd::prelude::*;

verus! {

/// Why ruma refuses a text as an identifier.
#[verifier::external_type_specification]
#[verifier::external_body]
pub struct ExIdParseError(IdParseError);

/// Why a request cannot be carried out.
#[derive(Debug)]
pub enum AccountError {
    /// The client knows no such room.
    RoomNotFound,
    /// The client of the named account knows no such room.
    RoomNotFoundFor { user_id: String },
    /// A text is no user or event identifier.
    InvalidId { error: IdParseError },
    NotLoggedIn,
    OwnIdentityNotFound,
    VerificationRequestNotFound,
    /// The verification request could not be turned into one by short authentication strings.
    SasNotStarted,
    RequestCancelled,
    StreamEnded,
    /// The homeserver or the store reported an error.
    Failed { reason: String },
}

/// What an [`AccountError`] holds.
pub enum AccountErrorView {
    RoomNotFound,
    RoomNotFoundFor { user_id: Seq<char> },
    InvalidId { error: IdParseError },
    NotLoggedIn,
    OwnIdentityNotFound,
    VerificationRequestNotFound,
    SasNotStarted,
    RequestCancelled,
    StreamEnded,
    Failed { reason: Seq<char> },
}

impl View for AccountError {
    type V = AccountErrorView;

    open spec fn view(&self) -> AccountErrorView {
        match *self {
            AccountError::RoomNotFound => AccountErrorView::RoomNotFound,
            AccountError::RoomNotFoundFor { user_id } => AccountErrorView::RoomNotFoundFor {
                user_id: user_id@,
            },
            AccountError::InvalidId { error } => AccountErrorView::InvalidId { error },
            AccountError::NotLoggedIn => AccountErrorView::NotLoggedIn,
            AccountError::OwnIdentityNotFound => AccountErrorView::OwnIdentityNotFound,
            AccountError::VerificationRequestNotFound =>
                AccountErrorView::VerificationRequestNotFound,
            AccountError::SasNotStarted => AccountErrorView::SasNotStarted,
            AccountError::RequestCancelled => AccountErrorView::RequestCancelled,
            AccountError::StreamEnded => AccountErrorView::StreamEnded,
            AccountError::Failed { reason } => AccountErrorView::Failed { reason: reason@ },
        }
    }
}

impl AccountError {
    /// Whether `text` is what is said to the user of this error. What is said of a refused
    /// identifier is the text that ruma displays.
    pub open spec fn says(self, text: String) -> bool {
        match self {
            AccountError::RoomNotFound => text@ == "Room not found"@,
            AccountError::RoomNotFoundFor { user_id } => text@ == "Room not found for "@ + user_id@,
            AccountError::InvalidId { error } => vstd::string::to_string_from_display_ensures(
                &error,
                text,
            ),
            AccountError::NotLoggedIn => text@ == "Not logged in"@,
            AccountError::OwnIdentityNotFound => text@ == "Own identity not found"@,
            AccountError::VerificationRequestNotFound => text@ == "Verification request not found"@,
            AccountError::SasNotStarted => text@ == "Failed to start SAS verification"@,
            AccountError::RequestCancelled => text@ == "Request cancelled before SAS could start"@,
            AccountError::StreamEnded => text@ == "Verification request stream ended unexpectedly"@,
            AccountError::Failed { reason } => text@ == reason@,
        }
    }

    /// What is said to the user of this error.
    pub fn message(&self) -> (r: String)
        ensures
            self.says(r),
    {
        match self {
            AccountError::RoomNotFound => "Room not found".to_owned(),
            AccountError::RoomNotFoundFor { user_id } => "Room not found for ".to_owned().concat(
                user_id.as_str(),
            ),
            AccountError::InvalidId { error } => error.to_string(),
            AccountError::NotLoggedIn => "Not logged in".to_owned(),
            AccountError::OwnIdentityNotFound => "Own identity not found".to_owned(),
            AccountError::VerificationRequestNotFound =>
                "Verification request not found".to_owned(),
            AccountError::SasNotStarted => "Failed to start SAS verification".to_owned(),
            AccountError::RequestCancelled => "Request cancelled before SAS could start".to_owned(),
            AccountError::StreamEnded =>
                "Verification request stream ended unexpectedly".to_owned(),
            AccountError::Failed { reason } => reason.clone(),
        }
    }
}

/// What is said of an error is fixed, but for the account and the reason that it names.
pub proof fn law_errors_say_what_went_wrong(error: &AccountError, r: String)
    requires
        call_ensures(AccountError::message, (error,), r),
    ensures
        error is RoomNotFound ==> r@ == "Room not found"@,
        error matches AccountError::RoomNotFoundFor { user_id } ==> r@ == "Room not found for "@
            + user_id@,
        error is NotLoggedIn ==> r@ == "Not logged in"@,
        error is OwnIdentityNotFound ==> r@ == "Own identity not found"@,
        error is VerificationRequestNotFound ==> r@ == "Verification request not found"@,
        error is SasNotStarted ==> r@ == "Failed to start SAS verification"@,
        error is RequestCancelled ==> r@ == "Request cancelled before SAS could start"@,
        error is StreamEnded ==> r@ == "Verification request stream ended unexpectedly"@,
        error matches AccountError::Failed { reason } ==> r@ == reason@,
        *error matches AccountError::InvalidId { error: e } ==>
            vstd::string::to_string_from_display_ensures(&e, r),
{
}

} // verus!
