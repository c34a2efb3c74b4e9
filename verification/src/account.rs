//! A logged-in account: its session, its background sync and the requests it makes of rooms.

use vstd::prelude::*;

use crate::error::{AccountError, AccountErrorView};
use crate::identifiers::{
    homeserver_url, login_id, normalize_homeserver, normalize_user_id, parse_user_id,
    safe_id, server_name, session_db_path, session_dirs, user_id_error,
};
use crate::text::texts;

verus! {

/// A single logged-in Matrix account. `H` is the handle of a background task.
pub struct Account<H> {
    pub user_id: String,
    pub homeserver: String,
    pub display_name: String,
    pub syncing: bool,
    pub sync_complete: bool,
    /// The handle of the task that runs the sync, while there is one.
    pub sync_handle: Option<H>,
}

/// An account as it is kept between runs.
#[derive(Clone, Debug)]
pub struct SavedAccount {
    pub homeserver: String,
    pub user_id: String,
    pub access_token: String,
    pub device_id: String,
}

/// Where an account's client connects to and keeps its data.
#[derive(Clone, Debug)]
pub struct SessionTarget {
    pub url: String,
    /// The directories below the data directory, the outermost first.
    pub db_path: Vec<String>,
    /// The passphrase that the data is encrypted with, if it is.
    pub passphrase: Option<String>,
}

/// What the homeserver is told for a login.
#[derive(Clone, Debug)]
pub struct LoginRequest {
    pub username: String,
    pub password: String,
    /// The name that the new session is shown under at first.
    pub device_display_name: String,
}

/// What the homeserver answers to a login.
#[derive(Clone, Debug)]
pub struct LoginResponse {
    pub user_id: String,
    pub access_token: String,
    pub device_id: String,
}

/// The session that a client takes up again.
#[derive(Clone, Debug)]
pub struct RestoredSession {
    pub user_id: String,
    pub device_id: String,
    pub access_token: String,
    pub refresh_token: Option<String>,
}

impl SessionTarget {
    /// Whether this is the target of the session of `user_id` with `homeserver`, whose data is kept
    /// without a passphrase.
    pub open spec fn is_for(self, user_id: Seq<char>, homeserver: Seq<char>) -> bool {
        &&& self.url@ == homeserver_url(homeserver)
        &&& texts(self.db_path@) == session_dirs(user_id)
        &&& self.passphrase is None
    }
}

impl<H> Account<H> {
    /// Whether the account holds a task only while it syncs.
    pub open spec fn task_only_while_syncing(self) -> bool {
        self.sync_handle is Some ==> self.syncing
    }

    /// Whether the account syncs if and only if it holds a task.
    pub open spec fn task_while_syncing(self) -> bool {
        self.syncing == (self.sync_handle is Some)
    }

    /// Whether this is an account that has not started to sync, with the given texts.
    pub open spec fn is_fresh(
        self,
        user_id: Seq<char>,
        homeserver: Seq<char>,
        display_name: Seq<char>,
    ) -> bool {
        &&& self.user_id@ == user_id
        &&& self.homeserver@ == homeserver
        &&& self.display_name@ == display_name
        &&& !self.syncing
        &&& !self.sync_complete
        &&& self.sync_handle is None
    }

    /// This account once it is marked as syncing.
    pub open spec fn marked(self) -> Self {
        Account { syncing: true, ..self }
    }

    /// This account with `handle` for the handle of its task.
    pub open spec fn with_task(self, handle: Option<H>) -> Self {
        Account { sync_handle: handle, ..self }
    }

    /// This account once its sync has ended.
    pub open spec fn stopped(self) -> Self {
        Account { syncing: false, sync_handle: None, ..self }
    }

    /// Where the client for a login connects to and keeps its data.
    pub fn login_target(homeserver: &str, username: &str) -> (r: SessionTarget)
        ensures
            r.is_for(login_id(username@, homeserver@), homeserver@),
    {
        let url = normalize_homeserver(homeserver);
        let user_id = normalize_user_id(username, homeserver);
        let db_path = session_db_path(user_id.as_str(), homeserver);
        SessionTarget { url, db_path, passphrase: None }
    }

    /// What to tell the homeserver for a login: the user name as it was given.
    pub fn login_request(username: &str, password: &str) -> (r: LoginRequest)
        ensures
            r.username@ == username@,
            r.password@ == password@,
            r.device_display_name@ == "MatrixTUI"@,
    {
        LoginRequest {
            username: username.to_owned(),
            password: password.to_owned(),
            device_display_name: "MatrixTUI".to_owned(),
        }
    }

    /// The account of a login that succeeded, and what to keep of it.
    pub fn login(homeserver: &str, username: &str, response: LoginResponse) -> (r: (
        Self,
        SavedAccount,
    ))
        ensures
            r.0.is_fresh(response.user_id@, homeserver@, username@),
            r.0.task_while_syncing(),
            r.1.homeserver@ == homeserver@,
            r.1.user_id@ == response.user_id@,
            r.1.access_token@ == response.access_token@,
            r.1.device_id@ == response.device_id@,
    {
        let saved = SavedAccount {
            homeserver: homeserver.to_owned(),
            user_id: response.user_id.clone(),
            access_token: response.access_token,
            device_id: response.device_id,
        };
        let account = Account {
            display_name: username.to_owned(),
            user_id: response.user_id,
            homeserver: homeserver.to_owned(),
            syncing: false,
            sync_complete: false,
            sync_handle: None,
        };
        (account, saved)
    }

    /// Where the client of a saved account connects to and keeps its data.
    pub fn restore_target(saved: &SavedAccount) -> (r: SessionTarget)
        ensures
            r.is_for(saved.user_id@, saved.homeserver@),
    {
        let url = normalize_homeserver(saved.homeserver.as_str());
        let db_path = session_db_path(saved.user_id.as_str(), saved.homeserver.as_str());
        SessionTarget { url, db_path, passphrase: None }
    }

    /// The account that was saved, and the session that its client takes up again. It fails if
    /// what was saved is no user identifier.
    pub fn restore(saved: &SavedAccount) -> (r: Result<(Self, RestoredSession), AccountError>)
        ensures
            match r {
                Ok((account, session)) => {
                    &&& user_id_error(saved.user_id@) is None
                    &&& account.is_fresh(saved.user_id@, saved.homeserver@, saved.user_id@)
                    &&& account.task_while_syncing()
                    &&& session.user_id@ == saved.user_id@
                    &&& session.device_id@ == saved.device_id@
                    &&& session.access_token@ == saved.access_token@
                    &&& session.refresh_token is None
                },
                Err(e) => user_id_error(saved.user_id@) matches Some(error) && e@ == (
                AccountErrorView::InvalidId { error }),
            },
    {
        let user_id = match parse_user_id(saved.user_id.as_str()) {
            Ok(id) => id,
            Err(e) => {
                return Err(e);
            },
        };
        let session = RestoredSession {
            user_id,
            device_id: saved.device_id.clone(),
            access_token: saved.access_token.clone(),
            refresh_token: None,
        };
        let account = Account {
            display_name: saved.user_id.clone(),
            user_id: saved.user_id.clone(),
            homeserver: saved.homeserver.clone(),
            syncing: false,
            sync_complete: false,
            sync_handle: None,
        };
        Ok((account, session))
    }

    /// Marks the account as syncing and says whether a task has to be started for it, which is so
    /// unless it syncs already.
    pub fn start_sync(&mut self) -> (r: bool)
        ensures
            r == !old(self).syncing,
            *final(self) == old(self).marked(),
    {
        if self.syncing {
            return false;
        }
        self.syncing = true;
        true
    }

    /// Takes the handle of the task that was started for the sync.
    pub fn attach_sync(&mut self, handle: H)
        ensures
            *final(self) == old(self).with_task(Some(handle)),
    {
        self.sync_handle = Some(handle);
    }

    /// Gives the handle of the background task out, if there is one, for it to be aborted. This is
    /// what remains to be done of an account that is dropped.
    pub fn take_sync_handle(&mut self) -> (r: Option<H>)
        ensures
            r == old(self).sync_handle,
            *final(self) == old(self).with_task(None),
    {
        self.sync_handle.take()
    }

    /// Ends the sync and gives out the handle of its task, if there is one, for it to be aborted.
    pub fn stop_sync(&mut self) -> (r: Option<H>)
        ensures
            r == old(self).sync_handle,
            *final(self) == old(self).stopped(),
    {
        let handle = self.take_sync_handle();
        self.syncing = false;
        handle
    }
}

/// An account holds a task only while it syncs: starting the sync, taking the handle of the task
/// that was started, giving it out and stopping the sync all keep it so. Once the task of a sync is
/// there, and once the sync has ended, it holds a task if and only if it syncs.
pub proof fn law_task_only_while_syncing<H>(account: Account<H>, handle: H)
    requires
        account.task_only_while_syncing(),
    ensures
        account.marked().task_only_while_syncing(),
        account.marked().with_task(Some(handle)).task_only_while_syncing(),
        account.with_task(None).task_only_while_syncing(),
        account.stopped().task_only_while_syncing(),
        account.marked().with_task(Some(handle)).task_while_syncing(),
        account.stopped().task_while_syncing(),
        account.task_while_syncing() && account.syncing ==> account.marked().task_while_syncing(),
{
}

/// A sync is started once: an account that was started is marked as syncing, so that starting it
/// again changes nothing. Where a task is to be started, no other is held, so that none gets lost.
pub proof fn law_sync_starts_once<H>(account: Account<H>)
    requires
        account.task_only_while_syncing(),
    ensures
        account.marked().syncing,
        account.syncing ==> account.marked() == account,
        !account.syncing ==> account.marked().sync_handle is None,
{
}

/// Stopping undoes starting, and an account that was stopped can be started anew.
pub proof fn law_stopping_undoes_starting<H>(account: Account<H>, handle: H)
    requires
        account.task_only_while_syncing(),
        !account.syncing,
    ensures
        account.marked().with_task(Some(handle)).stopped() == account,
        !account.stopped().syncing,
{
}

/// The session of a login is found again when the account is restored, in whatever form the
/// homeserver was given: where the homeserver gives the login the user identifier that the user
/// name and its own name make up, or the one that the user gave, both connect to the same
/// homeserver and keep their data in the same place. With another user identifier that is so if and
/// only if it has the same directory.
pub proof fn law_restore_finds_the_login_session(
    homeserver: Seq<char>,
    username: Seq<char>,
    saved: SavedAccount,
    login_target: SessionTarget,
    restore_target: SessionTarget,
)
    requires
        saved.homeserver@ == homeserver,
        login_target.is_for(login_id(username, homeserver), homeserver),
        restore_target.is_for(saved.user_id@, saved.homeserver@),
    ensures
        login_target.url@ == restore_target.url@,
        !"@"@.is_prefix_of(username) && saved.user_id@ == "@"@ + username + ":"@ + server_name(
            homeserver,
        ) ==> texts(login_target.db_path@) == texts(restore_target.db_path@),
        "@"@.is_prefix_of(username) && saved.user_id@ == username ==> texts(login_target.db_path@)
            == texts(restore_target.db_path@),
        texts(login_target.db_path@) == texts(restore_target.db_path@) <==> safe_id(saved.user_id@)
            == safe_id(login_id(username, homeserver)),
{
    let dirs = session_dirs(login_id(username, homeserver));
    assert(dirs[1] == safe_id(login_id(username, homeserver)));
    assert(session_dirs(saved.user_id@)[1] == safe_id(saved.user_id@));
}

/// A login connects to the homeserver's URL and keeps its data where sessions of the user that it
/// is for are stored, without a passphrase.
pub proof fn law_login_target_is_that_of_its_user<H>(
    homeserver: &str,
    username: &str,
    r: SessionTarget,
    url: String,
    id: String,
    user_id: &str,
    path: Vec<String>,
)
    requires
        call_ensures(Account::<H>::login_target, (homeserver, username), r),
        call_ensures(normalize_homeserver, (homeserver,), url),
        call_ensures(normalize_user_id, (username, homeserver), id),
        user_id@ == id@,
        call_ensures(session_db_path, (user_id, homeserver), path),
    ensures
        r.url@ == url@,
        texts(r.db_path@) == texts(path@),
        r.passphrase is None,
{
}

/// What the homeserver is told for a login is what the user gave, and the name of this client.
pub proof fn law_login_request_is_what_was_given<H>(
    username: &str,
    password: &str,
    r: LoginRequest,
)
    requires
        call_ensures(Account::<H>::login_request, (username, password), r),
    ensures
        r.username@ == username@,
        r.password@ == password@,
        r.device_display_name@ == "MatrixTUI"@,
{
}

/// An account that was logged in is the same when it is restored from what was kept of it, but for
/// the name that it is shown under: that is the user name given at first and the user identifier
/// later. The session taken up again is the one of the login. Neither account syncs yet.
pub proof fn law_restored_account_is_the_one_logged_in<H>(
    homeserver: &str,
    username: &str,
    response: LoginResponse,
    login: (Account<H>, SavedAccount),
    restored: Result<(Account<H>, RestoredSession), AccountError>,
)
    requires
        call_ensures(Account::<H>::login, (homeserver, username, response), login),
        call_ensures(Account::<H>::restore, (&login.1,), restored),
    ensures
        login.0.user_id@ == response.user_id@,
        login.0.homeserver@ == homeserver@,
        login.0.display_name@ == username@,
        !login.0.syncing && !login.0.sync_complete && login.0.sync_handle is None,
        login.1.user_id@ == response.user_id@,
        login.1.homeserver@ == homeserver@,
        login.1.access_token@ == response.access_token@,
        login.1.device_id@ == response.device_id@,
        restored is Ok <==> user_id_error(response.user_id@) is None,
        restored matches Err(e) ==> (e matches AccountError::InvalidId { error } && user_id_error(
            response.user_id@,
        ) == Some(error)),
        restored matches Ok((account, session)) ==> {
            &&& account.user_id@ == login.0.user_id@
            &&& account.homeserver@ == login.0.homeserver@
            &&& account.display_name@ == response.user_id@
            &&& !account.syncing && !account.sync_complete && account.sync_handle is None
            &&& session.user_id@ == response.user_id@
            &&& session.device_id@ == response.device_id@
            &&& session.access_token@ == response.access_token@
            &&& session.refresh_token is None
        },
{
}

/// A saved account is restored as it was saved, if what was saved for its user is a user
/// identifier.
pub proof fn law_saved_account_is_restored<H>(
    saved: &SavedAccount,
    r: Result<(Account<H>, RestoredSession), AccountError>,
)
    requires
        call_ensures(Account::<H>::restore, (saved,), r),
    ensures
        r is Ok <==> user_id_error(saved.user_id@) is None,
        r matches Ok((account, session)) ==> {
            &&& account.user_id@ == saved.user_id@ && session.user_id@ == saved.user_id@
            &&& account.display_name@ == saved.user_id@
            &&& account.homeserver@ == saved.homeserver@
            &&& session.device_id@ == saved.device_id@
            &&& session.access_token@ == saved.access_token@
        },
{
}

/// The client of a saved account connects to the URL of the homeserver that was saved and keeps its
/// data where sessions of the user that was saved are stored, without a passphrase.
pub proof fn law_restore_target_is_that_of_the_saved_user<H>(
    saved: &SavedAccount,
    r: SessionTarget,
    homeserver: &str,
    url: String,
    user_id: &str,
    path: Vec<String>,
)
    requires
        call_ensures(Account::<H>::restore_target, (saved,), r),
        homeserver@ == saved.homeserver@,
        call_ensures(normalize_homeserver, (homeserver,), url),
        user_id@ == saved.user_id@,
        call_ensures(session_db_path, (user_id, homeserver), path),
    ensures
        r.url@ == url@,
        texts(r.db_path@) == texts(path@),
        r.passphrase is None,
{
}

/// Starting and stopping the sync change nothing of an account but whether it syncs and which task
/// it holds. Starting asks for a task exactly where the account did not sync; stopping and dropping
/// give out the task that was held, and none is held after that.
pub proof fn law_sync_touches_nothing_else<H>(account: Account<H>, handle: H)
    ensures
        account.marked() == (Account {
            user_id: account.user_id,
            homeserver: account.homeserver,
            display_name: account.display_name,
            syncing: true,
            sync_complete: account.sync_complete,
            sync_handle: account.sync_handle,
        }),
        account.with_task(Some(handle)) == (Account {
            user_id: account.user_id,
            homeserver: account.homeserver,
            display_name: account.display_name,
            syncing: account.syncing,
            sync_complete: account.sync_complete,
            sync_handle: Some(handle),
        }),
        account.with_task(None).sync_handle is None,
        account.with_task(None).syncing == account.syncing,
        account.with_task(None).sync_complete == account.sync_complete,
        account.stopped() == (Account::<H> {
            user_id: account.user_id,
            homeserver: account.homeserver,
            display_name: account.display_name,
            syncing: false,
            sync_complete: account.sync_complete,
            sync_handle: None,
        }),
{
}

/// A call that starts the sync asks for a task exactly where the account does not sync, and leaves
/// it syncing with the task that it held.
pub proof fn law_start_asks_for_a_task_once<H>(account: &mut Account<H>, r: bool)
    requires
        call_ensures(Account::<H>::start_sync, (account,), r),
    ensures
        r <==> !old(account).syncing,
        final(account).syncing,
        final(account).sync_handle == old(account).sync_handle,
        final(account).sync_complete == old(account).sync_complete,
        final(account).user_id == old(account).user_id,
{
}

/// A call that stops the sync gives out the task that was held, and leaves the account without a
/// task and not syncing. One that only takes the task leaves it syncing as before.
pub proof fn law_stop_gives_the_task_out<H>(account: &mut Account<H>, r: Option<H>)
    ensures
        call_ensures(Account::<H>::stop_sync, (account,), r) ==> {
            &&& r == old(account).sync_handle
            &&& final(account).sync_handle is None
            &&& !final(account).syncing
            &&& final(account).sync_complete == old(account).sync_complete
        },
        call_ensures(Account::<H>::take_sync_handle, (account,), r) ==> {
            &&& r == old(account).sync_handle
            &&& final(account).sync_handle is None
            &&& final(account).syncing == old(account).syncing
        },
{
}

/// A task that is attached is the one that the account holds then.
pub proof fn law_attached_task_is_held<H>(account: &mut Account<H>, handle: H)
    requires
        call_ensures(Account::<H>::attach_sync, (account, handle), ()),
    ensures
        final(account).sync_handle == Some(handle),
        final(account).syncing == old(account).syncing,
        final(account).sync_complete == old(account).sync_complete,
{
}

} // verus!
