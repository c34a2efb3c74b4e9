//! The requests that an account makes of the homeserver for one room.

use matrix_sdk::ruma::events::reaction::ReactionEventContent;
use matrix_sdk::ruma::events::relation::Annotation;
use matrix_sdk::ruma::events::room::message::AddMentions;
use matrix_sdk::ruma::events::room::message::ForwardThread;
use matrix_sdk::ruma::events::room::message::ReplacementMetadata;
use matrix_sdk::ruma::events::room::message::ReplyMetadata;
use matrix_sdk::ruma::events::room::message::RoomMessageEventContent;
use matrix_sdk::ruma::events::room::message::RoomMessageEventContentWithoutRelation;
use matrix_sdk::ruma::OwnedEventId;
use matrix_sdk::ruma::OwnedUserId;
use vstd::prelude::*;

use crate::account::Account;
use crate::error::{AccountError, AccountErrorView};
use crate::event::opt_text;
use crate::identifiers::{event_id_error, parse_event_id, parse_user_id, user_id_error};

verus! {

/// The content of a message to send, which ruma builds and the library hands on.
#[verifier::external_type_specification]
#[verifier::external_body]
pub struct ExRoomMessageEventContent(RoomMessageEventContent);

/// The content that ruma builds of a plain text message.
pub uninterp spec fn text_content(body: Seq<char>) -> RoomMessageEventContent;

/// `RoomMessageEventContent::text_plain` builds the content of a plain text message. It depends on
/// the text alone; the content's make-up is left to ruma.
#[verifier::external_body]
fn build_text(body: &str) -> (r: RoomMessageEventContent)
    ensures
        r == text_content(body@),
{
    RoomMessageEventContent::text_plain(body)
}

/// The content that ruma builds of a plain text message in the place of another one.
pub uninterp spec fn replacement_content(
    body: Seq<char>,
    event_id: Seq<char>,
) -> RoomMessageEventContent;

/// `RoomMessageEventContent::make_replacement` turns a plain text message into the replacement of
/// the event named, without regard to whom that one mentions. It depends on the two texts alone;
/// the content's make-up is left to ruma.
#[verifier::external_body]
fn build_replacement(body: &str, event_id: &str) -> (r: RoomMessageEventContent)
    requires
        event_id_error(event_id@) is None,
    ensures
        r == replacement_content(body@, event_id@),
{
    let event_id: OwnedEventId = event_id.parse().unwrap();
    RoomMessageEventContent::text_plain(body)
        .make_replacement(ReplacementMetadata::new(event_id, None))
}

/// The content that ruma builds of a plain text reply to the event and sender named.
pub uninterp spec fn reply_content(
    body: Seq<char>,
    event_id: Seq<char>,
    sender: Seq<char>,
    forward_thread: bool,
    add_mentions: bool,
) -> RoomMessageEventContent;

/// `RoomMessageEventContentWithoutRelation::make_reply_to` turns a plain text message into a reply
/// to an event of no known thread. It depends on the texts and the two choices alone; the
/// content's make-up is left to ruma.
#[verifier::external_body]
fn build_reply(
    body: &str,
    event_id: &str,
    sender: &str,
    forward_thread: bool,
    add_mentions: bool,
) -> (r: RoomMessageEventContent)
    requires
        event_id_error(event_id@) is None,
        user_id_error(sender@) is None,
    ensures
        r == reply_content(body@, event_id@, sender@, forward_thread, add_mentions),
{
    let event_id: OwnedEventId = event_id.parse().unwrap();
    let sender: OwnedUserId = sender.parse().unwrap();
    let forward = if forward_thread { ForwardThread::Yes } else { ForwardThread::No };
    let mentions = if add_mentions { AddMentions::Yes } else { AddMentions::No };
    RoomMessageEventContentWithoutRelation::text_plain(body)
        .make_reply_to(ReplyMetadata::new(&event_id, &sender, None), forward, mentions)
}

/// The content of a reaction to send, which ruma builds and the library hands on.
#[verifier::external_type_specification]
#[verifier::external_body]
pub struct ExReactionEventContent(ReactionEventContent);

/// The content that ruma builds of a reaction to the event named.
pub uninterp spec fn reaction_content(event_id: Seq<char>, key: Seq<char>) -> ReactionEventContent;

/// `ReactionEventContent::new` builds the content of a reaction from the annotation of the event
/// named with the key. It depends on the two texts alone; the content's make-up is left to ruma.
#[verifier::external_body]
fn build_reaction(event_id: &str, key: &str) -> (r: ReactionEventContent)
    requires
        event_id_error(event_id@) is None,
    ensures
        r == reaction_content(event_id@, key@),
{
    let event_id: OwnedEventId = event_id.parse().unwrap();
    ReactionEventContent::new(Annotation::new(event_id, key.to_owned()))
}

/// What a receipt says of an event.
#[derive(Clone, Copy, Debug, PartialEq, Eq, Structural)]
pub enum ReceiptKind {
    /// That it was shown to the user, for all to see.
    Read,
    /// That it was shown to the user, for nobody else to see.
    ReadPrivate,
    /// That the user has read up to it.
    FullyRead,
}

/// The part of the timeline that a receipt is about.
#[derive(Clone, Copy, Debug, PartialEq, Eq, Structural)]
pub enum ReceiptScope {
    /// All of it, whatever the threads.
    Unthreaded,
    /// What belongs to no thread.
    Main,
}

/// A request for a room that the client knows.
#[derive(Debug)]
pub enum RoomRequest {
    Send { content: RoomMessageEventContent },
    SetName { name: String },
    SetTopic { topic: String },
    Invite { user_id: String },
    Leave,
    Forget,
    Redact { event_id: String, reason: Option<String> },
    React { content: ReactionEventContent },
    SendReceipt { event_id: String, kind: ReceiptKind, scope: ReceiptScope },
}

/// What a [`RoomRequest`] holds.
pub enum RoomRequestView {
    Send { content: RoomMessageEventContent },
    SetName { name: Seq<char> },
    SetTopic { topic: Seq<char> },
    Invite { user_id: Seq<char> },
    Leave,
    Forget,
    Redact { event_id: Seq<char>, reason: Option<Seq<char>> },
    React { content: ReactionEventContent },
    SendReceipt { event_id: Seq<char>, kind: ReceiptKind, scope: ReceiptScope },
}

impl View for RoomRequest {
    type V = RoomRequestView;

    open spec fn view(&self) -> RoomRequestView {
        match *self {
            RoomRequest::Send { content } => RoomRequestView::Send { content },
            RoomRequest::SetName { name } => RoomRequestView::SetName { name: name@ },
            RoomRequest::SetTopic { topic } => RoomRequestView::SetTopic { topic: topic@ },
            RoomRequest::Invite { user_id } => RoomRequestView::Invite { user_id: user_id@ },
            RoomRequest::Leave => RoomRequestView::Leave,
            RoomRequest::Forget => RoomRequestView::Forget,
            RoomRequest::Redact { event_id, reason } => RoomRequestView::Redact {
                event_id: event_id@,
                reason: opt_text(reason),
            },
            RoomRequest::React { content } => RoomRequestView::React { content },
            RoomRequest::SendReceipt { event_id, kind, scope } => RoomRequestView::SendReceipt {
                event_id: event_id@,
                kind,
                scope,
            },
        }
    }
}

/// What the outcome of making a request holds.
pub open spec fn outcome(r: Result<RoomRequest, AccountError>) -> Result<
    RoomRequestView,
    AccountErrorView,
> {
    match r {
        Ok(request) => Ok(request@),
        Err(e) => Err(e@),
    }
}

/// `request` for a room that the client knows, and an error for one that it does not know.
pub open spec fn for_room(room_found: bool, request: RoomRequestView) -> Result<
    RoomRequestView,
    AccountErrorView,
> {
    if room_found {
        Ok(request)
    } else {
        Err(AccountErrorView::RoomNotFound)
    }
}

/// `request` for a room that the client knows and an event identifier that ruma takes, and else an
/// error, first of all for the room.
pub open spec fn for_event(room_found: bool, event_id: Seq<char>, request: RoomRequestView) -> Result<
    RoomRequestView,
    AccountErrorView,
> {
    if !room_found {
        Err(AccountErrorView::RoomNotFound)
    } else {
        match event_id_error(event_id) {
            Some(error) => Err(AccountErrorView::InvalidId { error }),
            None => Ok(request),
        }
    }
}

/// A request is made only for a room that the client knows, whatever else is wrong with it, and a
/// request that names an event only for an identifier that ruma takes.
pub proof fn law_unknown_room_is_refused(
    room_found: bool,
    event_id: Seq<char>,
    request: RoomRequestView,
)
    ensures
        for_room(room_found, request) is Ok <==> room_found,
        for_event(room_found, event_id, request) is Ok <==> room_found && event_id_error(
            event_id,
        ) is None,
        !room_found ==> for_event(room_found, event_id, request) == for_room(room_found, request),
{
}

/// What a report of the client holds.
pub open spec fn reported(result: Result<(), String>) -> Result<(), Seq<char>> {
    match result {
        Ok(_) => Ok(()),
        Err(e) => Err(e@),
    }
}

/// The request to forget a room, if leaving it succeeded, and else the error of that.
pub open spec fn forget_if_left(left: Result<(), Seq<char>>) -> Result<
    RoomRequestView,
    AccountErrorView,
> {
    match left {
        Ok(_) => Ok(RoomRequestView::Forget),
        Err(reason) => Err(AccountErrorView::Failed { reason }),
    }
}

/// The requests that are made to forget a room, in order, and the result: `left` and `forgotten`
/// are what the client reports of the first and of the second, if they are made.
pub open spec fn forget_run(
    room_found: bool,
    left: Result<(), Seq<char>>,
    forgotten: Result<(), Seq<char>>,
) -> (Seq<RoomRequestView>, Result<(), AccountErrorView>) {
    match for_room(room_found, RoomRequestView::Leave) {
        Err(error) => (seq![], Err(error)),
        Ok(first) => match forget_if_left(left) {
            Err(error) => (seq![first], Err(error)),
            Ok(second) => match forgotten {
                Ok(_) => (seq![first, second], Ok(())),
                Err(reason) => (seq![first, second], Err(AccountErrorView::Failed { reason })),
            },
        },
    }
}

/// A room is left before it is forgotten, and forgotten only if it was left. The result is a
/// success if and only if both succeeded, and else the error of the one that failed. Of a room that
/// is not known nothing is requested.
pub proof fn law_only_left_rooms_are_forgotten(
    room_found: bool,
    left: Result<(), Seq<char>>,
    forgotten: Result<(), Seq<char>>,
)
    ensures
        ({
            let (requests, result) = forget_run(room_found, left, forgotten);
            &&& result is Ok <==> room_found && left is Ok && forgotten is Ok
            &&& !room_found ==> requests.len() == 0 && result == Err::<(), AccountErrorView>(
                AccountErrorView::RoomNotFound,
            )
            &&& room_found ==> requests.len() > 0 && requests[0] == RoomRequestView::Leave
            &&& requests.contains(RoomRequestView::Forget) <==> room_found && left is Ok
            &&& room_found ==> (left matches Err(reason) ==> result == Err::<(), AccountErrorView>(
                AccountErrorView::Failed { reason },
            ))
            &&& room_found && left is Ok ==> (forgotten matches Err(reason) ==> result == Err::<
                (),
                AccountErrorView,
            >(AccountErrorView::Failed { reason }))
        }),
{
    let (requests, result) = forget_run(room_found, left, forgotten);
    if room_found && left is Ok {
        assert(requests[1] == RoomRequestView::Forget);
    }
}

/// The error for a room that the client does not know.
fn require_room(room_found: bool) -> (r: Result<(), AccountError>)
    ensures
        match r {
            Ok(_) => room_found,
            Err(e) => !room_found && e@ == AccountErrorView::RoomNotFound,
        },
{
    if room_found {
        Ok(())
    } else {
        Err(AccountError::RoomNotFound)
    }
}

/// An event identifier for a room, or an error, first of all for the room.
fn require_event(room_found: bool, event_id: &str) -> (r: Result<String, AccountError>)
    ensures
        match r {
            Ok(id) => room_found && event_id_error(event_id@) is None && id@ == event_id@,
            Err(e) => if room_found {
                event_id_error(event_id@) matches Some(error) && e@ == (
                AccountErrorView::InvalidId { error })
            } else {
                e@ == AccountErrorView::RoomNotFound
            },
        },
{
    match require_room(room_found) {
        Ok(_) => parse_event_id(event_id),
        Err(e) => Err(e),
    }
}

impl<H> Account<H> {
    /// Sends a text message. The error for an unknown room names the account.
    pub fn send_message(&self, room_found: bool, body: &str) -> (r: Result<
        RoomRequest,
        AccountError,
    >)
        ensures
            outcome(r) == if room_found {
                Ok(RoomRequestView::Send { content: text_content(body@) })
            } else {
                Err(AccountErrorView::RoomNotFoundFor { user_id: self.user_id@ })
            },
    {
        if room_found {
            Ok(RoomRequest::Send { content: build_text(body) })
        } else {
            Err(AccountError::RoomNotFoundFor { user_id: self.user_id.clone() })
        }
    }

    /// Sets the room's name.
    pub fn set_room_name(&self, room_found: bool, name: &str) -> (r: Result<
        RoomRequest,
        AccountError,
    >)
        ensures
            outcome(r) == for_room(room_found, RoomRequestView::SetName { name: name@ }),
    {
        match require_room(room_found) {
            Ok(_) => Ok(RoomRequest::SetName { name: name.to_owned() }),
            Err(e) => Err(e),
        }
    }

    /// Sets the room's topic.
    pub fn set_room_topic(&self, room_found: bool, topic: &str) -> (r: Result<
        RoomRequest,
        AccountError,
    >)
        ensures
            outcome(r) == for_room(room_found, RoomRequestView::SetTopic { topic: topic@ }),
    {
        match require_room(room_found) {
            Ok(_) => Ok(RoomRequest::SetTopic { topic: topic.to_owned() }),
            Err(e) => Err(e),
        }
    }

    /// Invites a user to the room.
    pub fn invite_user(&self, room_found: bool, user_id: &str) -> (r: Result<
        RoomRequest,
        AccountError,
    >)
        ensures
            outcome(r) == if !room_found {
                Err(AccountErrorView::RoomNotFound)
            } else {
                match user_id_error(user_id@) {
                    Some(error) => Err(AccountErrorView::InvalidId { error }),
                    None => Ok(RoomRequestView::Invite { user_id: user_id@ }),
                }
            },
    {
        match require_room(room_found) {
            Ok(_) => match parse_user_id(user_id) {
                Ok(user_id) => Ok(RoomRequest::Invite { user_id }),
                Err(e) => Err(e),
            },
            Err(e) => Err(e),
        }
    }

    /// Leaves the room.
    pub fn leave_room(&self, room_found: bool) -> (r: Result<RoomRequest, AccountError>)
        ensures
            outcome(r) == for_room(room_found, RoomRequestView::Leave),
    {
        match require_room(room_found) {
            Ok(_) => Ok(RoomRequest::Leave),
            Err(e) => Err(e),
        }
    }

    /// Leaves the room in order to forget it, which removes it from the room list for good. What
    /// came of it goes to [`Account::after_leaving`].
    pub fn forget_room(&self, room_found: bool) -> (r: Result<RoomRequest, AccountError>)
        ensures
            outcome(r) == for_room(room_found, RoomRequestView::Leave),
    {
        match require_room(room_found) {
            Ok(_) => Ok(RoomRequest::Leave),
            Err(e) => Err(e),
        }
    }

    /// Forgets a room that was to be left, if it was; else the error with which that failed is the
    /// result. What came of forgetting goes to [`Account::after_forgetting`].
    pub fn after_leaving(left: Result<(), String>) -> (r: Result<RoomRequest, AccountError>)
        ensures
            match left {
                Ok(_) => (r matches Ok(q) && q@ == RoomRequestView::Forget),
                Err(e) => (r matches Err(x) && x@ == (AccountErrorView::Failed { reason: e@ })),
            },
            outcome(r) == forget_if_left(reported(left)),
    {
        match left {
            Ok(_) => Ok(RoomRequest::Forget),
            Err(reason) => Err(AccountError::Failed { reason }),
        }
    }

    /// The result of forgetting a room that was left.
    pub fn after_forgetting(forgotten: Result<(), String>) -> (r: Result<(), AccountError>)
        ensures
            match r {
                Ok(_) => forgotten is Ok,
                Err(x) => (forgotten matches Err(e) && x@ == (AccountErrorView::Failed {
                    reason: e@,
                })),
            },
    {
        match forgotten {
            Ok(_) => Ok(()),
            Err(reason) => Err(AccountError::Failed { reason }),
        }
    }

    /// Edits a message by sending its replacement.
    pub fn edit_message(&self, room_found: bool, event_id: &str, new_body: &str) -> (r: Result<
        RoomRequest,
        AccountError,
    >)
        ensures
            outcome(r) == for_event(
                room_found,
                event_id@,
                RoomRequestView::Send { content: replacement_content(new_body@, event_id@) },
            ),
    {
        match require_event(room_found, event_id) {
            Ok(event_id) => Ok(
                RoomRequest::Send { content: build_replacement(new_body, event_id.as_str()) },
            ),
            Err(e) => Err(e),
        }
    }

    /// Deletes a message, without giving a reason.
    pub fn redact_message(&self, room_found: bool, event_id: &str) -> (r: Result<
        RoomRequest,
        AccountError,
    >)
        ensures
            outcome(r) == for_event(
                room_found,
                event_id@,
                RoomRequestView::Redact { event_id: event_id@, reason: None },
            ),
    {
        match require_event(room_found, event_id) {
            Ok(event_id) => Ok(RoomRequest::Redact { event_id, reason: None }),
            Err(e) => Err(e),
        }
    }

    /// Replies to a message and mentions its sender. The identifier of the message is checked
    /// before that of the sender.
    pub fn send_reply(
        &self,
        room_found: bool,
        body: &str,
        reply_to_event_id: &str,
        reply_to_sender: &str,
    ) -> (r: Result<RoomRequest, AccountError>)
        ensures
            outcome(r) == match (
                for_event(
                    room_found,
                    reply_to_event_id@,
                    RoomRequestView::Send {
                        content: reply_content(
                            body@,
                            reply_to_event_id@,
                            reply_to_sender@,
                            true,
                            true,
                        ),
                    },
                ),
                user_id_error(reply_to_sender@),
            ) {
                (Ok(_), Some(error)) => Err(AccountErrorView::InvalidId { error }),
                (other, _) => other,
            },
    {
        match require_event(room_found, reply_to_event_id) {
            Ok(event_id) => match parse_user_id(reply_to_sender) {
                Ok(sender) => {
                    let content = build_reply(
                        body,
                        event_id.as_str(),
                        sender.as_str(),
                        true,
                        true,
                    );
                    Ok(RoomRequest::Send { content })
                },
                Err(e) => Err(e),
            },
            Err(e) => Err(e),
        }
    }

    /// Reacts to a message.
    pub fn send_reaction(&self, room_found: bool, event_id: &str, emoji: &str) -> (r: Result<
        RoomRequest,
        AccountError,
    >)
        ensures
            outcome(r) == for_event(
                room_found,
                event_id@,
                RoomRequestView::React { content: reaction_content(event_id@, emoji@) },
            ),
    {
        match require_event(room_found, event_id) {
            Ok(event_id) => Ok(
                RoomRequest::React { content: build_reaction(event_id.as_str(), emoji) },
            ),
            Err(e) => Err(e),
        }
    }

    /// Sends a public read receipt for a message, whatever its thread.
    pub fn send_read_receipt(&self, room_found: bool, event_id: &str) -> (r: Result<
        RoomRequest,
        AccountError,
    >)
        ensures
            outcome(r) == for_event(
                room_found,
                event_id@,
                RoomRequestView::SendReceipt {
                    event_id: event_id@,
                    kind: ReceiptKind::Read,
                    scope: ReceiptScope::Unthreaded,
                },
            ),
    {
        match require_event(room_found, event_id) {
            Ok(event_id) => Ok(
                RoomRequest::SendReceipt {
                    event_id,
                    kind: ReceiptKind::Read,
                    scope: ReceiptScope::Unthreaded,
                },
            ),
            Err(e) => Err(e),
        }
    }
}

/// A text message is sent with the text given, as ruma's plain text. Of a room that the client does
/// not know the account is told.
pub proof fn law_message_is_sent_as_given<H>(
    account: &Account<H>,
    room_found: bool,
    body: &str,
    r: Result<RoomRequest, AccountError>,
)
    requires
        call_ensures(Account::<H>::send_message, (account, room_found, body), r),
    ensures
        room_found ==> (r matches Ok(RoomRequest::Send { content }) && content == text_content(
            body@,
        )),
        !room_found ==> (r matches Err(AccountError::RoomNotFoundFor { user_id }) && user_id@
            == account.user_id@),
{
}

/// A room's name and topic are set to the texts given, and it is left, if the client knows the
/// room.
pub proof fn law_room_is_set_as_given<H>(
    account: &Account<H>,
    room_found: bool,
    text: &str,
    name: Result<RoomRequest, AccountError>,
    topic: Result<RoomRequest, AccountError>,
    leave: Result<RoomRequest, AccountError>,
    forget: Result<RoomRequest, AccountError>,
)
    requires
        call_ensures(Account::<H>::set_room_name, (account, room_found, text), name),
        call_ensures(Account::<H>::set_room_topic, (account, room_found, text), topic),
        call_ensures(Account::<H>::leave_room, (account, room_found), leave),
        call_ensures(Account::<H>::forget_room, (account, room_found), forget),
    ensures
        room_found ==> (name matches Ok(RoomRequest::SetName { name: n }) && n@ == text@),
        room_found ==> (topic matches Ok(RoomRequest::SetTopic { topic: t }) && t@ == text@),
        room_found ==> leave matches Ok(RoomRequest::Leave),
        room_found ==> forget matches Ok(RoomRequest::Leave),
        !room_found ==> name matches Err(AccountError::RoomNotFound),
        !room_found ==> topic matches Err(AccountError::RoomNotFound),
        !room_found ==> leave matches Err(AccountError::RoomNotFound),
        !room_found ==> forget matches Err(AccountError::RoomNotFound),
{
}

/// The user named is invited, if the client knows the room and ruma takes the user identifier.
pub proof fn law_user_named_is_invited<H>(
    account: &Account<H>,
    room_found: bool,
    user_id: &str,
    r: Result<RoomRequest, AccountError>,
)
    requires
        call_ensures(Account::<H>::invite_user, (account, room_found, user_id), r),
    ensures
        r is Ok <==> room_found && user_id_error(user_id@) is None,
        r matches Ok(request) ==> (request matches RoomRequest::Invite { user_id: id } && id@
            == user_id@),
        !room_found ==> r matches Err(AccountError::RoomNotFound),
        room_found && r is Err ==> (r matches Err(AccountError::InvalidId { error })
            && user_id_error(user_id@) == Some(error)),
{
}

/// A request about an event is about the event named: the replacement has the text given, the
/// reaction the key given, the redaction no reason, and the receipt is a public one, whatever the
/// thread. Each is made if and only if the client knows the room and ruma takes the event
/// identifier, and is else refused for the room first.
pub proof fn law_event_named_is_meant<H>(
    account: &Account<H>,
    room_found: bool,
    event_id: &str,
    text: &str,
    edit: Result<RoomRequest, AccountError>,
    redaction: Result<RoomRequest, AccountError>,
    reaction: Result<RoomRequest, AccountError>,
    receipt: Result<RoomRequest, AccountError>,
)
    requires
        call_ensures(Account::<H>::edit_message, (account, room_found, event_id, text), edit),
        call_ensures(Account::<H>::redact_message, (account, room_found, event_id), redaction),
        call_ensures(Account::<H>::send_reaction, (account, room_found, event_id, text), reaction),
        call_ensures(Account::<H>::send_read_receipt, (account, room_found, event_id), receipt),
    ensures
        room_found && event_id_error(event_id@) is None ==> {
            &&& edit matches Ok(RoomRequest::Send { content })
            &&& content == replacement_content(text@, event_id@)
        },
        room_found && event_id_error(event_id@) is None ==> {
            &&& redaction matches Ok(RoomRequest::Redact { event_id: id, reason })
            &&& id@ == event_id@
            &&& reason is None
        },
        room_found && event_id_error(event_id@) is None ==> {
            &&& reaction matches Ok(RoomRequest::React { content })
            &&& content == reaction_content(event_id@, text@)
        },
        room_found && event_id_error(event_id@) is None ==> {
            &&& receipt matches Ok(RoomRequest::SendReceipt { event_id: id, kind, scope })
            &&& id@ == event_id@
            &&& kind == ReceiptKind::Read
            &&& scope == ReceiptScope::Unthreaded
        },
        !room_found ==> {
            &&& edit matches Err(AccountError::RoomNotFound)
            &&& redaction matches Err(AccountError::RoomNotFound)
            &&& reaction matches Err(AccountError::RoomNotFound)
            &&& receipt matches Err(AccountError::RoomNotFound)
        },
        room_found ==> (event_id_error(event_id@) matches Some(error) ==> {
            &&& edit matches Err(AccountError::InvalidId { error: e })
            &&& e == error
        }),
        room_found ==> (event_id_error(event_id@) matches Some(error) ==> {
            &&& redaction matches Err(AccountError::InvalidId { error: e })
            &&& e == error
        }),
        room_found ==> (event_id_error(event_id@) matches Some(error) ==> {
            &&& reaction matches Err(AccountError::InvalidId { error: e })
            &&& e == error
        }),
        room_found ==> (event_id_error(event_id@) matches Some(error) ==> {
            &&& receipt matches Err(AccountError::InvalidId { error: e })
            &&& e == error
        }),
{
}

/// A reply has the text given, answers the event named and mentions its sender. It is made if and
/// only if the client knows the room and ruma takes both identifiers, and is else refused for the
/// room first, then for the event.
pub proof fn law_reply_answers_the_event_named<H>(
    account: &Account<H>,
    room_found: bool,
    body: &str,
    event_id: &str,
    sender: &str,
    r: Result<RoomRequest, AccountError>,
)
    requires
        call_ensures(Account::<H>::send_reply, (account, room_found, body, event_id, sender), r),
    ensures
        r is Ok <==> room_found && event_id_error(event_id@) is None && user_id_error(sender@)
            is None,
        r matches Ok(request) ==> {
            &&& request matches RoomRequest::Send { content }
            &&& content == reply_content(body@, event_id@, sender@, true, true)
        },
        !room_found ==> r matches Err(AccountError::RoomNotFound),
        room_found ==> (event_id_error(event_id@) matches Some(error) ==> {
            &&& r matches Err(AccountError::InvalidId { error: e })
            &&& e == error
        }),
        room_found && event_id_error(event_id@) is None ==> (user_id_error(sender@) matches Some(
            error,
        ) ==> {
            &&& r matches Err(AccountError::InvalidId { error: e })
            &&& e == error
        }),
{
}

/// A room is forgotten after it was left, and what went wrong with either is what is reported.
pub proof fn law_forgetting_reports_what_failed<H>(
    done: Result<(), String>,
    next: Result<RoomRequest, AccountError>,
    end: Result<(), AccountError>,
)
    requires
        call_ensures(Account::<H>::after_leaving, (done,), next),
        call_ensures(Account::<H>::after_forgetting, (done,), end),
    ensures
        done is Ok ==> next matches Ok(RoomRequest::Forget),
        done matches Err(e) ==> (next matches Err(AccountError::Failed { reason }) && reason@ == e@),
        done is Ok <==> end is Ok,
        done matches Err(e) ==> (end matches Err(AccountError::Failed { reason }) && reason@ == e@),
{
}

} // verus!
