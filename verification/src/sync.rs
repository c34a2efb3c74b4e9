//! What the sync brings and what it tells the user interface of it.

use vstd::prelude::*;

use crate::event::{
    event_views, opt_text, MatrixEvent, MatrixEventView, MessageContentView, MessageEvent, MessageEventView,
    MessageKind, MessageKindView, TimelineEvent, TimelineEventView,
};
use crate::text::texts;
use crate::timeline::{
    display_of, is_text_of, read_timeline_event, shown_body, text_body, timeline_event_of,
};

verus! {

/// An event that the sync brings.
#[derive(Clone, Debug)]
pub enum SyncEvent {
    Message { room_id: String, event: MessageEvent },
    Typing { room_id: String, user_ids: Vec<String> },
    Presence { sender: String, presence: String },
    Reaction { room_id: String, event_id: String, key: String },
    /// Another device asks for a verification.
    VerificationRequest { sender: String, transaction_id: String },
}

/// What is told of a message: an event of its own for an image and for a file, and one with the
/// text shown for every other message.
pub open spec fn message_event<S>(room_id: Seq<char>, m: MessageEventView) -> MatrixEventView<S> {
    match m.kind {
        MessageKindView::Image { filename, source } => MatrixEventView::ImageMessage {
            room_id,
            sender: m.sender,
            timestamp: m.timestamp,
            event_id: m.event_id,
            body: filename,
            source,
            reply_to_event_id: m.reply_to_event_id,
        },
        MessageKindView::File { filename, source, media_type } => MatrixEventView::FileMessage {
            room_id,
            sender: m.sender,
            timestamp: m.timestamp,
            event_id: m.event_id,
            body: filename,
            source,
            media_type,
            reply_to_event_id: m.reply_to_event_id,
        },
        _ => MatrixEventView::Message {
            room_id,
            sender: m.sender,
            body: shown_body(m.kind, m.reply_to_event_id is Some),
            timestamp: m.timestamp,
            event_id: m.event_id,
            reply_to_event_id: m.reply_to_event_id,
        },
    }
}

/// What is told of a message, in order: the message itself, and that the room list changed.
pub open spec fn message_notifications<S>(room_id: Seq<char>, m: MessageEventView) -> Seq<
    MatrixEventView<S>,
> {
    seq![message_event(room_id, m), MatrixEventView::RoomsUpdated]
}

/// What is told of an event that the sync of account `account_id` brings, in order.
pub open spec fn notifications<S>(account_id: Seq<char>, ev: SyncEvent) -> Seq<MatrixEventView<S>> {
    match ev {
        SyncEvent::Message { room_id, event } => message_notifications(room_id@, event@),
        SyncEvent::Typing { room_id, user_ids } => seq![
            MatrixEventView::Typing { room_id: room_id@, user_ids: texts(user_ids@) },
        ],
        SyncEvent::Presence { sender, presence } => seq![
            MatrixEventView::Presence { user_id: sender@, presence: presence@ },
        ],
        SyncEvent::Reaction { room_id, event_id, key } => seq![
            MatrixEventView::Reaction { room_id: room_id@, event_id: event_id@, key: key@ },
        ],
        SyncEvent::VerificationRequest { sender, transaction_id } => seq![
            MatrixEventView::VerificationIncoming {
                account_id,
                user_id: sender@,
                flow_id: transaction_id@,
            },
        ],
    }
}

/// Computes what is told of a message, beside that the room list changed.
fn message_to_event<S>(room_id: String, m: MessageEvent) -> (r: MatrixEvent<S>)
    ensures
        r@ == message_event::<S>(room_id@, m@),
{
    match m.kind {
        MessageKind::Image { filename, source } => MatrixEvent::ImageMessage {
            room_id,
            sender: m.sender,
            timestamp: m.timestamp,
            event_id: m.event_id,
            body: filename,
            source,
            reply_to_event_id: m.reply_to_event_id,
        },
        MessageKind::File { filename, source, media_type } => MatrixEvent::FileMessage {
            room_id,
            sender: m.sender,
            timestamp: m.timestamp,
            event_id: m.event_id,
            body: filename,
            source,
            media_type,
            reply_to_event_id: m.reply_to_event_id,
        },
        kind => {
            let body = text_body(&kind, m.reply_to_event_id.is_some());
            MatrixEvent::Message {
                room_id,
                sender: m.sender,
                body,
                timestamp: m.timestamp,
                event_id: m.event_id,
                reply_to_event_id: m.reply_to_event_id,
            }
        },
    }
}

/// What to tell the user interface, in order, of an event that the sync of account `account_id`
/// brings.
pub fn sync_notifications<S>(account_id: &str, ev: SyncEvent) -> (r: Vec<MatrixEvent<S>>)
    ensures
        event_views(r@) == notifications::<S>(account_id@, ev),
{
    let mut out: Vec<MatrixEvent<S>> = Vec::new();
    match ev {
        SyncEvent::Message { room_id, event } => {
            out.push(message_to_event(room_id, event));
            out.push(MatrixEvent::RoomsUpdated);
        },
        SyncEvent::Typing { room_id, user_ids } => {
            out.push(MatrixEvent::Typing { room_id, user_ids });
        },
        SyncEvent::Presence { sender, presence } => {
            out.push(MatrixEvent::Presence { user_id: sender, presence });
        },
        SyncEvent::Reaction { room_id, event_id, key } => {
            out.push(MatrixEvent::Reaction { room_id, event_id, key });
        },
        SyncEvent::VerificationRequest { sender, transaction_id } => {
            out.push(
                MatrixEvent::VerificationIncoming {
                    account_id: account_id.to_owned(),
                    user_id: sender,
                    flow_id: transaction_id,
                },
            );
        },
    }
    assert(event_views(out@) == notifications::<S>(account_id@, ev));
    out
}

/// What to tell the user interface, in order, of a room message that the sync brings in JSON.
/// Nothing is told of a text that ruma does not read as a room message.
pub fn raw_message_notifications<S>(room_id: &str, json: &str) -> (r: Vec<MatrixEvent<S>>)
    ensures
        event_views(r@) == match timeline_event_of(json@) {
            Some(TimelineEventView::Message(m)) => message_notifications::<S>(room_id@, m),
            _ => seq![],
        },
{
    let mut out: Vec<MatrixEvent<S>> = Vec::new();
    assert(event_views(out@) == Seq::<MatrixEventView<S>>::empty());
    match read_timeline_event(json) {
        Some(TimelineEvent::Message(event)) => {
            let ghost told = message_notifications::<S>(room_id@, event@);
            out.push(message_to_event(room_id.to_owned(), event));
            out.push(MatrixEvent::RoomsUpdated);
            assert(event_views(out@) == told);
        },
        _ => {},
    }
    out
}

/// What to tell the user interface of the first sync, whose error is given as text, and whether the
/// sync goes on. It goes on if and only if the first one succeeded.
pub fn after_first_sync<S>(account_id: &str, result: Result<(), String>) -> (r: (
    MatrixEvent<S>,
    bool,
))
    ensures
        match result {
            Ok(_) => r.1 && r.0@ == (MatrixEventView::<S>::SyncComplete { account_id: account_id@ }),
            Err(e) => !r.1 && r.0@ == (MatrixEventView::<S>::SyncError {
                account_id: account_id@,
                error: e@,
            }),
        },
{
    match result {
        Ok(_) => (MatrixEvent::SyncComplete { account_id: account_id.to_owned() }, true),
        Err(error) => (MatrixEvent::SyncError { account_id: account_id.to_owned(), error }, false),
    }
}

/// A message of a supported type looks the same whether the sync brings it or the history does: who
/// sent it, when, in reply to what, and what it says.
pub proof fn law_live_and_history_agree<S>(room_id: Seq<char>, m: MessageEventView)
    requires
        !(m.kind is Unsupported),
    ensures
        display_of(TimelineEventView::Message(m)) matches Some(d) && match message_event::<S>(
            room_id,
            m,
        ) {
            MatrixEventView::Message {
                room_id: r,
                sender,
                body,
                timestamp,
                event_id,
                reply_to_event_id,
            } => {
                &&& r == room_id
                &&& d.sender == sender
                &&& d.timestamp == timestamp
                &&& d.event_id == Some(event_id)
                &&& d.reply_to_event_id_raw == reply_to_event_id
                &&& d.content == MessageContentView::Text(body)
            },
            MatrixEventView::ImageMessage {
                room_id: r,
                sender,
                timestamp,
                event_id,
                body,
                source,
                reply_to_event_id,
            } => {
                &&& r == room_id
                &&& d.sender == sender
                &&& d.timestamp == timestamp
                &&& d.event_id == Some(event_id)
                &&& d.reply_to_event_id_raw == reply_to_event_id
                &&& d.content == (MessageContentView::Image {
                    body,
                    source,
                    protocol: None,
                    loading: false,
                })
            },
            MatrixEventView::FileMessage {
                room_id: r,
                sender,
                timestamp,
                event_id,
                body,
                source,
                media_type,
                reply_to_event_id,
            } => {
                &&& r == room_id
                &&& d.sender == sender
                &&& d.timestamp == timestamp
                &&& d.event_id == Some(event_id)
                &&& d.reply_to_event_id_raw == reply_to_event_id
                &&& d.content == (MessageContentView::File { body, source, media_type })
            },
            _ => false,
        },
{
}

/// Whether two messages reply to the same event, or neither to any.
pub open spec fn same_reply(a: Option<String>, b: Option<String>) -> bool {
    &&& a is Some <==> b is Some
    &&& a is Some ==> a->0@ == b->0@
}

/// Whether `list` tells of the message `m` in the room `room_id`: by one event with what it says,
/// and by one that the room list changed.
pub open spec fn tells_of<S>(list: Seq<MatrixEvent<S>>, room_id: Seq<char>, m: MessageEvent) -> bool {
    &&& list.len() == 2
    &&& list[1] is RoomsUpdated
    &&& m.kind matches MessageKind::Image { filename, source: from } ==> (
    list[0] matches MatrixEvent::ImageMessage {
        room_id: room,
        sender,
        timestamp,
        event_id,
        body,
        source,
        reply_to_event_id,
    } && room@ == room_id && sender@ == m.sender@ && timestamp == m.timestamp && event_id@
        == m.event_id@ && body@ == filename@ && source == from && same_reply(
        reply_to_event_id,
        m.reply_to_event_id,
    ))
    &&& m.kind matches MessageKind::File { filename, source: from, media_type: kind } ==> (
    list[0] matches MatrixEvent::FileMessage {
        room_id: room,
        sender,
        timestamp,
        event_id,
        body,
        source,
        media_type,
        reply_to_event_id,
    } && room@ == room_id && sender@ == m.sender@ && timestamp == m.timestamp && event_id@
        == m.event_id@ && body@ == filename@ && source == from && media_type == kind && same_reply(
        reply_to_event_id,
        m.reply_to_event_id,
    ))
    &&& !(m.kind is Image) && !(m.kind is File) ==> (list[0] matches MatrixEvent::Message {
        room_id: room,
        sender,
        body: text,
        timestamp,
        event_id,
        reply_to_event_id,
    } && room@ == room_id && sender@ == m.sender@ && timestamp == m.timestamp && event_id@
        == m.event_id@ && same_reply(reply_to_event_id, m.reply_to_event_id) && {
        &&& m.kind matches MessageKind::Text { body } ==> is_text_of(
            text@,
            body@,
            m.reply_to_event_id is Some,
        )
        &&& m.kind matches MessageKind::Notice { body } ==> is_text_of(
            text@,
            body@,
            m.reply_to_event_id is Some,
        )
        &&& m.kind matches MessageKind::Emote { body } ==> is_text_of(
            text@,
            "* "@ + body@,
            m.reply_to_event_id is Some,
        )
        &&& m.kind is Unsupported ==> is_text_of(
            text@,
            "[unsupported message type]"@,
            m.reply_to_event_id is Some,
        )
    })
}

proof fn lemma_tells_of<S>(list: Seq<MatrixEvent<S>>, room_id: Seq<char>, m: MessageEvent)
    requires
        event_views(list) == message_notifications::<S>(room_id, m@),
    ensures
        tells_of(list, room_id, m),
{
    let views = event_views(list);
    let told = message_notifications::<S>(room_id, m@);
    assert(told.len() == 2);
    assert(views.len() == list.len());
    assert(views[0] == list[0]@);
    assert(views[1] == list[1]@);
    assert(told[0] == message_event::<S>(room_id, m@));
    assert(told[1] == MatrixEventView::<S>::RoomsUpdated);
    assert(opt_text(m.reply_to_event_id) is Some <==> m.reply_to_event_id is Some);
}

/// A message that the sync brings is told as it was sent, and then that the room list changed.
pub proof fn law_message_is_told_as_sent<S>(
    account_id: &str,
    room_id: String,
    event: MessageEvent,
    r: Vec<MatrixEvent<S>>,
)
    requires
        call_ensures(
            sync_notifications::<S>,
            (account_id, SyncEvent::Message { room_id, event }),
            r,
        ),
    ensures
        tells_of(r@, room_id@, event),
{
    lemma_tells_of(r@, room_id@, event);
}

/// A room message that the sync brings in JSON is told as it is read, and nothing is told of what
/// is read as none.
pub proof fn law_raw_message_is_told_as_read<S>(
    room_id: &str,
    json: &str,
    ev: Option<TimelineEvent>,
    r: Vec<MatrixEvent<S>>,
)
    requires
        call_ensures(read_timeline_event, (json,), ev),
        call_ensures(raw_message_notifications::<S>, (room_id, json), r),
    ensures
        ev matches Some(TimelineEvent::Message(m)) ==> tells_of(r@, room_id@, m),
        !(ev matches Some(TimelineEvent::Message(_))) ==> r@.len() == 0,
{
    assert(event_views(r@).len() == r@.len());
    match ev {
        Some(TimelineEvent::Message(m)) => {
            lemma_tells_of(r@, room_id@, m);
        },
        _ => {},
    }
}

/// Of who is typing in a room one event is told, with the room and the users.
pub proof fn law_typing_is_told<S>(
    account_id: &str,
    room_id: String,
    user_ids: Vec<String>,
    r: Vec<MatrixEvent<S>>,
)
    requires
        call_ensures(
            sync_notifications::<S>,
            (account_id, SyncEvent::Typing { room_id, user_ids }),
            r,
        ),
    ensures
        r@.len() == 1,
        r@[0] matches MatrixEvent::Typing { room_id: room, user_ids: users } && room@ == room_id@
            && users@.len() == user_ids@.len() && forall|k: int|
            0 <= k < users@.len() ==> (#[trigger] users@[k])@ == user_ids@[k]@,
{
    assert(event_views(r@).len() == r@.len());
    assert(event_views(r@)[0] == r@[0]@);
    let users = r@[0]->Typing_user_ids;
    assert(texts(users@) == texts(user_ids@));
    assert(texts(users@).len() == users@.len());
    assert(texts(user_ids@).len() == user_ids@.len());
    assert forall|k: int| 0 <= k < users@.len() implies (#[trigger] users@[k])@ == user_ids@[k]@ by {
        assert(texts(users@)[k] == users@[k]@);
        assert(texts(user_ids@)[k] == user_ids@[k]@);
    }
}

/// Of a user's presence one event is told, with the user and the presence.
pub proof fn law_presence_is_told<S>(
    account_id: &str,
    sender: String,
    presence: String,
    r: Vec<MatrixEvent<S>>,
)
    requires
        call_ensures(
            sync_notifications::<S>,
            (account_id, SyncEvent::Presence { sender, presence }),
            r,
        ),
    ensures
        r@.len() == 1,
        r@[0] matches MatrixEvent::Presence { user_id, presence: p } && user_id@ == sender@ && p@
            == presence@,
{
    assert(event_views(r@).len() == r@.len());
    assert(event_views(r@)[0] == r@[0]@);
}

/// Of a reaction one event is told, with the room, the event reacted to and the key.
pub proof fn law_reaction_is_told<S>(
    account_id: &str,
    room_id: String,
    event_id: String,
    key: String,
    r: Vec<MatrixEvent<S>>,
)
    requires
        call_ensures(
            sync_notifications::<S>,
            (account_id, SyncEvent::Reaction { room_id, event_id, key }),
            r,
        ),
    ensures
        r@.len() == 1,
        r@[0] matches MatrixEvent::Reaction { room_id: room, event_id: event, key: k } && room@
            == room_id@ && event@ == event_id@ && k@ == key@,
{
    assert(event_views(r@).len() == r@.len());
    assert(event_views(r@)[0] == r@[0]@);
}

/// Of a verification request one event is told: the account is the one that syncs, the user the one
/// who asks, and the flow that of the request.
pub proof fn law_verification_request_is_told<S>(
    account_id: &str,
    sender: String,
    transaction_id: String,
    r: Vec<MatrixEvent<S>>,
)
    requires
        call_ensures(
            sync_notifications::<S>,
            (account_id, SyncEvent::VerificationRequest { sender, transaction_id }),
            r,
        ),
    ensures
        r@.len() == 1,
        r@[0] matches MatrixEvent::VerificationIncoming { account_id: account, user_id, flow_id }
            && account@ == account_id@ && user_id@ == sender@ && flow_id@ == transaction_id@,
{
    assert(event_views(r@).len() == r@.len());
    assert(event_views(r@)[0] == r@[0]@);
}

/// The first sync is told of with the account, as complete if it succeeded and else with its error,
/// and only in the first case the sync goes on.
pub proof fn law_sync_goes_on_after_success<S>(
    account_id: &str,
    result: Result<(), String>,
    r: (MatrixEvent<S>, bool),
)
    requires
        call_ensures(after_first_sync::<S>, (account_id, result), r),
    ensures
        r.1 <==> result is Ok,
        result is Ok ==> (r.0 matches MatrixEvent::SyncComplete { account_id: account } && account@
            == account_id@),
        result matches Err(e) ==> (r.0 matches MatrixEvent::SyncError { account_id: account, error }
            && account@ == account_id@ && error@ == e@),
{
}

} // verus!
