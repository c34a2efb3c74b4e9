//! Reading timeline events and turning them into the messages of a room's history.

use matrix_sdk::ruma::events::room::message::MessageType::Audio;
use matrix_sdk::ruma::events::room::message::MessageType::File;
use matrix_sdk::ruma::events::room::message::MessageType::Image;
use matrix_sdk::ruma::events::room::message::MessageType::Video;
use matrix_sdk::ruma::events::room::message::Relation::Replacement;
use matrix_sdk::ruma::events::room::message::Relation::Reply;
use matrix_sdk::ruma::events::room::message::Relation::Thread;
use matrix_sdk::ruma::events::room::MediaSource;
use matrix_sdk::ruma::events::AnySyncMessageLikeEvent::RoomMessage;
use matrix_sdk::ruma::events::AnySyncTimelineEvent::MessageLike;
use matrix_sdk::ruma::events::SyncMessageLikeEvent::Original;
use matrix_sdk::ruma::serde::Raw;
use vstd::prelude::*;

use crate::account::Account;
use crate::error::{AccountError, AccountErrorView};
use crate::event::{
    display_views, opt_text, DisplayMessage, DisplayMessageView, FileKind, MessageContent,
    MessageContentView, MessageEvent, MessageEventView, MessageKind, MessageKindView, TimelineEvent,
    TimelineEventView,
};
use crate::text::{
    law_reply_is_recovered, plain_line_ends, quote_lines, quoted, reply_text, same_text,
    strip_reply_fallback, texts,
};

verus! {

/// How a message relates to another event.
#[derive(Clone, Debug)]
pub enum MessageRelation {
    /// It replies to the event.
    Reply { event_id: String },
    /// It stands in the place of the event.
    Replacement,
    /// It belongs to a thread, in which it may reply to an event.
    Thread,
    /// In a way that ruma does not know.
    Other,
}

/// What a [`MessageRelation`] holds.
pub enum MessageRelationView {
    Reply { event_id: Seq<char> },
    Replacement,
    Thread,
    Other,
}

impl View for MessageRelation {
    type V = MessageRelationView;

    open spec fn view(&self) -> MessageRelationView {
        match *self {
            MessageRelation::Reply { event_id } => MessageRelationView::Reply {
                event_id: event_id@,
            },
            MessageRelation::Replacement => MessageRelationView::Replacement,
            MessageRelation::Thread => MessageRelationView::Thread,
            MessageRelation::Other => MessageRelationView::Other,
        }
    }
}

/// What every room message has, whatever its type.
#[derive(Clone, Debug)]
pub struct MessageHeader {
    pub sender: String,
    pub event_id: String,
    /// Seconds since the Unix epoch.
    pub timestamp: u64,
    pub relation: Option<MessageRelation>,
}

/// What a [`MessageHeader`] holds.
pub struct MessageHeaderView {
    pub sender: Seq<char>,
    pub event_id: Seq<char>,
    pub timestamp: u64,
    pub relation: Option<MessageRelationView>,
}

impl View for MessageHeader {
    type V = MessageHeaderView;

    open spec fn view(&self) -> MessageHeaderView {
        MessageHeaderView {
            sender: self.sender@,
            event_id: self.event_id@,
            timestamp: self.timestamp,
            relation: match self.relation {
                Some(relation) => Some(relation@),
                None => None,
            },
        }
    }
}

/// The kinds of timeline event, with the header of a room message.
#[derive(Clone, Debug)]
pub enum EventHeader {
    Message(MessageHeader),
    /// A room message that was redacted.
    RedactedMessage,
    /// State, a reaction, or any other event that is no room message.
    Other,
}

/// What an [`EventHeader`] holds.
pub enum EventHeaderView {
    Message(MessageHeaderView),
    RedactedMessage,
    Other,
}

impl View for EventHeader {
    type V = EventHeaderView;

    open spec fn view(&self) -> EventHeaderView {
        match *self {
            EventHeader::Message(header) => EventHeaderView::Message(header@),
            EventHeader::RedactedMessage => EventHeaderView::RedactedMessage,
            EventHeader::Other => EventHeaderView::Other,
        }
    }
}

/// What a room message says: its type, its text, and the file name and source of its attachment.
#[derive(Clone, Debug)]
pub struct MessagePayload {
    pub msgtype: String,
    pub body: String,
    pub attachment: Option<(String, MediaSource)>,
}

/// What a [`MessagePayload`] holds.
pub struct MessagePayloadView {
    pub msgtype: Seq<char>,
    pub body: Seq<char>,
    pub attachment: Option<(Seq<char>, MediaSource)>,
}

impl View for MessagePayload {
    type V = MessagePayloadView;

    open spec fn view(&self) -> MessagePayloadView {
        MessagePayloadView {
            msgtype: self.msgtype@,
            body: self.body@,
            attachment: match self.attachment {
                Some((filename, source)) => Some((filename@, source)),
                None => None,
            },
        }
    }
}

/// The kind and header that ruma reads of a timeline event in JSON; `None` where it reads none.
pub uninterp spec fn deserialized_header(json: Seq<char>) -> Option<EventHeaderView>;

/// What the room message says that ruma reads of a timeline event in JSON; `None` where it reads
/// none, or one that was redacted.
pub uninterp spec fn deserialized_payload(json: Seq<char>) -> Option<MessagePayloadView>;

/// `Raw::deserialize` on an `AnySyncTimelineEvent`, for its kind and the header of a room message.
/// The result depends on the text alone; what a given text holds is left to ruma.
#[verifier::external_body]
fn deserialize_header(json: &str) -> (r: Option<EventHeader>)
    ensures
        match r {
            Some(header) => deserialized_header(json@) == Some(header@),
            None => deserialized_header(json@) is None,
        },
{
    let raw = Raw::from_json_string(json.to_owned()).ok()?;
    let MessageLike(RoomMessage(m)) = raw.deserialize().ok()? else { return Some(EventHeader::Other) };
    let Original(m) = m else { return Some(EventHeader::RedactedMessage) };
    let relation = match m.content.relates_to {
        Some(relation) => Some(match relation {
            Reply { in_reply_to } => MessageRelation::Reply { event_id: in_reply_to.event_id.into() },
            Replacement(_) => MessageRelation::Replacement,
            Thread(_) => MessageRelation::Thread,
            _ => MessageRelation::Other,
        }),
        None => None,
    };
    let (sender, event_id) = (m.sender.into(), m.event_id.into());
    let timestamp = m.origin_server_ts.as_secs().into();
    Some(EventHeader::Message(MessageHeader { sender, event_id, timestamp, relation }))
}

/// Whether messages of this type carry an attachment.
pub open spec fn carries_attachment(msgtype: Seq<char>) -> bool {
    msgtype == "m.image"@ || msgtype == "m.file"@ || msgtype == "m.video"@ || msgtype == "m.audio"@
}

/// `Raw::deserialize` on an `AnySyncTimelineEvent`, for what a room message says. The result
/// depends on the text alone. There is one exactly where the header is that of a room message, and
/// an attachment in it exactly where its type carries one. What a given text holds is left to ruma.
#[verifier::external_body]
fn deserialize_payload(json: &str) -> (r: Option<MessagePayload>)
    ensures
        match r {
            Some(payload) => deserialized_payload(json@) == Some(payload@),
            None => deserialized_payload(json@) is None,
        },
        r is Some <==> (deserialized_header(json@) matches Some(h) && h is Message),
        r matches Some(payload) ==> (payload.attachment is Some <==> carries_attachment(
            payload.msgtype@,
        )),
{
    let raw = Raw::from_json_string(json.to_owned()).ok()?;
    let MessageLike(RoomMessage(Original(m))) = raw.deserialize().ok()? else { return None };
    let msgtype = m.content.msgtype().to_owned();
    let body = m.content.body().to_owned();
    let attachment = match m.content.msgtype {
        Image(a) => Some((a.filename().to_owned(), a.source)),
        File(a) => Some((a.filename().to_owned(), a.source)),
        Video(a) => Some((a.filename().to_owned(), a.source)),
        Audio(a) => Some((a.filename().to_owned(), a.source)),
        _ => None,
    };
    Some(MessagePayload { msgtype, body, attachment })
}

/// The event that a message with the given relation replies to. Only a reply has one: a message of
/// a thread and a replacement do not count as replies.
pub open spec fn reply_target_of(relation: Option<MessageRelationView>) -> Option<Seq<char>> {
    match relation {
        Some(MessageRelationView::Reply { event_id }) => Some(event_id),
        _ => None,
    }
}

/// The event that a message with the given relation replies to.
pub fn reply_target(relation: &Option<MessageRelation>) -> (r: Option<String>)
    ensures
        opt_text(r) == match *relation {
            Some(MessageRelation::Reply { event_id }) => Some(event_id@),
            _ => None,
        },
{
    match relation {
        Some(MessageRelation::Reply { event_id }) => Some(event_id.clone()),
        _ => None,
    }
}

/// The content of a message of the given type. A type that carries an attachment counts as
/// unsupported where there is none.
pub open spec fn kind_of(
    msgtype: Seq<char>,
    body: Seq<char>,
    attachment: Option<(Seq<char>, MediaSource)>,
) -> MessageKindView {
    if msgtype == "m.text"@ {
        MessageKindView::Text { body }
    } else if msgtype == "m.notice"@ {
        MessageKindView::Notice { body }
    } else if msgtype == "m.emote"@ {
        MessageKindView::Emote { body }
    } else {
        match attachment {
            Some((filename, source)) => if msgtype == "m.image"@ {
                MessageKindView::Image { filename, source }
            } else if msgtype == "m.file"@ {
                MessageKindView::File { filename, source, media_type: FileKind::File }
            } else if msgtype == "m.video"@ {
                MessageKindView::File { filename, source, media_type: FileKind::Video }
            } else if msgtype == "m.audio"@ {
                MessageKindView::File { filename, source, media_type: FileKind::Audio }
            } else {
                MessageKindView::Unsupported
            },
            None => MessageKindView::Unsupported,
        }
    }
}

/// Whether messages of this type are shown as what they are.
pub open spec fn is_supported(msgtype: Seq<char>) -> bool {
    msgtype == "m.text"@ || msgtype == "m.notice"@ || msgtype == "m.emote"@ || carries_attachment(
        msgtype,
    )
}

/// The message with the given header and payload.
pub open spec fn message_of(
    header: MessageHeaderView,
    payload: MessagePayloadView,
) -> MessageEventView {
    MessageEventView {
        sender: header.sender,
        event_id: header.event_id,
        timestamp: header.timestamp,
        reply_to_event_id: reply_target_of(header.relation),
        kind: kind_of(payload.msgtype, payload.body, payload.attachment),
    }
}

/// Puts a message together from its header and its payload.
pub fn assemble_message(header: MessageHeader, payload: MessagePayload) -> (r: MessageEvent)
    ensures
        r@ == message_of(header@, payload@),
{
    let msgtype = payload.msgtype;
    let body = payload.body;
    let kind = if same_text(msgtype.as_str(), "m.text") {
        MessageKind::Text { body }
    } else if same_text(msgtype.as_str(), "m.notice") {
        MessageKind::Notice { body }
    } else if same_text(msgtype.as_str(), "m.emote") {
        MessageKind::Emote { body }
    } else {
        match payload.attachment {
            Some((filename, source)) => if same_text(msgtype.as_str(), "m.image") {
                MessageKind::Image { filename, source }
            } else if same_text(msgtype.as_str(), "m.file") {
                MessageKind::File { filename, source, media_type: FileKind::File }
            } else if same_text(msgtype.as_str(), "m.video") {
                MessageKind::File { filename, source, media_type: FileKind::Video }
            } else if same_text(msgtype.as_str(), "m.audio") {
                MessageKind::File { filename, source, media_type: FileKind::Audio }
            } else {
                MessageKind::Unsupported
            },
            None => MessageKind::Unsupported,
        }
    };
    MessageEvent {
        sender: header.sender,
        event_id: header.event_id,
        timestamp: header.timestamp,
        reply_to_event_id: reply_target(&header.relation),
        kind,
    }
}

/// The timeline event with the given header and payload. Only a room message that was not redacted
/// is one.
pub open spec fn event_with(
    header: EventHeaderView,
    payload: Option<MessagePayloadView>,
) -> TimelineEventView {
    match (header, payload) {
        (EventHeaderView::Message(header), Some(payload)) => TimelineEventView::Message(
            message_of(header, payload),
        ),
        _ => TimelineEventView::Other,
    }
}

/// What an optional payload holds.
pub open spec fn opt_payload(payload: Option<MessagePayload>) -> Option<MessagePayloadView> {
    match payload {
        Some(payload) => Some(payload@),
        None => None,
    }
}

/// Puts a timeline event together from its header and, if it is a room message, its payload.
pub fn assemble_event(header: EventHeader, payload: Option<MessagePayload>) -> (r: TimelineEvent)
    ensures
        r@ == event_with(header@, opt_payload(payload)),
{
    match header {
        EventHeader::Message(header) => match payload {
            Some(payload) => TimelineEvent::Message(assemble_message(header, payload)),
            None => TimelineEvent::Other,
        },
        EventHeader::RedactedMessage => TimelineEvent::Other,
        EventHeader::Other => TimelineEvent::Other,
    }
}

/// The timeline event that `json` holds, if it holds one.
pub open spec fn timeline_event_of(json: Seq<char>) -> Option<TimelineEventView> {
    match deserialized_header(json) {
        Some(header) => Some(event_with(header, deserialized_payload(json))),
        None => None,
    }
}

/// What an optional timeline event holds.
pub open spec fn opt_timeline_event(e: Option<TimelineEvent>) -> Option<TimelineEventView> {
    match e {
        Some(ev) => Some(ev@),
        None => None,
    }
}

/// Reads a timeline event from its JSON. `None` means that the text is no event that ruma reads,
/// such as one that could not be decrypted. It is a message exactly where ruma reads a room message
/// that was not redacted, and one of an unsupported type exactly where that is none of those that
/// are shown.
pub fn read_timeline_event(json: &str) -> (r: Option<TimelineEvent>)
    ensures
        opt_timeline_event(r) == timeline_event_of(json@),
        r matches Some(ev) ==> (ev is Message <==> deserialized_header(json@)->0 is Message),
        r matches Some(TimelineEvent::Message(m)) ==> (deserialized_payload(json@) matches Some(
            payload,
        ) && (m.kind is Unsupported <==> !is_supported(payload.msgtype))),
{
    match deserialize_header(json) {
        Some(header) => {
            let payload = match &header {
                EventHeader::Message(_) => deserialize_payload(json),
                _ => None,
            };
            Some(assemble_event(header, payload))
        },
        None => None,
    }
}

/// What is shown for a message that is neither an image nor a file: its text, with a star before
/// an emote, and without the quoted fallback if it is a reply.
pub open spec fn shown_body(kind: MessageKindView, is_reply: bool) -> Seq<char> {
    let body = match kind {
        MessageKindView::Text { body } => body,
        MessageKindView::Notice { body } => body,
        MessageKindView::Emote { body } => "* "@ + body,
        _ => "[unsupported message type]"@,
    };
    if is_reply {
        reply_text(body)
    } else {
        body
    }
}

/// Computes the text shown for a message that is neither an image nor a file.
pub(crate) fn text_body(kind: &MessageKind, is_reply: bool) -> (r: String)
    ensures
        r@ == shown_body(kind@, is_reply),
{
    let body = match kind {
        MessageKind::Text { body } => body.clone(),
        MessageKind::Notice { body } => body.clone(),
        MessageKind::Emote { body } => "* ".to_owned().concat(body.as_str()),
        _ => "[unsupported message type]".to_owned(),
    };
    if is_reply {
        strip_reply_fallback(body.as_str())
    } else {
        body
    }
}

/// The content shown for a message.
pub open spec fn content_of(m: MessageEventView) -> MessageContentView {
    match m.kind {
        MessageKindView::Image { filename, source } => MessageContentView::Image {
            body: filename,
            source,
            protocol: None,
            loading: false,
        },
        MessageKindView::File { filename, source, media_type } => MessageContentView::File {
            body: filename,
            source,
            media_type,
        },
        _ => MessageContentView::Text(shown_body(m.kind, m.reply_to_event_id is Some)),
    }
}

/// The message shown for a timeline event, if it is a room message of a supported type.
pub open spec fn display_of(ev: TimelineEventView) -> Option<DisplayMessageView> {
    match ev {
        TimelineEventView::Message(m) => if m.kind is Unsupported {
            None
        } else {
            Some(
                DisplayMessageView {
                    sender: m.sender,
                    content: content_of(m),
                    timestamp: m.timestamp,
                    event_id: Some(m.event_id),
                    reply_to_sender: None,
                    reply_to_body: None,
                    reactions: seq![],
                    reply_to_event_id_raw: m.reply_to_event_id,
                },
            )
        },
        TimelineEventView::Other => None,
    }
}

/// What an optional message holds.
pub open spec fn opt_display(m: Option<DisplayMessage>) -> Option<DisplayMessageView> {
    match m {
        Some(d) => Some(d@),
        None => None,
    }
}

impl<H> Account<H> {
    /// The message to show for a timeline event, if it is a room message of a supported type.
    pub fn timeline_event_to_display_message(ev: &TimelineEvent) -> (r: Option<DisplayMessage>)
        ensures
            opt_display(r) == display_of(ev@),
            r is Some <==> (ev matches TimelineEvent::Message(m) && !(m.kind is Unsupported)),
    {
        match ev {
            TimelineEvent::Message(m) => {
                let content = match &m.kind {
                    MessageKind::Unsupported => {
                        return None;
                    },
                    MessageKind::Image { filename, source } => MessageContent::Image {
                        body: filename.clone(),
                        source: source.clone(),
                        protocol: None,
                        loading: false,
                    },
                    MessageKind::File { filename, source, media_type } => MessageContent::File {
                        body: filename.clone(),
                        source: source.clone(),
                        media_type: *media_type,
                    },
                    _ => MessageContent::Text(text_body(&m.kind, m.reply_to_event_id.is_some())),
                };
                let reactions: Vec<String> = Vec::new();
                assert(texts(reactions@) == Seq::<Seq<char>>::empty());
                Some(
                    DisplayMessage {
                        sender: m.sender.clone(),
                        content,
                        timestamp: m.timestamp,
                        event_id: Some(m.event_id.clone()),
                        reply_to_sender: None,
                        reply_to_body: None,
                        reactions,
                        reply_to_event_id_raw: m.reply_to_event_id.clone(),
                    },
                )
            },
            TimelineEvent::Other => None,
        }
    }
}

/// What stands in the history for an event that cannot be read.
pub open spec fn unreadable_message() -> DisplayMessageView {
    DisplayMessageView {
        sender: seq![],
        content: MessageContentView::Text("[encrypted message — unable to decrypt]"@),
        timestamp: 0,
        event_id: None,
        reply_to_sender: None,
        reply_to_body: None,
        reactions: seq![],
        reply_to_event_id_raw: None,
    }
}

fn unreadable() -> (r: DisplayMessage)
    ensures
        r@ == unreadable_message(),
{
    let reactions: Vec<String> = Vec::new();
    assert(texts(reactions@) == Seq::<Seq<char>>::empty());
    DisplayMessage {
        sender: String::new(),
        content: MessageContent::Text("[encrypted message — unable to decrypt]".to_owned()),
        timestamp: 0,
        event_id: None,
        reply_to_sender: None,
        reply_to_body: None,
        reactions,
        reply_to_event_id_raw: None,
    }
}

/// What the history shows for an event, which may be unreadable; nothing where it is no message, or
/// one of an unsupported type.
pub open spec fn history_entry(ev: Option<TimelineEventView>) -> Seq<DisplayMessageView> {
    match ev {
        None => seq![unreadable_message()],
        Some(e) => match display_of(e) {
            Some(d) => seq![d],
            None => seq![],
        },
    }
}

/// What the history shows for the given events, in their order.
pub open spec fn history_entries(events: Seq<Option<TimelineEventView>>) -> Seq<DisplayMessageView>
    decreases events.len(),
{
    if events.len() == 0 {
        seq![]
    } else {
        history_entry(events[0]) + history_entries(events.skip(1))
    }
}

/// The last `limit` entries of `list`, or all of them if there are no more than that.
pub open spec fn last_entries(list: Seq<DisplayMessageView>, limit: int) -> Seq<DisplayMessageView> {
    if list.len() > limit {
        list.skip(list.len() - limit)
    } else {
        list
    }
}

/// The messages of a page of history, oldest first, for the events of the page, newest first: the
/// newest `limit` of them.
pub open spec fn history_of(
    events: Seq<Option<TimelineEventView>>,
    limit: int,
) -> Seq<DisplayMessageView> {
    last_entries(history_entries(events).reverse(), limit)
}

/// What a list of events holds, some of which cannot be read.
pub open spec fn opt_events(list: Seq<Option<TimelineEvent>>) -> Seq<Option<TimelineEventView>> {
    list.map_values(|e: Option<TimelineEvent>| opt_timeline_event(e))
}

/// The messages of a page of history whose events were read, newest first.
pub fn history_messages(events: &Vec<Option<TimelineEvent>>, limit: u32) -> (r: Vec<DisplayMessage>)
    ensures
        display_views(r@) == history_of(opt_events(events@), limit as int),
{
    let mut out: Vec<DisplayMessage> = Vec::new();
    let mut i: usize = events.len();
    let ghost all = opt_events(events@);
    assert(display_views(out@) == history_entries(all.skip(i as int)).reverse());
    while i > 0
        invariant
            i <= events@.len(),
            all == opt_events(events@),
            display_views(out@) == history_entries(all.skip(i as int)).reverse(),
        decreases i,
    {
        let ghost before = display_views(out@);
        let ghost tail = all.skip(i - 1);
        i = i - 1;
        assert(tail.skip(1) == all.skip(i + 1));
        assert(tail[0] == opt_timeline_event(events@[i as int]));
        match &events[i] {
            None => {
                out.push(unreadable());
                assert(display_views(out@) == before.push(unreadable_message()));
            },
            Some(ev) => {
                match Account::<()>::timeline_event_to_display_message(ev) {
                    Some(d) => {
                        let ghost shown = d@;
                        out.push(d);
                        assert(display_views(out@) == before.push(shown));
                    },
                    None => {},
                }
            },
        }
        assert(display_views(out@) == history_entries(tail).reverse());
    }
    assert(all.skip(0) == all);
    let keep = limit as usize;
    if out.len() > keep {
        let at = out.len() - keep;
        let ghost before = out@;
        let kept = out.split_off(at);
        assert(display_views(kept@) == display_views(before).skip(at as int));
        kept
    } else {
        out
    }
}

/// The timeline events that a list of JSON texts holds.
pub open spec fn events_of(chunk: Seq<Seq<char>>) -> Seq<Option<TimelineEventView>> {
    chunk.map_values(|json: Seq<char>| timeline_event_of(json))
}

/// The order in which the homeserver goes through a room's events.
#[derive(Clone, Copy, Debug, PartialEq, Eq, Structural)]
pub enum Direction {
    /// From newer to older events.
    Backward,
    /// From older to newer events.
    Forward,
}

/// How a page of history is got.
#[derive(Debug)]
pub enum HistoryStart {
    /// Ask the homeserver for up to `limit` events from the token `from` on.
    Request { direction: Direction, from: String, limit: u32 },
    /// Ask for nothing: the sync brought no token yet. The page is that of [`page_without_token`].
    Empty,
}

/// The page of history of a room for which the sync brought no token yet: it is empty, and no page
/// comes before it.
pub fn page_without_token() -> (r: (Vec<DisplayMessage>, Option<String>))
    ensures
        r.0@.len() == 0,
        r.1 is None,
{
    (Vec::new(), None)
}

impl<H> Account<H> {
    /// How to get a page of history: backward from the token given or, without one, from that of
    /// the last sync, if the client knows the room.
    pub fn history_start(
        room_found: bool,
        from: Option<&str>,
        prev_batch: Option<String>,
        limit: u32,
    ) -> (r: Result<HistoryStart, AccountError>)
        ensures
            match r {
                Ok(HistoryStart::Request { direction, from: start, limit: n }) => {
                    &&& room_found
                    &&& direction == Direction::Backward
                    &&& n == limit
                    &&& match (from, prev_batch) {
                        (Some(token), _) => start@ == token@,
                        (None, Some(token)) => start@ == token@,
                        (None, None) => false,
                    }
                },
                Ok(HistoryStart::Empty) => room_found && from is None && prev_batch is None,
                Err(e) => !room_found && e@ == AccountErrorView::RoomNotFound,
            },
    {
        if !room_found {
            return Err(AccountError::RoomNotFound);
        }
        let direction = Direction::Backward;
        match from {
            Some(token) => Ok(HistoryStart::Request { direction, from: token.to_owned(), limit }),
            None => match prev_batch {
                Some(token) => Ok(HistoryStart::Request { direction, from: token, limit }),
                None => Ok(HistoryStart::Empty),
            },
        }
    }

    /// The messages of a page of history, oldest first, and the token at which the page before it
    /// starts. `chunk` holds the events in JSON, newest first, and `end` the token, as the
    /// homeserver gave them.
    pub fn fetch_history_paged(chunk: &Vec<String>, limit: u32, end: Option<String>) -> (r: (
        Vec<DisplayMessage>,
        Option<String>,
    ))
        ensures
            display_views(r.0@) == history_of(events_of(texts(chunk@)), limit as int),
            r.1 == end,
    {
        let mut events: Vec<Option<TimelineEvent>> = Vec::new();
        let ghost all = texts(chunk@);
        let mut i: usize = 0;
        while i < chunk.len()
            invariant
                i <= chunk@.len(),
                all == texts(chunk@),
                opt_events(events@) == events_of(all.take(i as int)),
            decreases chunk@.len() - i,
        {
            let ghost before = opt_events(events@);
            let ev = read_timeline_event(chunk[i].as_str());
            let ghost seen = opt_timeline_event(ev);
            events.push(ev);
            assert(opt_events(events@) == before.push(seen));
            assert(events_of(all.take(i + 1)) == events_of(all.take(i as int)).push(seen));
            i = i + 1;
        }
        assert(all.take(i as int) == all);
        (history_messages(&events, limit), end)
    }
}

/// A page of history never holds more than `limit` messages.
pub proof fn law_history_is_bounded(events: Seq<Option<TimelineEventView>>, limit: int)
    requires
        0 <= limit,
    ensures
        history_of(events, limit).len() <= limit,
{
}

proof fn lemma_entries_length(events: Seq<Option<TimelineEventView>>)
    ensures
        history_entries(events).len() <= events.len(),
    decreases events.len(),
{
    if events.len() > 0 {
        lemma_entries_length(events.skip(1));
    }
}

/// A page of no more than `limit` events is shown whole, and in the reverse of the order in which
/// the homeserver gave it: nothing that is shown for one of them is lost.
pub proof fn law_short_history_is_whole(events: Seq<Option<TimelineEventView>>, limit: int)
    requires
        events.len() <= limit,
    ensures
        history_of(events, limit) == history_entries(events).reverse(),
{
    lemma_entries_length(events);
}

proof fn lemma_entries_concat(
    a: Seq<Option<TimelineEventView>>,
    b: Seq<Option<TimelineEventView>>,
)
    ensures
        history_entries(a + b) == history_entries(a) + history_entries(b),
    decreases a.len(),
{
    if a.len() == 0 {
        assert(a + b == b);
    } else {
        assert((a + b).skip(1) == a.skip(1) + b);
        lemma_entries_concat(a.skip(1), b);
    }
}

/// Two pages of no more than `limit` events each that follow each other show together what all
/// their events show: the older page's messages come first, and none is lost between the pages.
pub proof fn law_pages_follow_each_other(
    newer: Seq<Option<TimelineEventView>>,
    older: Seq<Option<TimelineEventView>>,
    limit: int,
)
    requires
        newer.len() <= limit,
        older.len() <= limit,
    ensures
        history_of(older, limit) + history_of(newer, limit) == history_entries(
            newer + older,
        ).reverse(),
{
    law_short_history_is_whole(newer, limit);
    law_short_history_is_whole(older, limit);
    lemma_entries_concat(newer, older);
    let a = history_entries(newer);
    let b = history_entries(older);
    assert((a + b).reverse() == b.reverse() + a.reverse());
}

proof fn lemma_message_types_differ()
    ensures
        "m.text"@ != "m.notice"@,
        "m.text"@ != "m.emote"@,
        "m.text"@ != "m.image"@,
        "m.text"@ != "m.file"@,
        "m.text"@ != "m.video"@,
        "m.text"@ != "m.audio"@,
        "m.notice"@ != "m.emote"@,
        "m.notice"@ != "m.image"@,
        "m.notice"@ != "m.file"@,
        "m.notice"@ != "m.video"@,
        "m.notice"@ != "m.audio"@,
        "m.emote"@ != "m.image"@,
        "m.emote"@ != "m.file"@,
        "m.emote"@ != "m.video"@,
        "m.emote"@ != "m.audio"@,
        "m.image"@ != "m.file"@,
        "m.image"@ != "m.video"@,
        "m.image"@ != "m.audio"@,
        "m.file"@ != "m.video"@,
        "m.file"@ != "m.audio"@,
        "m.video"@ != "m.audio"@,
{
    reveal_strlit("m.text");
    reveal_strlit("m.notice");
    reveal_strlit("m.emote");
    reveal_strlit("m.image");
    reveal_strlit("m.file");
    reveal_strlit("m.video");
    reveal_strlit("m.audio");
    assert("m.text"@[2] == 't');
    assert("m.notice"@[2] == 'n');
    assert("m.emote"@[2] == 'e');
    assert("m.image"@[2] == 'i');
    assert("m.file"@[2] == 'f');
    assert("m.video"@[2] == 'v');
    assert("m.audio"@[2] == 'a');
}

/// Whether `m` is the message with the given header and payload.
pub open spec fn is_put_together(
    m: MessageEvent,
    header: MessageHeaderView,
    payload: MessagePayloadView,
) -> bool {
    &&& m.sender@ == header.sender
    &&& m.event_id@ == header.event_id
    &&& m.timestamp == header.timestamp
    &&& match header.relation {
        Some(MessageRelationView::Reply { event_id }) => m.reply_to_event_id is Some
            && m.reply_to_event_id->0@ == event_id,
        _ => m.reply_to_event_id is None,
    }
    &&& payload.msgtype == "m.text"@ ==> (m.kind matches MessageKind::Text { body } && body@
        == payload.body)
    &&& payload.msgtype == "m.notice"@ ==> (m.kind matches MessageKind::Notice { body } && body@
        == payload.body)
    &&& payload.msgtype == "m.emote"@ ==> (m.kind matches MessageKind::Emote { body } && body@
        == payload.body)
    &&& payload.attachment matches Some((name, from)) ==> {
        &&& payload.msgtype == "m.image"@ ==> (m.kind matches MessageKind::Image {
            filename,
            source,
        } && filename@ == name && source == from)
        &&& payload.msgtype == "m.file"@ ==> (m.kind matches MessageKind::File {
            filename,
            source,
            media_type,
        } && filename@ == name && source == from && media_type == FileKind::File)
        &&& payload.msgtype == "m.video"@ ==> (m.kind matches MessageKind::File {
            filename,
            source,
            media_type,
        } && filename@ == name && source == from && media_type == FileKind::Video)
        &&& payload.msgtype == "m.audio"@ ==> (m.kind matches MessageKind::File {
            filename,
            source,
            media_type,
        } && filename@ == name && source == from && media_type == FileKind::Audio)
    }
    &&& m.kind is Unsupported || payload.msgtype == "m.text"@ || payload.msgtype == "m.notice"@
        || payload.msgtype == "m.emote"@ || (payload.attachment is Some && (payload.msgtype
        == "m.image"@ || payload.msgtype == "m.file"@ || payload.msgtype == "m.video"@
        || payload.msgtype == "m.audio"@))
}

proof fn lemma_put_together(
    m: MessageEvent,
    header: MessageHeaderView,
    payload: MessagePayloadView,
)
    requires
        m@ == message_of(header, payload),
    ensures
        is_put_together(m, header, payload),
{
    lemma_message_types_differ();
    assert(opt_text(m.reply_to_event_id) == reply_target_of(header.relation));
    assert(m.kind@ == kind_of(payload.msgtype, payload.body, payload.attachment));
}

/// A message that is put together has the sender, the identifier and the time of its header and the
/// content that its type names. It replies to an event exactly where its header says that it is a
/// reply, and to that event.
pub proof fn law_message_is_put_together_as_it_came(
    header: MessageHeader,
    payload: MessagePayload,
    r: MessageEvent,
)
    requires
        call_ensures(assemble_message, (header, payload), r),
    ensures
        is_put_together(r, header@, payload@),
{
    lemma_put_together(r, header@, payload@);
}

/// An event is a message exactly where it has the header and the payload of one.
pub proof fn law_only_messages_are_put_together(
    header: EventHeader,
    payload: Option<MessagePayload>,
    r: TimelineEvent,
)
    requires
        call_ensures(assemble_event, (header, payload), r),
    ensures
        r is Message <==> header is Message && payload is Some,
        r matches TimelineEvent::Message(m) ==> is_put_together(
            m,
            header->Message_0@,
            payload->0@,
        ),
{
    if let TimelineEvent::Message(m) = r {
        lemma_put_together(m, header->Message_0@, payload->0@);
    }
}

/// Only a reply has an event that it replies to, and that is the one it names.
pub proof fn law_only_replies_reply(relation: &Option<MessageRelation>, r: Option<String>)
    requires
        call_ensures(reply_target, (relation,), r),
    ensures
        r is Some <==> *relation matches Some(MessageRelation::Reply { .. }),
        *relation matches Some(MessageRelation::Reply { event_id }) ==> r->0@ == event_id@,
{
}

/// What is read of an event is what ruma reads: nothing where it reads none, and a message exactly
/// where it reads a room message that was not redacted, with what that says.
pub proof fn law_event_is_read_as_ruma_reads_it(json: &str, r: Option<TimelineEvent>)
    requires
        call_ensures(read_timeline_event, (json,), r),
    ensures
        r is None <==> deserialized_header(json@) is None,
        r matches Some(TimelineEvent::Other) ==> !(deserialized_header(json@)->0 is Message),
        r matches Some(TimelineEvent::Message(m)) ==> {
            &&& deserialized_header(json@)->0 is Message
            &&& deserialized_payload(json@) is Some
            &&& is_put_together(
                m,
                deserialized_header(json@)->0->Message_0,
                deserialized_payload(json@)->0,
            )
        },
{
    if let Some(TimelineEvent::Message(m)) = r {
        let header = deserialized_header(json@)->0;
        assert(opt_timeline_event(r) == Some(TimelineEventView::Message(m@)));
        assert(event_with(header, deserialized_payload(json@)) == TimelineEventView::Message(m@));
        lemma_put_together(m, header->Message_0, deserialized_payload(json@)->0);
    }
}

/// Whether `text` is what is shown for the text `body` of a message: the text itself, or what is
/// left of it without the quoted fallback where the message is a reply.
pub open spec fn is_text_of(text: Seq<char>, body: Seq<char>, is_reply: bool) -> bool {
    &&& is_reply ==> text == reply_text(body)
    &&& !is_reply ==> text == body
}

/// Whether `d` shows the message `m`, of a supported type.
pub open spec fn is_shown_as(d: DisplayMessage, m: MessageEvent) -> bool {
    &&& d.sender@ == m.sender@
    &&& d.timestamp == m.timestamp
    &&& d.event_id is Some && d.event_id->0@ == m.event_id@
    &&& d.reply_to_sender is None
    &&& d.reply_to_body is None
    &&& d.reactions@.len() == 0
    &&& d.reply_to_event_id_raw is Some <==> m.reply_to_event_id is Some
    &&& m.reply_to_event_id matches Some(id) ==> d.reply_to_event_id_raw->0@ == id@
    &&& !(m.kind is Unsupported)
    &&& m.kind matches MessageKind::Text { body } ==> (d.content matches MessageContent::Text(text)
        && is_text_of(text@, body@, m.reply_to_event_id is Some))
    &&& m.kind matches MessageKind::Notice { body } ==> (d.content matches MessageContent::Text(
        text,
    ) && is_text_of(text@, body@, m.reply_to_event_id is Some))
    &&& m.kind matches MessageKind::Emote { body } ==> (d.content matches MessageContent::Text(text)
        && is_text_of(text@, "* "@ + body@, m.reply_to_event_id is Some))
    &&& m.kind matches MessageKind::Image { filename, source: from } ==> (
    d.content matches MessageContent::Image { body, source, protocol, loading } && body@
        == filename@ && source == from && protocol is None && !loading)
    &&& m.kind matches MessageKind::File { filename, source: from, media_type: kind } ==> (
    d.content matches MessageContent::File { body, source, media_type } && body@ == filename@
        && source == from && media_type == kind)
}

proof fn lemma_shown_as(d: DisplayMessage, m: MessageEvent)
    requires
        display_of(TimelineEventView::Message(m@)) == Some(d@),
    ensures
        is_shown_as(d, m),
{
    assert(d.content@ == content_of(m@));
    assert(texts(d.reactions@).len() == 0);
    assert(opt_text(d.event_id) == Some(m.event_id@));
    assert(opt_text(d.reply_to_event_id_raw) == opt_text(m.reply_to_event_id));
    assert(opt_text(d.reply_to_sender) is None);
    assert(opt_text(d.reply_to_body) is None);
}

/// Every room message of a supported type is shown, and nothing else is: by who sent it, when, in
/// reply to what, and with its text or its file.
pub proof fn law_message_is_shown_as_sent<H>(ev: &TimelineEvent, r: Option<DisplayMessage>)
    requires
        call_ensures(Account::<H>::timeline_event_to_display_message, (ev,), r),
    ensures
        r is Some <==> (*ev matches TimelineEvent::Message(m) && !(m.kind is Unsupported)),
        r is Some ==> is_shown_as(r->0, ev->Message_0),
{
    if r is Some {
        lemma_shown_as(r->0, ev->Message_0);
    }
}

/// A reply to a quoted message is shown without the quote, whether it is a text or a notice: of a
/// body of quoted lines, a blank line and the reply, the reply is left.
pub proof fn law_reply_is_shown_without_its_quote<H>(
    ev: &TimelineEvent,
    r: Option<DisplayMessage>,
    m: MessageEvent,
    quotes: Seq<Seq<char>>,
    reply: Seq<char>,
)
    requires
        call_ensures(Account::<H>::timeline_event_to_display_message, (ev,), r),
        *ev == TimelineEvent::Message(m),
        m.reply_to_event_id is Some,
        ({
            ||| m.kind matches MessageKind::Text { body } && body@ == quoted(quotes) + seq!['\n']
                + reply
            ||| m.kind matches MessageKind::Notice { body } && body@ == quoted(quotes) + seq!['\n']
                + reply
        }),
        quote_lines(quotes),
        reply.len() > 0,
        plain_line_ends(reply),
    ensures
        r is Some,
        r->0.content matches MessageContent::Text(text) && text@ == reply,
{
    law_message_is_shown_as_sent::<H>(ev, r);
    law_reply_is_recovered(quotes, reply);
}

/// Whether something is shown for an event of the history: for one that cannot be read, and for a
/// room message of a supported type.
pub open spec fn shows_up(ev: Option<TimelineEvent>) -> bool {
    match ev {
        None => true,
        Some(TimelineEvent::Message(m)) => !(m.kind is Unsupported),
        Some(TimelineEvent::Other) => false,
    }
}

/// Whether `d` is what is shown for an event of the history.
pub open spec fn is_entry_for(d: DisplayMessage, ev: Option<TimelineEvent>) -> bool {
    match ev {
        None => {
            &&& d.sender@.len() == 0
            &&& d.content matches MessageContent::Text(text) && text@
                == "[encrypted message — unable to decrypt]"@
            &&& d.timestamp == 0
            &&& d.event_id is None
            &&& d.reply_to_sender is None
            &&& d.reply_to_body is None
            &&& d.reactions@.len() == 0
            &&& d.reply_to_event_id_raw is None
        },
        Some(TimelineEvent::Message(m)) => is_shown_as(d, m),
        Some(TimelineEvent::Other) => false,
    }
}

proof fn lemma_entry_for(d: DisplayMessage, ev: Option<TimelineEvent>)
    requires
        history_entry(opt_timeline_event(ev)) == seq![d@],
    ensures
        is_entry_for(d, ev),
{
    assert(seq![d@][0] == d@);
    match ev {
        None => {
            assert(seq![unreadable_message()][0] == unreadable_message());
            assert(d@ == unreadable_message());
            assert(texts(d.reactions@).len() == 0);
            assert(opt_text(d.event_id) is None);
            assert(opt_text(d.reply_to_sender) is None);
            assert(opt_text(d.reply_to_body) is None);
            assert(opt_text(d.reply_to_event_id_raw) is None);
            assert(d.content@ == unreadable_message().content);
        },
        Some(TimelineEvent::Message(m)) => {
            let shown = display_of(TimelineEventView::Message(m@));
            assert(seq![shown->0][0] == shown->0);
            lemma_shown_as(d, m);
        },
        Some(TimelineEvent::Other) => {
            assert(seq![d@].len() == 1);
        },
    }
}

/// What is shown for an event for which something is.
spec fn entry_view(ev: Option<TimelineEvent>) -> DisplayMessageView {
    history_entry(opt_timeline_event(ev))[0]
}

proof fn lemma_entries_are_those_shown(events: Seq<Option<TimelineEvent>>)
    ensures
        history_entries(opt_events(events)) == events.filter(
            |e: Option<TimelineEvent>| shows_up(e),
        ).map_values(|e: Option<TimelineEvent>| entry_view(e)),
        forall|i: int|
            0 <= i < events.len() && shows_up(#[trigger] events[i]) ==> history_entry(
                opt_timeline_event(events[i]),
            ) == seq![entry_view(events[i])],
    decreases events.len(),
{
    let up = |e: Option<TimelineEvent>| shows_up(e);
    let view = |e: Option<TimelineEvent>| entry_view(e);
    reveal(Seq::filter);
    assert forall|i: int| 0 <= i < events.len() && shows_up(#[trigger] events[i]) implies history_entry(
        opt_timeline_event(events[i]),
    ) == seq![entry_view(events[i])] by {}
    if events.len() > 0 {
        let head = events.drop_last();
        let ev = events.last();
        let last = seq![opt_timeline_event(ev)];
        assert(opt_events(events) == opt_events(head) + last);
        lemma_entries_concat(opt_events(head), last);
        lemma_entries_are_those_shown(head);
        reveal_with_fuel(history_entries, 2);
        assert(last[0] == opt_timeline_event(ev));
        assert(last.skip(1) == Seq::<Option<TimelineEventView>>::empty());
        assert(history_entries(last) == history_entry(opt_timeline_event(ev)));
        let before = head.filter(up).map_values(view);
        if shows_up(ev) {
            assert(history_entry(opt_timeline_event(ev)) == seq![entry_view(ev)]);
            assert(events.filter(up) == head.filter(up).push(ev));
            assert(events.filter(up).map_values(view) == before.push(entry_view(ev)));
        } else {
            assert(history_entry(opt_timeline_event(ev)) == Seq::<DisplayMessageView>::empty());
        }
    } else {
        assert(events.filter(up).map_values(view) == Seq::<DisplayMessageView>::empty());
    }
}

/// Whether `list` shows the newest `limit` of those of `events`, newest first, for which something
/// is shown, oldest first.
pub open spec fn shows_the_newest(
    list: Seq<DisplayMessage>,
    events: Seq<Option<TimelineEvent>>,
    limit: int,
) -> bool {
    let shown = events.filter(|e: Option<TimelineEvent>| shows_up(e));
    &&& list.len() == if shown.len() < limit {
        shown.len() as int
    } else {
        limit
    }
    &&& forall|k: int|
        0 <= k < list.len() ==> is_entry_for(list[list.len() - 1 - k], #[trigger] shown[k])
}

proof fn lemma_shows_the_newest(
    list: Seq<DisplayMessage>,
    events: Seq<Option<TimelineEvent>>,
    limit: int,
)
    requires
        0 <= limit,
        display_views(list) == history_of(opt_events(events), limit),
    ensures
        shows_the_newest(list, events, limit),
{
    lemma_entries_are_those_shown(events);
    let up = |e: Option<TimelineEvent>| shows_up(e);
    let view = |e: Option<TimelineEvent>| entry_view(e);
    let shown = events.filter(up);
    let entries = shown.map_values(view);
    assert(history_entries(opt_events(events)) == entries);
    let views = display_views(list);
    assert(views.len() == list.len());
    assert forall|k: int| 0 <= k < list.len() implies is_entry_for(
        list[list.len() - 1 - k],
        #[trigger] shown[k],
    ) by {
        let j = list.len() - 1 - k;
        assert(views[j] == list[j]@);
        assert(views[j] == entries[k]);
        events.lemma_filter_pred(up, k);
        assert(shows_up(shown[k]));
        assert(history_entry(opt_timeline_event(shown[k])) == seq![entry_view(shown[k])]);
        lemma_entry_for(list[j], shown[k]);
    }
}

/// A page of history shows every event for which there is something to show, and nothing else: one
/// entry for each, oldest first, down to the newest `limit` of them.
pub proof fn law_history_shows_what_there_is(
    events: &Vec<Option<TimelineEvent>>,
    limit: u32,
    r: Vec<DisplayMessage>,
)
    requires
        call_ensures(history_messages, (events, limit), r),
    ensures
        shows_the_newest(r@, events@, limit as int),
{
    lemma_shows_the_newest(r@, events@, limit as int);
}

/// Whether `ev` is what is read of `json`.
pub open spec fn was_read(json: Seq<char>, ev: Option<TimelineEvent>) -> bool {
    exists|text: &str| #![trigger text@] text@ == json && call_ensures(read_timeline_event, (text,), ev)
}

/// A page of history as the homeserver gives it shows what its events, each read by itself, show,
/// and goes on at the token given.
pub proof fn law_page_shows_what_was_read<H>(
    chunk: &Vec<String>,
    limit: u32,
    end: Option<String>,
    r: (Vec<DisplayMessage>, Option<String>),
    events: Seq<Option<TimelineEvent>>,
)
    requires
        call_ensures(Account::<H>::fetch_history_paged, (chunk, limit, end), r),
        events.len() == chunk@.len(),
        forall|i: int| 0 <= i < events.len() ==> was_read(chunk@[i]@, #[trigger] events[i]),
    ensures
        r.1 == end,
        shows_the_newest(r.0@, events, limit as int),
{
    let all = events_of(texts(chunk@));
    assert forall|i: int| 0 <= i < events.len() implies opt_events(events)[i] == all[i] by {
        assert(was_read(chunk@[i]@, events[i]));
        assert(all[i] == timeline_event_of(texts(chunk@)[i]));
        assert(texts(chunk@)[i] == chunk@[i]@);
    }
    assert(opt_events(events) == all);
    lemma_shows_the_newest(r.0@, events, limit as int);
}

/// A page of history is asked for backward from the token given, or else from that of the last
/// sync, with the limit given. Without either token nothing is asked for, and the page is empty and
/// the last.
pub proof fn law_history_goes_back_from_a_token<H>(
    room_found: bool,
    from: Option<&str>,
    prev_batch: Option<String>,
    limit: u32,
    r: Result<HistoryStart, AccountError>,
    page: (Vec<DisplayMessage>, Option<String>),
)
    requires
        call_ensures(Account::<H>::history_start, (room_found, from, prev_batch, limit), r),
        call_ensures(page_without_token, (), page),
    ensures
        !room_found ==> r matches Err(AccountError::RoomNotFound),
        room_found && from is None && prev_batch is None ==> r matches Ok(HistoryStart::Empty),
        room_found && (from is Some || prev_batch is Some) ==> {
            &&& r matches Ok(HistoryStart::Request { direction, from: start, limit: n })
            &&& direction == Direction::Backward
            &&& n == limit
            &&& from is Some ==> start@ == from->0@
            &&& from is None ==> start@ == prev_batch->0@
        },
        page.0@.len() == 0,
        page.1 is None,
{
}

} // verus!
