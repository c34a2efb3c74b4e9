//! The events of a room's timeline, the messages shown for them, and the events that go from the
//! sync to the user interface.

use matrix_sdk::ruma::events::room::MediaSource;
use vstd::prelude::*;

use crate::text::texts;

verus! {

/// Where the content of an image or a file is to be had; the library hands it on unread.
#[verifier::external_type_specification]
#[verifier::external_body]
pub struct ExMediaSource(MediaSource);

/// `MediaSource::clone`, which ruma derives, gives a copy equal to the source.
pub assume_specification[ <MediaSource as Clone>::clone ](source: &MediaSource) -> (r: MediaSource)
    ensures
        r == *source,
;

/// What an optional text holds.
pub open spec fn opt_text(s: Option<String>) -> Option<Seq<char>> {
    match s {
        Some(t) => Some(t@),
        None => None,
    }
}

/// The kinds of attachment that are shown as a file.
#[derive(Clone, Copy, Debug, PartialEq, Eq, Structural)]
pub enum FileKind {
    File,
    Video,
    Audio,
}

/// The content of a room message.
#[derive(Clone, Debug)]
pub enum MessageKind {
    Text { body: String },
    Notice { body: String },
    Emote { body: String },
    Image { filename: String, source: MediaSource },
    File { filename: String, source: MediaSource, media_type: FileKind },
    /// Any other message type.
    Unsupported,
}

/// What a [`MessageKind`] holds.
pub enum MessageKindView {
    Text { body: Seq<char> },
    Notice { body: Seq<char> },
    Emote { body: Seq<char> },
    Image { filename: Seq<char>, source: MediaSource },
    File { filename: Seq<char>, source: MediaSource, media_type: FileKind },
    Unsupported,
}

impl View for MessageKind {
    type V = MessageKindView;

    open spec fn view(&self) -> MessageKindView {
        match *self {
            MessageKind::Text { body } => MessageKindView::Text { body: body@ },
            MessageKind::Notice { body } => MessageKindView::Notice { body: body@ },
            MessageKind::Emote { body } => MessageKindView::Emote { body: body@ },
            MessageKind::Image { filename, source } => MessageKindView::Image {
                filename: filename@,
                source,
            },
            MessageKind::File { filename, source, media_type } => MessageKindView::File {
                filename: filename@,
                source,
                media_type,
            },
            MessageKind::Unsupported => MessageKindView::Unsupported,
        }
    }
}

/// A room message as its sender sent it.
#[derive(Clone, Debug)]
pub struct MessageEvent {
    pub sender: String,
    pub event_id: String,
    /// Seconds since the Unix epoch.
    pub timestamp: u64,
    /// The event that this message replies to.
    pub reply_to_event_id: Option<String>,
    pub kind: MessageKind,
}

/// What a [`MessageEvent`] holds.
pub struct MessageEventView {
    pub sender: Seq<char>,
    pub event_id: Seq<char>,
    pub timestamp: u64,
    pub reply_to_event_id: Option<Seq<char>>,
    pub kind: MessageKindView,
}

impl View for MessageEvent {
    type V = MessageEventView;

    open spec fn view(&self) -> MessageEventView {
        MessageEventView {
            sender: self.sender@,
            event_id: self.event_id@,
            timestamp: self.timestamp,
            reply_to_event_id: opt_text(self.reply_to_event_id),
            kind: self.kind@,
        }
    }
}

/// An event of a room's timeline.
#[derive(Clone, Debug)]
pub enum TimelineEvent {
    Message(MessageEvent),
    /// State, reactions, redacted messages and all else that is no room message.
    Other,
}

/// What a [`TimelineEvent`] holds.
pub enum TimelineEventView {
    Message(MessageEventView),
    Other,
}

impl View for TimelineEvent {
    type V = TimelineEventView;

    open spec fn view(&self) -> TimelineEventView {
        match *self {
            TimelineEvent::Message(m) => TimelineEventView::Message(m@),
            TimelineEvent::Other => TimelineEventView::Other,
        }
    }
}

/// What is shown of a message.
#[derive(Clone, Debug)]
pub enum MessageContent {
    Text(String),
    Image {
        body: String,
        source: MediaSource,
        /// The picture that the user interface made ready to draw, by its number there.
        protocol: Option<u64>,
        loading: bool,
    },
    File { body: String, source: MediaSource, media_type: FileKind },
}

/// What a [`MessageContent`] holds.
pub enum MessageContentView {
    Text(Seq<char>),
    Image { body: Seq<char>, source: MediaSource, protocol: Option<u64>, loading: bool },
    File { body: Seq<char>, source: MediaSource, media_type: FileKind },
}

impl View for MessageContent {
    type V = MessageContentView;

    open spec fn view(&self) -> MessageContentView {
        match *self {
            MessageContent::Text(body) => MessageContentView::Text(body@),
            MessageContent::Image { body, source, protocol, loading } => MessageContentView::Image {
                body: body@,
                source,
                protocol,
                loading,
            },
            MessageContent::File { body, source, media_type } => MessageContentView::File {
                body: body@,
                source,
                media_type,
            },
        }
    }
}

/// A message as the user interface shows it.
#[derive(Clone, Debug)]
pub struct DisplayMessage {
    pub sender: String,
    pub content: MessageContent,
    /// Seconds since the Unix epoch.
    pub timestamp: u64,
    pub event_id: Option<String>,
    pub reply_to_sender: Option<String>,
    pub reply_to_body: Option<String>,
    pub reactions: Vec<String>,
    pub reply_to_event_id_raw: Option<String>,
}

/// What a [`DisplayMessage`] holds.
pub struct DisplayMessageView {
    pub sender: Seq<char>,
    pub content: MessageContentView,
    pub timestamp: u64,
    pub event_id: Option<Seq<char>>,
    pub reply_to_sender: Option<Seq<char>>,
    pub reply_to_body: Option<Seq<char>>,
    pub reactions: Seq<Seq<char>>,
    pub reply_to_event_id_raw: Option<Seq<char>>,
}

impl View for DisplayMessage {
    type V = DisplayMessageView;

    open spec fn view(&self) -> DisplayMessageView {
        DisplayMessageView {
            sender: self.sender@,
            content: self.content@,
            timestamp: self.timestamp,
            event_id: opt_text(self.event_id),
            reply_to_sender: opt_text(self.reply_to_sender),
            reply_to_body: opt_text(self.reply_to_body),
            reactions: texts(self.reactions@),
            reply_to_event_id_raw: opt_text(self.reply_to_event_id_raw),
        }
    }
}

/// What a list of messages holds.
pub open spec fn display_views(list: Seq<DisplayMessage>) -> Seq<DisplayMessageView> {
    list.map_values(|m: DisplayMessage| m@)
}

/// What a list of pairs of texts holds.
pub open spec fn text_pairs(list: Seq<(String, String)>) -> Seq<(Seq<char>, Seq<char>)> {
    list.map_values(|p: (String, String)| (p.0@, p.1@))
}

/// An event that the sync pushes to the user interface. `S` is a verification by short
/// authentication strings that is under way.
#[derive(Clone, Debug)]
pub enum MatrixEvent<S> {
    Message {
        room_id: String,
        sender: String,
        body: String,
        timestamp: u64,
        event_id: String,
        reply_to_event_id: Option<String>,
    },
    Typing { room_id: String, user_ids: Vec<String> },
    Reaction { room_id: String, event_id: String, key: String },
    Presence { user_id: String, presence: String },
    RoomsUpdated,
    SyncError { account_id: String, error: String },
    SyncComplete { account_id: String },
    KeysDownloaded { room_id: String, account_id: String },
    VerificationIncoming { account_id: String, user_id: String, flow_id: String },
    SasStarted { flow_id: String, sas: S },
    /// The emojis by symbol and description.
    SasEmojis { flow_id: String, emojis: Vec<(String, String)> },
    SasDone { flow_id: String },
    SasCancelled { flow_id: String, reason: String },
    ImageMessage {
        room_id: String,
        sender: String,
        timestamp: u64,
        event_id: String,
        body: String,
        source: MediaSource,
        reply_to_event_id: Option<String>,
    },
    FileMessage {
        room_id: String,
        sender: String,
        timestamp: u64,
        event_id: String,
        body: String,
        source: MediaSource,
        media_type: FileKind,
        reply_to_event_id: Option<String>,
    },
    OlderMessagesLoaded {
        room_id: String,
        messages: Vec<DisplayMessage>,
        next_token: Option<String>,
    },
    OlderMessagesFailed { error: String },
}

/// What a [`MatrixEvent`] holds.
pub enum MatrixEventView<S> {
    Message {
        room_id: Seq<char>,
        sender: Seq<char>,
        body: Seq<char>,
        timestamp: u64,
        event_id: Seq<char>,
        reply_to_event_id: Option<Seq<char>>,
    },
    Typing { room_id: Seq<char>, user_ids: Seq<Seq<char>> },
    Reaction { room_id: Seq<char>, event_id: Seq<char>, key: Seq<char> },
    Presence { user_id: Seq<char>, presence: Seq<char> },
    RoomsUpdated,
    SyncError { account_id: Seq<char>, error: Seq<char> },
    SyncComplete { account_id: Seq<char> },
    KeysDownloaded { room_id: Seq<char>, account_id: Seq<char> },
    VerificationIncoming { account_id: Seq<char>, user_id: Seq<char>, flow_id: Seq<char> },
    SasStarted { flow_id: Seq<char>, sas: S },
    SasEmojis { flow_id: Seq<char>, emojis: Seq<(Seq<char>, Seq<char>)> },
    SasDone { flow_id: Seq<char> },
    SasCancelled { flow_id: Seq<char>, reason: Seq<char> },
    ImageMessage {
        room_id: Seq<char>,
        sender: Seq<char>,
        timestamp: u64,
        event_id: Seq<char>,
        body: Seq<char>,
        source: MediaSource,
        reply_to_event_id: Option<Seq<char>>,
    },
    FileMessage {
        room_id: Seq<char>,
        sender: Seq<char>,
        timestamp: u64,
        event_id: Seq<char>,
        body: Seq<char>,
        source: MediaSource,
        media_type: FileKind,
        reply_to_event_id: Option<Seq<char>>,
    },
    OlderMessagesLoaded {
        room_id: Seq<char>,
        messages: Seq<DisplayMessageView>,
        next_token: Option<Seq<char>>,
    },
    OlderMessagesFailed { error: Seq<char> },
}

impl<S> View for MatrixEvent<S> {
    type V = MatrixEventView<S>;

    open spec fn view(&self) -> MatrixEventView<S> {
        match *self {
            MatrixEvent::Message {
                room_id,
                sender,
                body,
                timestamp,
                event_id,
                reply_to_event_id,
            } => MatrixEventView::Message {
                room_id: room_id@,
                sender: sender@,
                body: body@,
                timestamp,
                event_id: event_id@,
                reply_to_event_id: opt_text(reply_to_event_id),
            },
            MatrixEvent::Typing { room_id, user_ids } => MatrixEventView::Typing {
                room_id: room_id@,
                user_ids: texts(user_ids@),
            },
            MatrixEvent::Reaction { room_id, event_id, key } => MatrixEventView::Reaction {
                room_id: room_id@,
                event_id: event_id@,
                key: key@,
            },
            MatrixEvent::Presence { user_id, presence } => MatrixEventView::Presence {
                user_id: user_id@,
                presence: presence@,
            },
            MatrixEvent::RoomsUpdated => MatrixEventView::RoomsUpdated,
            MatrixEvent::SyncError { account_id, error } => MatrixEventView::SyncError {
                account_id: account_id@,
                error: error@,
            },
            MatrixEvent::SyncComplete { account_id } => MatrixEventView::SyncComplete {
                account_id: account_id@,
            },
            MatrixEvent::KeysDownloaded { room_id, account_id } => MatrixEventView::KeysDownloaded {
                room_id: room_id@,
                account_id: account_id@,
            },
            MatrixEvent::VerificationIncoming {
                account_id,
                user_id,
                flow_id,
            } => MatrixEventView::VerificationIncoming {
                account_id: account_id@,
                user_id: user_id@,
                flow_id: flow_id@,
            },
            MatrixEvent::SasStarted { flow_id, sas } => MatrixEventView::SasStarted {
                flow_id: flow_id@,
                sas,
            },
            MatrixEvent::SasEmojis { flow_id, emojis } => MatrixEventView::SasEmojis {
                flow_id: flow_id@,
                emojis: text_pairs(emojis@),
            },
            MatrixEvent::SasDone { flow_id } => MatrixEventView::SasDone { flow_id: flow_id@ },
            MatrixEvent::SasCancelled { flow_id, reason } => MatrixEventView::SasCancelled {
                flow_id: flow_id@,
                reason: reason@,
            },
            MatrixEvent::ImageMessage {
                room_id,
                sender,
                timestamp,
                event_id,
                body,
                source,
                reply_to_event_id,
            } => MatrixEventView::ImageMessage {
                room_id: room_id@,
                sender: sender@,
                timestamp,
                event_id: event_id@,
                body: body@,
                source,
                reply_to_event_id: opt_text(reply_to_event_id),
            },
            MatrixEvent::FileMessage {
                room_id,
                sender,
                timestamp,
                event_id,
                body,
                source,
                media_type,
                reply_to_event_id,
            } => MatrixEventView::FileMessage {
                room_id: room_id@,
                sender: sender@,
                timestamp,
                event_id: event_id@,
                body: body@,
                source,
                media_type,
                reply_to_event_id: opt_text(reply_to_event_id),
            },
            MatrixEvent::OlderMessagesLoaded {
                room_id,
                messages,
                next_token,
            } => MatrixEventView::OlderMessagesLoaded {
                room_id: room_id@,
                messages: display_views(messages@),
                next_token: opt_text(next_token),
            },
            MatrixEvent::OlderMessagesFailed { error } => MatrixEventView::OlderMessagesFailed {
                error: error@,
            },
        }
    }
}

/// What an optional event holds.
pub open spec fn opt_event<S>(event: Option<MatrixEvent<S>>) -> Option<MatrixEventView<S>> {
    match event {
        Some(event) => Some(event@),
        None => None,
    }
}

/// What a list of events holds.
pub open spec fn event_views<S>(list: Seq<MatrixEvent<S>>) -> Seq<MatrixEventView<S>> {
    list.map_values(|e: MatrixEvent<S>| e@)
}

} // verus!
