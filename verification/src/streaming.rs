//! The relay of what the remote service streams: which stream a timeline
//! has, and the event that is sent to the peer for each message of it.

use crate::api::client::ClientModel;
use crate::api::client::MastodonClient;
use crate::ids::random_id;
use crate::ids::is_identifier;
use crate::json::Json;
use crate::json::JsonModel;
use crate::json::ObjectBuilder;
use crate::models::events;
use crate::models::ipc_message::IpcMessage;
use crate::models::ipc_message::MessageModel;
use crate::models::notification::Notification;
use crate::models::notification::NotificationModel;
use crate::models::post::Post;
use crate::models::post::PostModel;
use crate::models::timeline::TimelineType;
use crate::models::timeline::TimelineTypeModel;
use vstd::prelude::*;

verus! {

/// What a stream told.
#[derive(Debug, Clone, PartialEq, Eq)]
pub enum StreamEvent {
    NewPost(Post),
    PostUpdated(Post),
    /// The post with this identifier was deleted.
    PostDeleted(String),
    NewNotification(Notification),
    Connected,
    /// The stream ended, for the reason given.
    Disconnected(String),
}

/// What a `StreamEvent` is, as a mathematical value.
pub ghost enum StreamEventModel {
    NewPost(PostModel),
    PostUpdated(PostModel),
    PostDeleted(Seq<char>),
    NewNotification(NotificationModel),
    Connected,
    Disconnected(Seq<char>),
}

impl View for StreamEvent {
    type V = StreamEventModel;

    open spec fn view(&self) -> StreamEventModel {
        match self {
            StreamEvent::NewPost(p) => StreamEventModel::NewPost(p@),
            StreamEvent::PostUpdated(p) => StreamEventModel::PostUpdated(p@),
            StreamEvent::PostDeleted(id) => StreamEventModel::PostDeleted(id@),
            StreamEvent::NewNotification(n) => StreamEventModel::NewNotification(n@),
            StreamEvent::Connected => StreamEventModel::Connected,
            StreamEvent::Disconnected(reason) => StreamEventModel::Disconnected(reason@),
        }
    }
}

/// A message of a stream of the remote service.
#[derive(Debug, Clone, PartialEq, Eq)]
pub enum StreamMessage {
    /// A new post.
    Update(Post),
    /// A post was edited.
    StatusUpdate(Post),
    /// The post with this identifier was deleted.
    Delete(String),
    /// A new notification.
    Notification(Notification),
    /// Any other message.
    Other,
}

/// What a `StreamMessage` is, as a mathematical value.
pub ghost enum StreamMessageModel {
    Update(PostModel),
    StatusUpdate(PostModel),
    Delete(Seq<char>),
    Notification(NotificationModel),
    Other,
}

impl View for StreamMessage {
    type V = StreamMessageModel;

    open spec fn view(&self) -> StreamMessageModel {
        match self {
            StreamMessage::Update(p) => StreamMessageModel::Update(p@),
            StreamMessage::StatusUpdate(p) => StreamMessageModel::StatusUpdate(p@),
            StreamMessage::Delete(id) => StreamMessageModel::Delete(id@),
            StreamMessage::Notification(n) => StreamMessageModel::Notification(n@),
            StreamMessage::Other => StreamMessageModel::Other,
        }
    }
}

/// The stream of the remote service that feeds a timeline.
#[derive(Debug, Clone, PartialEq, Eq)]
pub enum StreamSource {
    User,
    Local,
    Public,
    Tag { tag: String },
    List { list_id: String },
    Direct,
}

/// What a `StreamSource` is, as a mathematical value.
pub ghost enum StreamSourceModel {
    User,
    Local,
    Public,
    Tag { tag: Seq<char> },
    List { list_id: Seq<char> },
    Direct,
}

impl View for StreamSource {
    type V = StreamSourceModel;

    open spec fn view(&self) -> StreamSourceModel {
        match self {
            StreamSource::User => StreamSourceModel::User,
            StreamSource::Local => StreamSourceModel::Local,
            StreamSource::Public => StreamSourceModel::Public,
            StreamSource::Tag { tag } => StreamSourceModel::Tag { tag: tag@ },
            StreamSource::List { list_id } => StreamSourceModel::List { list_id: list_id@ },
            StreamSource::Direct => StreamSourceModel::Direct,
        }
    }
}

impl TimelineTypeModel {
    /// The stream that feeds the timeline; `None` for a timeline that has
    /// none.
    pub open spec fn stream(self) -> Option<StreamSourceModel> {
        match self {
            TimelineTypeModel::Home => Some(StreamSourceModel::User),
            TimelineTypeModel::Local => Some(StreamSourceModel::Local),
            TimelineTypeModel::Federated => Some(StreamSourceModel::Public),
            TimelineTypeModel::Hashtag { tag } => Some(StreamSourceModel::Tag { tag }),
            TimelineTypeModel::List { list_id } => Some(StreamSourceModel::List { list_id }),
            TimelineTypeModel::Direct => Some(StreamSourceModel::Direct),
            _ => None,
        }
    }
}

/// The stream that feeds the timeline `timeline_type`; `None` for a timeline
/// that has none.
pub fn stream_source(timeline_type: &TimelineType) -> (r: Option<StreamSource>)
    ensures
        match r {
            Some(s) => timeline_type@.stream() == Some(s@),
            None => timeline_type@.stream() is None,
        },
{
    match timeline_type {
        TimelineType::Home => Some(StreamSource::User),
        TimelineType::Local => Some(StreamSource::Local),
        TimelineType::Federated => Some(StreamSource::Public),
        TimelineType::Hashtag { tag } => Some(StreamSource::Tag { tag: tag.clone() }),
        TimelineType::List { list_id } => Some(StreamSource::List { list_id: list_id.clone() }),
        TimelineType::Direct => Some(StreamSource::Direct),
        _ => None,
    }
}

impl StreamMessageModel {
    /// What the message tells; `None` for a message that is not relayed.
    pub open spec fn event(self) -> Option<StreamEventModel> {
        match self {
            StreamMessageModel::Update(post) => Some(StreamEventModel::NewPost(post)),
            StreamMessageModel::StatusUpdate(post) => Some(StreamEventModel::PostUpdated(post)),
            StreamMessageModel::Delete(id) => Some(StreamEventModel::PostDeleted(id)),
            StreamMessageModel::Notification(n) => Some(StreamEventModel::NewNotification(n)),
            StreamMessageModel::Other => None,
        }
    }
}

impl StreamEventModel {
    /// The name of the event that is sent to the peer.
    pub open spec fn name(self) -> Seq<char> {
        match self {
            StreamEventModel::NewPost(_) => events::NEW_POST@,
            StreamEventModel::PostUpdated(_) => events::POST_UPDATED@,
            StreamEventModel::PostDeleted(_) => events::POST_DELETED@,
            StreamEventModel::NewNotification(_) => events::NEW_NOTIFICATION@,
            StreamEventModel::Connected => events::STREAM_CONNECTED@,
            StreamEventModel::Disconnected(_) => events::STREAM_DISCONNECTED@,
        }
    }

    /// The parameters of the event that is sent to the peer for the
    /// timeline shown as `timeline`: the name of the timeline, and what the
    /// event is about.
    pub open spec fn params(self, timeline: Seq<char>) -> JsonModel {
        match self {
            StreamEventModel::NewPost(post) => JsonModel::Object(
                seq![("timeline"@, JsonModel::Text(timeline)), ("post"@, post.document)],
            ),
            StreamEventModel::PostUpdated(post) => JsonModel::Object(
                seq![("timeline"@, JsonModel::Text(timeline)), ("post"@, post.document)],
            ),
            StreamEventModel::PostDeleted(id) => JsonModel::Object(
                seq![("timeline"@, JsonModel::Text(timeline)), ("post_id"@, JsonModel::Text(id))],
            ),
            StreamEventModel::NewNotification(notification) => JsonModel::Object(
                seq![
                    ("timeline"@, JsonModel::Text(timeline)),
                    ("notification"@, notification.document),
                ],
            ),
            StreamEventModel::Connected => JsonModel::Object(
                seq![("timeline"@, JsonModel::Text(timeline))],
            ),
            StreamEventModel::Disconnected(reason) => JsonModel::Object(
                seq![("timeline"@, JsonModel::Text(timeline)), ("reason"@, JsonModel::Text(reason))],
            ),
        }
    }

    /// The message that is sent to the peer under the identifier `id`.
    pub open spec fn message(self, timeline: Seq<char>, id: Seq<char>) -> MessageModel {
        MessageModel::event(id, self.name(), self.params(timeline))
    }
}

/// What the message `message` of a stream tells; `None` for a message that
/// is not relayed.
pub fn classify(message: StreamMessage) -> (r: Option<StreamEvent>)
    ensures
        match r {
            Some(e) => message@.event() == Some(e@),
            None => message@.event() is None,
        },
{
    match message {
        StreamMessage::Update(post) => Some(StreamEvent::NewPost(post)),
        StreamMessage::StatusUpdate(post) => Some(StreamEvent::PostUpdated(post)),
        StreamMessage::Delete(id) => Some(StreamEvent::PostDeleted(id)),
        StreamMessage::Notification(n) => Some(StreamEvent::NewNotification(n)),
        StreamMessage::Other => None,
    }
}

/// The message that is sent to the peer under the identifier `id` for the
/// event `event` of the timeline shown as `timeline`.
pub fn event_message_with_id(event: StreamEvent, timeline: &str, id: String) -> (r: IpcMessage)
    ensures
        r@ == event@.message(timeline@, id@),
{
    let ghost model = event@;
    let label = Json::text(timeline);
    match event {
        StreamEvent::NewPost(post) => {
            let params = ObjectBuilder::new().member("timeline", label).member(
                "post",
                post.document,
            ).build();
            assert(params@->Object_0 =~= model.params(timeline@)->Object_0);
            IpcMessage::event_with_id(id, events::NEW_POST, params)
        },
        StreamEvent::PostUpdated(post) => {
            let params = ObjectBuilder::new().member("timeline", label).member(
                "post",
                post.document,
            ).build();
            assert(params@->Object_0 =~= model.params(timeline@)->Object_0);
            IpcMessage::event_with_id(id, events::POST_UPDATED, params)
        },
        StreamEvent::PostDeleted(post_id) => {
            let params = ObjectBuilder::new().member("timeline", label).member(
                "post_id",
                Json::Text(post_id),
            ).build();
            assert(params@->Object_0 =~= model.params(timeline@)->Object_0);
            IpcMessage::event_with_id(id, events::POST_DELETED, params)
        },
        StreamEvent::NewNotification(notification) => {
            let params = ObjectBuilder::new().member("timeline", label).member(
                "notification",
                notification.document,
            ).build();
            assert(params@->Object_0 =~= model.params(timeline@)->Object_0);
            IpcMessage::event_with_id(id, events::NEW_NOTIFICATION, params)
        },
        StreamEvent::Connected => {
            let params = ObjectBuilder::new().member("timeline", label).build();
            assert(params@->Object_0 =~= model.params(timeline@)->Object_0);
            IpcMessage::event_with_id(id, events::STREAM_CONNECTED, params)
        },
        StreamEvent::Disconnected(reason) => {
            let params = ObjectBuilder::new().member("timeline", label).member(
                "reason",
                Json::Text(reason),
            ).build();
            assert(params@->Object_0 =~= model.params(timeline@)->Object_0);
            IpcMessage::event_with_id(id, events::STREAM_DISCONNECTED, params)
        },
    }
}

/// The message that is sent to the peer for the event `event` of the
/// timeline shown as `timeline`, under a new random identifier.
pub fn event_message(event: StreamEvent, timeline: &str) -> (r: IpcMessage)
    ensures
        r@ == event@.message(timeline@, r.id@),
        is_identifier(r.id@),
{
    event_message_with_id(event, timeline, random_id())
}

/// Whose streams are relayed: the instance and the token of the session.
#[derive(Debug, Clone, PartialEq, Eq)]
pub struct StreamManager {
    access_token: String,
    instance_url: String,
}

impl View for StreamManager {
    type V = ClientModel;

    closed spec fn view(&self) -> ClientModel {
        ClientModel { instance_url: self.instance_url@, access_token: self.access_token@ }
    }
}

impl StreamManager {
    /// The manager of the streams of the instance at `instance_url`, taken
    /// as it is, which are opened with `access_token`.
    pub fn new(instance_url: &str, access_token: &str) -> (r: Self)
        ensures
            r@ == (ClientModel { instance_url: instance_url@, access_token: access_token@ }),
    {
        StreamManager {
            access_token: String::from_str(access_token),
            instance_url: String::from_str(instance_url),
        }
    }

    /// The client that opens the streams.
    pub fn client(&self) -> (r: MastodonClient)
        ensures
            r@ == self@,
    {
        MastodonClient::with_token(self.instance_url.clone(), self.access_token.clone())
    }

    /// The first message of a stream for `timeline_type` and the stream to
    /// open, or `None` for a timeline that has no stream: then nothing is
    /// opened and nothing is sent.
    pub fn start_stream(&self, timeline_type: &TimelineType) -> (r: Option<(StreamSource, IpcMessage)>)
        ensures
            match r {
                Some((source, connected)) => timeline_type@.stream() == Some(source@)
                    && connected@ == StreamEventModel::Connected.message(
                    timeline_type@.display_name(),
                    connected.id@,
                ),
                None => timeline_type@.stream() is None,
            },
    {
        match stream_source(timeline_type) {
            Some(source) => {
                let name = timeline_type.display_name();
                Some((source, event_message(StreamEvent::Connected, name.as_str())))
            },
            None => None,
        }
    }
}

} // verus!
