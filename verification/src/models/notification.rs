//! Notifications: what a peer asks for, and the page that it gets.

use crate::json::invalid;
use crate::json::invalid_member;
use crate::json::items_view;
use crate::json::Json;
use crate::json::JsonModel;
use crate::json::ObjectBuilder;
use crate::models::ipc_message::optional_text;
use crate::models::timeline::optional_count;
use crate::models::timeline::text_or_null;
use crate::text::same_text;
use vstd::prelude::*;

verus! {

/// What a notification tells of.
#[derive(Debug, Clone, Copy, PartialEq, Eq, Structural)]
pub enum NotificationType {
    Mention,
    /// Someone boosted a post of the user.
    Reblog,
    Favourite,
    Follow,
    FollowRequest,
    /// A poll in which the user voted has ended.
    Poll,
    /// A post with which the user interacted was edited.
    Update,
    AdminSignUp,
    AdminReport,
    SeveredRelationships,
    Unknown,
}

/// The kind of notification that the name `name` stands for in a message;
/// a name that stands for none gives `Unknown`.
pub open spec fn notification_type_named(name: Seq<char>) -> NotificationType {
    if name == "mention"@ {
        NotificationType::Mention
    } else if name == "reblog"@ {
        NotificationType::Reblog
    } else if name == "favourite"@ {
        NotificationType::Favourite
    } else if name == "follow"@ {
        NotificationType::Follow
    } else if name == "follow_request"@ {
        NotificationType::FollowRequest
    } else if name == "poll"@ {
        NotificationType::Poll
    } else if name == "update"@ {
        NotificationType::Update
    } else if name == "admin_sign_up"@ {
        NotificationType::AdminSignUp
    } else if name == "admin_report"@ {
        NotificationType::AdminReport
    } else if name == "severed_relationships"@ {
        NotificationType::SeveredRelationships
    } else {
        NotificationType::Unknown
    }
}

impl NotificationType {
    /// The kind of notification that the name `name` stands for in a
    /// message.
    pub fn from_name(name: &str) -> (r: NotificationType)
        ensures
            r == notification_type_named(name@),
    {
        if same_text(name, "mention") {
            NotificationType::Mention
        } else if same_text(name, "reblog") {
            NotificationType::Reblog
        } else if same_text(name, "favourite") {
            NotificationType::Favourite
        } else if same_text(name, "follow") {
            NotificationType::Follow
        } else if same_text(name, "follow_request") {
            NotificationType::FollowRequest
        } else if same_text(name, "poll") {
            NotificationType::Poll
        } else if same_text(name, "update") {
            NotificationType::Update
        } else if same_text(name, "admin_sign_up") {
            NotificationType::AdminSignUp
        } else if same_text(name, "admin_report") {
            NotificationType::AdminReport
        } else if same_text(name, "severed_relationships") {
            NotificationType::SeveredRelationships
        } else {
            NotificationType::Unknown
        }
    }
}

/// A notification as the backend reads it: the identifier, by which pages
/// are cut, and the document that is relayed to the peer.
#[derive(Debug, Clone, PartialEq, Eq)]
pub struct Notification {
    pub id: String,
    pub document: Json,
}

/// What a `Notification` is, as a mathematical value.
pub ghost struct NotificationModel {
    pub id: Seq<char>,
    pub document: JsonModel,
}

impl View for Notification {
    type V = NotificationModel;

    open spec fn view(&self) -> NotificationModel {
        NotificationModel { id: self.id@, document: self.document@ }
    }
}

/// The models of the notifications in `notifications`.
pub open spec fn notifications_view(notifications: Seq<Notification>) -> Seq<NotificationModel> {
    Seq::new(notifications.len(), |i: int| notifications[i]@)
}

/// Which kinds of notification the user does not want to see.
#[derive(Debug, Clone, Copy, PartialEq, Eq, Structural)]
pub struct NotificationFilter {
    pub exclude_mentions: bool,
    pub exclude_reblogs: bool,
    pub exclude_favourites: bool,
    pub exclude_follows: bool,
    pub exclude_follow_requests: bool,
    pub exclude_polls: bool,
    pub exclude_updates: bool,
}

impl Default for NotificationFilter {
    /// The filter that excludes nothing.
    fn default() -> (r: Self)
        ensures
            r == (NotificationFilter {
                exclude_mentions: false,
                exclude_reblogs: false,
                exclude_favourites: false,
                exclude_follows: false,
                exclude_follow_requests: false,
                exclude_polls: false,
                exclude_updates: false,
            }),
    {
        NotificationFilter {
            exclude_mentions: false,
            exclude_reblogs: false,
            exclude_favourites: false,
            exclude_follows: false,
            exclude_follow_requests: false,
            exclude_polls: false,
            exclude_updates: false,
        }
    }
}

/// What a peer sends to read notifications.
#[derive(Debug, Clone, PartialEq, Eq)]
pub struct NotificationRequest {
    /// Return notifications older than this one.
    pub max_id: Option<String>,
    /// Return notifications newer than this one.
    pub since_id: Option<String>,
    /// Return the notifications that follow this one.
    pub min_id: Option<String>,
    /// The largest number of notifications to return.
    pub limit: Option<u32>,
    /// Return these kinds alone.
    pub types: Option<Vec<NotificationType>>,
    /// Leave these kinds out.
    pub exclude_types: Option<Vec<NotificationType>>,
}

/// What a `NotificationRequest` is, as a mathematical value.
pub ghost struct NotificationRequestModel {
    pub max_id: Option<Seq<char>>,
    pub since_id: Option<Seq<char>>,
    pub min_id: Option<Seq<char>>,
    pub limit: Option<int>,
    pub types: Option<Seq<NotificationType>>,
    pub exclude_types: Option<Seq<NotificationType>>,
}

/// The kinds in an optional list.
pub open spec fn optional_kinds(kinds: Option<Vec<NotificationType>>) -> Option<
    Seq<NotificationType>,
> {
    match kinds {
        Some(k) => Some(k@),
        None => None,
    }
}

impl View for NotificationRequest {
    type V = NotificationRequestModel;

    open spec fn view(&self) -> NotificationRequestModel {
        NotificationRequestModel {
            max_id: optional_text(self.max_id),
            since_id: optional_text(self.since_id),
            min_id: optional_text(self.min_id),
            limit: optional_count(self.limit),
            types: optional_kinds(self.types),
            exclude_types: optional_kinds(self.exclude_types),
        }
    }
}

/// The kinds that the member `key` of `doc` lists, which may be absent or
/// `null`: an array of names.
pub open spec fn kinds_member(doc: JsonModel, key: Seq<char>) -> Result<
    Option<Seq<NotificationType>>,
    Seq<char>,
> {
    match doc.field(key) {
        None => Ok(None),
        Some(JsonModel::Null) => Ok(None),
        Some(v) => match v.texts() {
            Some(names) => Ok(
                Some(Seq::new(names.len(), |i: int| notification_type_named(names[i]))),
            ),
            None => Err(invalid(key)),
        },
    }
}

impl NotificationRequestModel {
    /// The request that asks for nothing in particular.
    pub open spec fn empty() -> NotificationRequestModel {
        NotificationRequestModel {
            max_id: None,
            since_id: None,
            min_id: None,
            limit: None,
            types: None,
            exclude_types: None,
        }
    }

    /// The request that the document `doc` describes, or why it describes
    /// none. The members are read in the order in which a request lists
    /// them, and the first that fails gives the reason.
    pub open spec fn of_json(doc: JsonModel) -> Result<NotificationRequestModel, Seq<char>> {
        match doc.optional_text_member("max_id"@) {
            Err(e) => Err(e),
            Ok(max_id) => match doc.optional_text_member("since_id"@) {
                Err(e) => Err(e),
                Ok(since_id) => match doc.optional_text_member("min_id"@) {
                    Err(e) => Err(e),
                    Ok(min_id) => match doc.optional_count_member("limit"@, u32::MAX as int) {
                        Err(e) => Err(e),
                        Ok(limit) => match kinds_member(doc, "types"@) {
                            Err(e) => Err(e),
                            Ok(types) => match kinds_member(doc, "exclude_types"@) {
                                Err(e) => Err(e),
                                Ok(exclude_types) => Ok(
                                    NotificationRequestModel {
                                        max_id,
                                        since_id,
                                        min_id,
                                        limit,
                                        types,
                                        exclude_types,
                                    },
                                ),
                            },
                        },
                    },
                },
            },
        }
    }
}

impl Default for NotificationRequest {
    /// The request that asks for nothing in particular.
    fn default() -> (r: Self)
        ensures
            r@ == NotificationRequestModel::empty(),
    {
        NotificationRequest {
            max_id: None,
            since_id: None,
            min_id: None,
            limit: None,
            types: None,
            exclude_types: None,
        }
    }
}

impl NotificationRequest {
    /// The kinds that the member `key` of `doc` lists.
    fn kinds_member(doc: &Json, key: &str) -> (r: Result<Option<Vec<NotificationType>>, String>)
        ensures
            match r {
                Ok(k) => kinds_member(doc@, key@) == Ok::<
                    Option<Seq<NotificationType>>,
                    Seq<char>,
                >(optional_kinds(k)),
                Err(e) => kinds_member(doc@, key@) == Err::<
                    Option<Seq<NotificationType>>,
                    Seq<char>,
                >(e@),
            },
    {
        match doc.get(key) {
            None => Ok(None),
            Some(Json::Null) => Ok(None),
            Some(v) => match v.as_texts() {
                Some(names) => {
                    let mut kinds: Vec<NotificationType> = Vec::new();
                    let mut i: usize = 0;
                    while i < names.len()
                        invariant
                            i <= names.len(),
                            kinds@.len() == i,
                            forall|k: int|
                                0 <= k < i ==> kinds@[k] == notification_type_named(names@[k]@),
                        decreases names.len() - i,
                    {
                        kinds.push(NotificationType::from_name(names[i].as_str()));
                        i += 1;
                    }
                    let ghost texts = crate::json::texts_view(names@);
                    assert(kinds@ =~= Seq::new(
                        texts.len(),
                        |i: int| notification_type_named(texts[i]),
                    ));
                    Ok(Some(kinds))
                },
                None => Err(invalid_member(key)),
            },
        }
    }

    /// The request that the document `doc` describes, or why it describes
    /// none.
    pub fn from_json(doc: &Json) -> (r: Result<NotificationRequest, String>)
        ensures
            match r {
                Ok(q) => NotificationRequestModel::of_json(doc@) == Ok::<
                    NotificationRequestModel,
                    Seq<char>,
                >(q@),
                Err(e) => NotificationRequestModel::of_json(doc@) == Err::<
                    NotificationRequestModel,
                    Seq<char>,
                >(e@),
            },
    {
        let max_id = match doc.optional_text_member("max_id") {
            Ok(v) => v,
            Err(e) => {
                return Err(e);
            },
        };
        let since_id = match doc.optional_text_member("since_id") {
            Ok(v) => v,
            Err(e) => {
                return Err(e);
            },
        };
        let min_id = match doc.optional_text_member("min_id") {
            Ok(v) => v,
            Err(e) => {
                return Err(e);
            },
        };
        let limit = match doc.optional_u32_member("limit") {
            Ok(v) => v,
            Err(e) => {
                return Err(e);
            },
        };
        let types = match Self::kinds_member(doc, "types") {
            Ok(v) => v,
            Err(e) => {
                return Err(e);
            },
        };
        let exclude_types = match Self::kinds_member(doc, "exclude_types") {
            Ok(v) => v,
            Err(e) => {
                return Err(e);
            },
        };
        Ok(NotificationRequest { max_id, since_id, min_id, limit, types, exclude_types })
    }
}

/// One page of notifications.
#[derive(Debug, Clone, PartialEq, Eq)]
pub struct NotificationResponse {
    pub notifications: Vec<Notification>,
    /// The identifier of the first notification of the page.
    pub max_id: Option<String>,
    /// The identifier of the last notification of the page.
    pub min_id: Option<String>,
    /// Whether the page is full, so that more notifications may follow.
    pub has_more: bool,
}

/// What a `NotificationResponse` is, as a mathematical value.
pub ghost struct NotificationResponseModel {
    pub notifications: Seq<NotificationModel>,
    pub max_id: Option<Seq<char>>,
    pub min_id: Option<Seq<char>>,
    pub has_more: bool,
}

impl View for NotificationResponse {
    type V = NotificationResponseModel;

    open spec fn view(&self) -> NotificationResponseModel {
        NotificationResponseModel {
            notifications: notifications_view(self.notifications@),
            max_id: optional_text(self.max_id),
            min_id: optional_text(self.min_id),
            has_more: self.has_more,
        }
    }
}

impl NotificationResponseModel {
    /// The page that is cut from `notifications` where at most `limit` were
    /// asked for.
    pub open spec fn page(notifications: Seq<NotificationModel>, limit: int)
        -> NotificationResponseModel {
        NotificationResponseModel {
            notifications,
            max_id: if notifications.len() > 0 {
                Some(notifications.first().id)
            } else {
                None
            },
            min_id: if notifications.len() > 0 {
                Some(notifications.last().id)
            } else {
                None
            },
            has_more: notifications.len() == limit,
        }
    }

    /// The document that is sent for the page.
    pub open spec fn to_json(self) -> JsonModel {
        JsonModel::Object(
            seq![
                (
                    "notifications"@,
                    JsonModel::Array(
                        Seq::new(self.notifications.len(), |i: int| self.notifications[i].document),
                    ),
                ),
                ("max_id"@, text_or_null(self.max_id)),
                ("min_id"@, text_or_null(self.min_id)),
                ("has_more"@, JsonModel::Bool(self.has_more)),
            ],
        )
    }
}

impl NotificationResponse {
    /// The page that is cut from `notifications` where at most `limit` were
    /// asked for.
    pub fn page(notifications: Vec<Notification>, limit: u32) -> (r: NotificationResponse)
        ensures
            r@ == NotificationResponseModel::page(notifications_view(notifications@), limit as int),
    {
        let max_id = if notifications.len() > 0 {
            Some(notifications[0].id.clone())
        } else {
            None
        };
        let min_id = if notifications.len() > 0 {
            Some(notifications[notifications.len() - 1].id.clone())
        } else {
            None
        };
        let has_more = notifications.len() == limit as usize;
        NotificationResponse { notifications, max_id, min_id, has_more }
    }

    /// The document that is sent for the page.
    pub fn to_json(&self) -> (r: Json)
        ensures
            r@ == self@.to_json(),
    {
        let mut documents: Vec<Json> = Vec::new();
        let mut i: usize = 0;
        while i < self.notifications.len()
            invariant
                i <= self.notifications.len(),
                documents@.len() == i,
                forall|k: int| 0 <= k < i ==> documents@[k]@ == self.notifications@[k].document@,
            decreases self.notifications.len() - i,
        {
            documents.push(self.notifications[i].document.duplicate());
            i += 1;
        }
        let ghost page = self@;
        assert(items_view(documents@) =~= Seq::new(
            page.notifications.len(),
            |i: int| page.notifications[i].document,
        ));
        let out = ObjectBuilder::new().member("notifications", Json::array(documents)).member(
            "max_id",
            Json::optional_text(&self.max_id),
        ).member("min_id", Json::optional_text(&self.min_id)).member(
            "has_more",
            Json::Bool(self.has_more),
        ).build();
        assert(out@->Object_0 =~= page.to_json()->Object_0);
        out
    }
}

} // verus!
