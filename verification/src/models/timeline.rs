//! Timelines: which one a peer asks for, and the page that it gets.

use crate::ids::random_id;
use crate::ids::is_identifier;
use crate::json::invalid;
use crate::json::invalid_member;
use crate::json::items_view;
use crate::json::missing;
use crate::json::missing_member;
use crate::json::Json;
use crate::json::JsonModel;
use crate::json::ObjectBuilder;
use crate::models::ipc_message::optional_text;
use crate::models::post::posts_view;
use crate::models::post::Post;
use crate::models::post::PostModel;
use crate::text::join;
use crate::text::same_text;
use vstd::prelude::*;

verus! {

/// The kind of a timeline, with what selects it.
#[derive(Debug, Clone, PartialEq, Eq, Hash)]
pub enum TimelineType {
    /// Posts of the accounts that the user follows.
    Home,
    /// Posts of the user's own instance.
    Local,
    /// Posts of every instance that the user's instance knows.
    Federated,
    Notifications,
    /// Direct messages.
    Direct,
    /// Posts of one account.
    User { user_id: String },
    /// Posts that carry one hashtag.
    Hashtag { tag: String },
    /// Posts of the members of one list.
    List { list_id: String },
    Bookmarks,
    Favourites,
    Trending,
    /// Posts that a search finds.
    Search { query: String },
}

/// What a `TimelineType` is, as a mathematical value.
pub ghost enum TimelineTypeModel {
    Home,
    Local,
    Federated,
    Notifications,
    Direct,
    User { user_id: Seq<char> },
    Hashtag { tag: Seq<char> },
    List { list_id: Seq<char> },
    Bookmarks,
    Favourites,
    Trending,
    Search { query: Seq<char> },
}

impl View for TimelineType {
    type V = TimelineTypeModel;

    open spec fn view(&self) -> TimelineTypeModel {
        match self {
            TimelineType::Home => TimelineTypeModel::Home,
            TimelineType::Local => TimelineTypeModel::Local,
            TimelineType::Federated => TimelineTypeModel::Federated,
            TimelineType::Notifications => TimelineTypeModel::Notifications,
            TimelineType::Direct => TimelineTypeModel::Direct,
            TimelineType::User { user_id } => TimelineTypeModel::User { user_id: user_id@ },
            TimelineType::Hashtag { tag } => TimelineTypeModel::Hashtag { tag: tag@ },
            TimelineType::List { list_id } => TimelineTypeModel::List { list_id: list_id@ },
            TimelineType::Bookmarks => TimelineTypeModel::Bookmarks,
            TimelineType::Favourites => TimelineTypeModel::Favourites,
            TimelineType::Trending => TimelineTypeModel::Trending,
            TimelineType::Search { query } => TimelineTypeModel::Search { query: query@ },
        }
    }
}

impl TimelineTypeModel {
    /// The name under which the timeline is shown.
    pub open spec fn display_name(self) -> Seq<char> {
        match self {
            TimelineTypeModel::Home => "Home"@,
            TimelineTypeModel::Local => "Local"@,
            TimelineTypeModel::Federated => "Federated"@,
            TimelineTypeModel::Notifications => "Notifications"@,
            TimelineTypeModel::Direct => "Direct Messages"@,
            TimelineTypeModel::User { user_id } => "User: "@ + user_id,
            TimelineTypeModel::Hashtag { tag } => "#"@ + tag,
            TimelineTypeModel::List { list_id } => "List: "@ + list_id,
            TimelineTypeModel::Bookmarks => "Bookmarks"@,
            TimelineTypeModel::Favourites => "Favourites"@,
            TimelineTypeModel::Trending => "Trending"@,
            TimelineTypeModel::Search { query } => "Search: "@ + query,
        }
    }

    /// The timeline that a name alone selects.
    pub open spec fn named(name: Seq<char>) -> Option<TimelineTypeModel> {
        if name == "home"@ {
            Some(TimelineTypeModel::Home)
        } else if name == "local"@ {
            Some(TimelineTypeModel::Local)
        } else if name == "federated"@ {
            Some(TimelineTypeModel::Federated)
        } else if name == "notifications"@ {
            Some(TimelineTypeModel::Notifications)
        } else if name == "direct"@ {
            Some(TimelineTypeModel::Direct)
        } else if name == "bookmarks"@ {
            Some(TimelineTypeModel::Bookmarks)
        } else if name == "favourites"@ {
            Some(TimelineTypeModel::Favourites)
        } else if name == "trending"@ {
            Some(TimelineTypeModel::Trending)
        } else {
            None
        }
    }

    /// The timeline that the name `name` selects together with the members
    /// of `body`.
    pub open spec fn selected(name: Seq<char>, body: JsonModel) -> Result<
        TimelineTypeModel,
        Seq<char>,
    > {
        if name == "user"@ {
            match body.required_text_member("user_id"@) {
                Ok(user_id) => Ok(TimelineTypeModel::User { user_id }),
                Err(e) => Err(e),
            }
        } else if name == "hashtag"@ {
            match body.required_text_member("tag"@) {
                Ok(tag) => Ok(TimelineTypeModel::Hashtag { tag }),
                Err(e) => Err(e),
            }
        } else if name == "list"@ {
            match body.required_text_member("list_id"@) {
                Ok(list_id) => Ok(TimelineTypeModel::List { list_id }),
                Err(e) => Err(e),
            }
        } else if name == "search"@ {
            match body.required_text_member("query"@) {
                Ok(query) => Ok(TimelineTypeModel::Search { query }),
                Err(e) => Err(e),
            }
        } else {
            Err(invalid("timeline_type"@))
        }
    }

    /// The timeline that the document `doc` stands for: a name, or an object
    /// whose one member is named after the kind and holds what selects the
    /// timeline.
    pub open spec fn of_json(doc: JsonModel) -> Result<TimelineTypeModel, Seq<char>> {
        match doc {
            JsonModel::Text(name) => match Self::named(name) {
                Some(t) => Ok(t),
                None => Err(invalid("timeline_type"@)),
            },
            JsonModel::Object(members) => if members.len() == 1 {
                Self::selected(members[0].0, members[0].1)
            } else {
                Err(invalid("timeline_type"@))
            },
            _ => Err(invalid("timeline_type"@)),
        }
    }
}

/// Whether `r` is the timeline that `expected` holds, or its reason.
pub open spec fn is_timeline_type(r: Result<TimelineType, String>, expected: Result<
    TimelineTypeModel,
    Seq<char>,
>) -> bool {
    match r {
        Ok(t) => expected == Ok::<TimelineTypeModel, Seq<char>>(t@),
        Err(e) => expected == Err::<TimelineTypeModel, Seq<char>>(e@),
    }
}

impl TimelineType {
    /// The name under which the timeline is shown.
    pub fn display_name(&self) -> (r: String)
        ensures
            r@ == self@.display_name(),
    {
        match self {
            TimelineType::Home => String::from_str("Home"),
            TimelineType::Local => String::from_str("Local"),
            TimelineType::Federated => String::from_str("Federated"),
            TimelineType::Notifications => String::from_str("Notifications"),
            TimelineType::Direct => String::from_str("Direct Messages"),
            TimelineType::User { user_id } => join("User: ", user_id.as_str()),
            TimelineType::Hashtag { tag } => join("#", tag.as_str()),
            TimelineType::List { list_id } => join("List: ", list_id.as_str()),
            TimelineType::Bookmarks => String::from_str("Bookmarks"),
            TimelineType::Favourites => String::from_str("Favourites"),
            TimelineType::Trending => String::from_str("Trending"),
            TimelineType::Search { query } => join("Search: ", query.as_str()),
        }
    }

    /// A copy of the timeline type.
    pub fn duplicate(&self) -> (r: Self)
        ensures
            r@ == self@,
    {
        match self {
            TimelineType::Home => TimelineType::Home,
            TimelineType::Local => TimelineType::Local,
            TimelineType::Federated => TimelineType::Federated,
            TimelineType::Notifications => TimelineType::Notifications,
            TimelineType::Direct => TimelineType::Direct,
            TimelineType::User { user_id } => TimelineType::User { user_id: user_id.clone() },
            TimelineType::Hashtag { tag } => TimelineType::Hashtag { tag: tag.clone() },
            TimelineType::List { list_id } => TimelineType::List { list_id: list_id.clone() },
            TimelineType::Bookmarks => TimelineType::Bookmarks,
            TimelineType::Favourites => TimelineType::Favourites,
            TimelineType::Trending => TimelineType::Trending,
            TimelineType::Search { query } => TimelineType::Search { query: query.clone() },
        }
    }

    /// The timeline that a name alone selects.
    fn named(name: &str) -> (r: Option<TimelineType>)
        ensures
            match r {
                Some(t) => TimelineTypeModel::named(name@) == Some(t@),
                None => TimelineTypeModel::named(name@) is None,
            },
    {
        if same_text(name, "home") {
            Some(TimelineType::Home)
        } else if same_text(name, "local") {
            Some(TimelineType::Local)
        } else if same_text(name, "federated") {
            Some(TimelineType::Federated)
        } else if same_text(name, "notifications") {
            Some(TimelineType::Notifications)
        } else if same_text(name, "direct") {
            Some(TimelineType::Direct)
        } else if same_text(name, "bookmarks") {
            Some(TimelineType::Bookmarks)
        } else if same_text(name, "favourites") {
            Some(TimelineType::Favourites)
        } else if same_text(name, "trending") {
            Some(TimelineType::Trending)
        } else {
            None
        }
    }

    /// The timeline that the name `name` selects together with the members
    /// of `body`.
    fn selected(name: &str, body: &Json) -> (r: Result<TimelineType, String>)
        ensures
            is_timeline_type(r, TimelineTypeModel::selected(name@, body@)),
    {
        if same_text(name, "user") {
            match body.required_text_member("user_id") {
                Ok(user_id) => Ok(TimelineType::User { user_id }),
                Err(e) => Err(e),
            }
        } else if same_text(name, "hashtag") {
            match body.required_text_member("tag") {
                Ok(tag) => Ok(TimelineType::Hashtag { tag }),
                Err(e) => Err(e),
            }
        } else if same_text(name, "list") {
            match body.required_text_member("list_id") {
                Ok(list_id) => Ok(TimelineType::List { list_id }),
                Err(e) => Err(e),
            }
        } else if same_text(name, "search") {
            match body.required_text_member("query") {
                Ok(query) => Ok(TimelineType::Search { query }),
                Err(e) => Err(e),
            }
        } else {
            Err(invalid_member("timeline_type"))
        }
    }

    /// The timeline that the document `doc` stands for, or why it stands for
    /// none.
    pub fn from_json(doc: &Json) -> (r: Result<TimelineType, String>)
        ensures
            is_timeline_type(r, TimelineTypeModel::of_json(doc@)),
    {
        match doc {
            Json::Text(name) => match Self::named(name.as_str()) {
                Some(t) => Ok(t),
                None => Err(invalid_member("timeline_type")),
            },
            Json::Object(members) => {
                proof {
                    crate::json::lemma_object_view(*members);
                }
                if members.len() == 1 {
                    Self::selected(members[0].0.as_str(), &members[0].1)
                } else {
                    Err(invalid_member("timeline_type"))
                }
            },
            _ => Err(invalid_member("timeline_type")),
        }
    }
}

/// How densely a timeline is shown.
#[derive(Debug, Clone, Copy, PartialEq, Eq, Structural)]
pub enum DisplayDensity {
    Compact,
    Normal,
    Comfortable,
}

impl Default for DisplayDensity {
    fn default() -> (r: Self)
        ensures
            r == DisplayDensity::Normal,
    {
        DisplayDensity::Normal
    }
}

/// How one timeline of the user interface behaves.
#[derive(Debug, Clone, PartialEq, Eq)]
pub struct TimelineSettings {
    /// The identifier of this timeline among those that are shown.
    pub id: String,
    pub timeline_type: TimelineType,
    pub auto_refresh: bool,
    pub refresh_interval_secs: u64,
    pub posts_per_fetch: u32,
    pub sound_enabled: bool,
    pub desktop_notifications: bool,
    pub hide_boosts: bool,
    pub hide_replies: bool,
    pub hide_media_only: bool,
    pub display_density: DisplayDensity,
    /// Whether the place to which the user scrolled is kept.
    pub persist_position: bool,
}

impl TimelineSettings {
    /// Whether these are the settings that a timeline starts with, but for
    /// its identifier.
    pub open spec fn is_initial(self) -> bool {
        &&& self.timeline_type@ == TimelineTypeModel::Home
        &&& self.auto_refresh
        &&& self.refresh_interval_secs == 60
        &&& self.posts_per_fetch == 20
        &&& self.sound_enabled
        &&& !self.desktop_notifications
        &&& !self.hide_boosts
        &&& !self.hide_replies
        &&& !self.hide_media_only
        &&& self.display_density == DisplayDensity::Normal
        &&& self.persist_position
    }

    /// The settings that a timeline with the identifier `id` starts with.
    pub fn with_id(id: String) -> (r: Self)
        ensures
            r.is_initial(),
            r.id == id,
    {
        TimelineSettings {
            id,
            timeline_type: TimelineType::Home,
            auto_refresh: true,
            refresh_interval_secs: 60,
            posts_per_fetch: 20,
            sound_enabled: true,
            desktop_notifications: false,
            hide_boosts: false,
            hide_replies: false,
            hide_media_only: false,
            display_density: DisplayDensity::Normal,
            persist_position: true,
        }
    }
}

impl Default for TimelineSettings {
    /// The settings that a timeline starts with, under a new random
    /// identifier.
    fn default() -> (r: Self)
        ensures
            r.is_initial(),
            is_identifier(r.id@),
    {
        TimelineSettings::with_id(random_id())
    }
}

/// What a peer sends to read a timeline.
#[derive(Debug, Clone, PartialEq, Eq)]
pub struct TimelineRequest {
    pub timeline_type: TimelineType,
    /// The largest number of posts to return.
    pub limit: Option<u32>,
    /// Return posts older than this one.
    pub max_id: Option<String>,
    /// Return posts newer than this one.
    pub since_id: Option<String>,
    /// Return the posts that follow this one.
    pub min_id: Option<String>,
}

/// What a `TimelineRequest` is, as a mathematical value.
pub ghost struct TimelineRequestModel {
    pub timeline_type: TimelineTypeModel,
    pub limit: Option<int>,
    pub max_id: Option<Seq<char>>,
    pub since_id: Option<Seq<char>>,
    pub min_id: Option<Seq<char>>,
}

/// The value of an optional count.
pub open spec fn optional_count(n: Option<u32>) -> Option<int> {
    match n {
        Some(k) => Some(k as int),
        None => None,
    }
}

impl View for TimelineRequest {
    type V = TimelineRequestModel;

    open spec fn view(&self) -> TimelineRequestModel {
        TimelineRequestModel {
            timeline_type: self.timeline_type@,
            limit: optional_count(self.limit),
            max_id: optional_text(self.max_id),
            since_id: optional_text(self.since_id),
            min_id: optional_text(self.min_id),
        }
    }
}

impl TimelineRequestModel {
    /// The request that the document `doc` describes, or why it describes
    /// none. The members are read in the order in which a request lists
    /// them, and the first that fails gives the reason.
    pub open spec fn of_json(doc: JsonModel) -> Result<TimelineRequestModel, Seq<char>> {
        match doc.field("timeline_type"@) {
            None => Err(missing("timeline_type"@)),
            Some(t) => match TimelineTypeModel::of_json(t) {
                Err(e) => Err(e),
                Ok(timeline_type) => match doc.optional_count_member("limit"@, u32::MAX as int) {
                    Err(e) => Err(e),
                    Ok(limit) => match doc.optional_text_member("max_id"@) {
                        Err(e) => Err(e),
                        Ok(max_id) => match doc.optional_text_member("since_id"@) {
                            Err(e) => Err(e),
                            Ok(since_id) => match doc.optional_text_member("min_id"@) {
                                Err(e) => Err(e),
                                Ok(min_id) => Ok(
                                    TimelineRequestModel {
                                        timeline_type,
                                        limit,
                                        max_id,
                                        since_id,
                                        min_id,
                                    },
                                ),
                            },
                        },
                    },
                },
            },
        }
    }
}

impl TimelineRequest {
    /// The request that the document `doc` describes, or why it describes
    /// none.
    pub fn from_json(doc: &Json) -> (r: Result<TimelineRequest, String>)
        ensures
            match r {
                Ok(q) => TimelineRequestModel::of_json(doc@) == Ok::<
                    TimelineRequestModel,
                    Seq<char>,
                >(q@),
                Err(e) => TimelineRequestModel::of_json(doc@) == Err::<
                    TimelineRequestModel,
                    Seq<char>,
                >(e@),
            },
    {
        let timeline_type = match doc.get("timeline_type") {
            None => {
                return Err(missing_member("timeline_type"));
            },
            Some(t) => match TimelineType::from_json(t) {
                Ok(v) => v,
                Err(e) => {
                    return Err(e);
                },
            },
        };
        let limit = match doc.optional_u32_member("limit") {
            Ok(v) => v,
            Err(e) => {
                return Err(e);
            },
        };
        let max_id = match doc.optional_text_member("max_id") {
            Ok(v) => v,
            Err(e) => {
                return Err(e);
            },
        };
        let since_id = match doc.optional_text_member("since_id") {
            Ok(v) => v,
            Err(e) => {
                return Err(e);
            },
        };
        let min_id = match doc.optional_text_member("min_id") {
            Ok(v) => v,
            Err(e) => {
                return Err(e);
            },
        };
        Ok(TimelineRequest { timeline_type, limit, max_id, since_id, min_id })
    }
}

/// One page of a timeline.
#[derive(Debug, Clone, PartialEq, Eq)]
pub struct TimelineResponse {
    pub posts: Vec<Post>,
    /// The identifier of the first post of the page.
    pub max_id: Option<String>,
    /// The identifier of the last post of the page.
    pub min_id: Option<String>,
    /// Whether the page is full, so that more posts may follow.
    pub has_more: bool,
}

/// What a `TimelineResponse` is, as a mathematical value.
pub ghost struct TimelineResponseModel {
    pub posts: Seq<PostModel>,
    pub max_id: Option<Seq<char>>,
    pub min_id: Option<Seq<char>>,
    pub has_more: bool,
}

impl View for TimelineResponse {
    type V = TimelineResponseModel;

    open spec fn view(&self) -> TimelineResponseModel {
        TimelineResponseModel {
            posts: posts_view(self.posts@),
            max_id: optional_text(self.max_id),
            min_id: optional_text(self.min_id),
            has_more: self.has_more,
        }
    }
}

/// The document of an optional text: the text, or `null`.
pub open spec fn text_or_null(text: Option<Seq<char>>) -> JsonModel {
    match text {
        Some(t) => JsonModel::Text(t),
        None => JsonModel::Null,
    }
}

impl TimelineResponseModel {
    /// The page that is cut from `posts` where at most `limit` were asked
    /// for.
    pub open spec fn page(posts: Seq<PostModel>, limit: int) -> TimelineResponseModel {
        TimelineResponseModel {
            posts,
            max_id: if posts.len() > 0 {
                Some(posts.first().id)
            } else {
                None
            },
            min_id: if posts.len() > 0 {
                Some(posts.last().id)
            } else {
                None
            },
            has_more: posts.len() == limit,
        }
    }

    /// The document that is sent for the page.
    pub open spec fn to_json(self) -> JsonModel {
        JsonModel::Object(
            seq![
                ("posts"@, JsonModel::Array(Seq::new(self.posts.len(), |i: int| self.posts[i].document))),
                ("max_id"@, text_or_null(self.max_id)),
                ("min_id"@, text_or_null(self.min_id)),
                ("has_more"@, JsonModel::Bool(self.has_more)),
            ],
        )
    }
}

impl TimelineResponse {
    /// The page that is cut from `posts` where at most `limit` were asked
    /// for.
    pub fn page(posts: Vec<Post>, limit: u32) -> (r: TimelineResponse)
        ensures
            r@ == TimelineResponseModel::page(posts_view(posts@), limit as int),
    {
        let max_id = if posts.len() > 0 {
            Some(posts[0].id.clone())
        } else {
            None
        };
        let min_id = if posts.len() > 0 {
            Some(posts[posts.len() - 1].id.clone())
        } else {
            None
        };
        let has_more = posts.len() == limit as usize;
        TimelineResponse { posts, max_id, min_id, has_more }
    }

    /// The document that is sent for the page.
    pub fn to_json(&self) -> (r: Json)
        ensures
            r@ == self@.to_json(),
    {
        let mut documents: Vec<Json> = Vec::new();
        let mut i: usize = 0;
        while i < self.posts.len()
            invariant
                i <= self.posts.len(),
                documents@.len() == i,
                forall|k: int| 0 <= k < i ==> documents@[k]@ == self.posts@[k].document@,
            decreases self.posts.len() - i,
        {
            documents.push(self.posts[i].document.duplicate());
            i += 1;
        }
        let ghost page = self@;
        assert(items_view(documents@) =~= Seq::new(
            page.posts.len(),
            |i: int| page.posts[i].document,
        ));
        let out = ObjectBuilder::new().member("posts", Json::array(documents)).member(
            "max_id",
            Json::optional_text(&self.max_id),
        ).member("min_id", Json::optional_text(&self.min_id)).member(
            "has_more",
            Json::Bool(self.has_more),
        ).build();
        assert(out@->Object_0 =~= page.to_json()->Object_0);
        out
    }
}

} // verus!
