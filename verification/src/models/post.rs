//! Posts, and what a peer sends to write one.

use crate::clock::parse_time;
use crate::clock::parsed_time;
use crate::json::invalid;
use crate::json::invalid_member;
use crate::json::missing;
use crate::json::missing_member;
use crate::json::texts_view;
use crate::json::Json;
use crate::json::JsonModel;
use crate::models::ipc_message::optional_text;
use crate::text::same_text;
use vstd::prelude::*;

verus! {

/// Who may see a post.
#[derive(Debug, Clone, Copy, PartialEq, Eq, Structural)]
pub enum Visibility {
    Public,
    Unlisted,
    Private,
    Direct,
}

impl Default for Visibility {
    fn default() -> (r: Self)
        ensures
            r == Visibility::Public,
    {
        Visibility::Public
    }
}

/// The visibility that the name `name` stands for in a message.
pub open spec fn visibility_named(name: Seq<char>) -> Option<Visibility> {
    if name == "public"@ {
        Some(Visibility::Public)
    } else if name == "unlisted"@ {
        Some(Visibility::Unlisted)
    } else if name == "private"@ {
        Some(Visibility::Private)
    } else if name == "direct"@ {
        Some(Visibility::Direct)
    } else {
        None
    }
}

impl Visibility {
    /// The visibility that the name `name` stands for in a message.
    pub fn from_name(name: &str) -> (r: Option<Visibility>)
        ensures
            r == visibility_named(name@),
    {
        if same_text(name, "public") {
            Some(Visibility::Public)
        } else if same_text(name, "unlisted") {
            Some(Visibility::Unlisted)
        } else if same_text(name, "private") {
            Some(Visibility::Private)
        } else if same_text(name, "direct") {
            Some(Visibility::Direct)
        } else {
            None
        }
    }
}

/// One answer of a poll.
#[derive(Debug, Clone, PartialEq, Eq)]
pub struct PollOption {
    pub title: String,
    pub votes_count: Option<u64>,
}

/// The application with which a post was written.
#[derive(Debug, Clone, PartialEq, Eq)]
pub struct Application {
    pub name: String,
    pub website: Option<String>,
}

/// A hashtag that a post carries.
#[derive(Debug, Clone, PartialEq, Eq)]
pub struct Tag {
    pub name: String,
    pub url: String,
}

/// An account that a post mentions.
#[derive(Debug, Clone, PartialEq, Eq)]
pub struct Mention {
    pub id: String,
    pub username: String,
    pub acct: String,
    pub url: String,
}

/// A picture that stands for a short code in the text of posts.
#[derive(Debug, Clone, PartialEq, Eq)]
pub struct CustomEmoji {
    pub shortcode: String,
    pub url: String,
    pub static_url: String,
    pub visible_in_picker: bool,
    pub category: Option<String>,
}

/// A post as the backend reads it: the identifier, by which pages are cut,
/// and the document that is relayed to the peer.
#[derive(Debug, Clone, PartialEq, Eq)]
pub struct Post {
    pub id: String,
    pub document: Json,
}

/// What a `Post` is, as a mathematical value.
pub ghost struct PostModel {
    pub id: Seq<char>,
    pub document: JsonModel,
}

impl View for Post {
    type V = PostModel;

    open spec fn view(&self) -> PostModel {
        PostModel { id: self.id@, document: self.document@ }
    }
}

/// The models of the posts in `posts`.
pub open spec fn posts_view(posts: Seq<Post>) -> Seq<PostModel> {
    Seq::new(posts.len(), |i: int| posts[i]@)
}

/// A poll to attach to a new post.
#[derive(Debug, Clone, PartialEq, Eq)]
pub struct NewPoll {
    pub options: Vec<String>,
    pub expires_in: u64,
    pub multiple: bool,
    pub hide_totals: bool,
}

/// What a `NewPoll` is, as a mathematical value.
pub ghost struct NewPollModel {
    pub options: Seq<Seq<char>>,
    pub expires_in: int,
    pub multiple: bool,
    pub hide_totals: bool,
}

impl View for NewPoll {
    type V = NewPollModel;

    open spec fn view(&self) -> NewPollModel {
        NewPollModel {
            options: texts_view(self.options@),
            expires_in: self.expires_in as int,
            multiple: self.multiple,
            hide_totals: self.hide_totals,
        }
    }
}

/// The poll that the document `doc` describes, or why it describes none.
pub open spec fn new_poll_of(doc: JsonModel) -> Result<NewPollModel, Seq<char>> {
    match doc.required_texts_member("options"@) {
        Err(e) => Err(e),
        Ok(options) => match doc.required_count_member("expires_in"@, u64::MAX as int) {
            Err(e) => Err(e),
            Ok(expires_in) => match doc.required_flag_member("multiple"@) {
                Err(e) => Err(e),
                Ok(multiple) => match doc.required_flag_member("hide_totals"@) {
                    Err(e) => Err(e),
                    Ok(hide_totals) => Ok(
                        NewPollModel { options, expires_in, multiple, hide_totals },
                    ),
                },
            },
        },
    }
}

impl NewPoll {
    /// The poll that the document `doc` describes, or why it describes none.
    pub fn from_json(doc: &Json) -> (r: Result<NewPoll, String>)
        ensures
            match r {
                Ok(p) => new_poll_of(doc@) == Ok::<NewPollModel, Seq<char>>(p@),
                Err(e) => new_poll_of(doc@) == Err::<NewPollModel, Seq<char>>(e@),
            },
    {
        let options = match doc.required_texts_member("options") {
            Ok(v) => v,
            Err(e) => {
                return Err(e);
            },
        };
        let expires_in = match doc.required_u64_member("expires_in") {
            Ok(v) => v,
            Err(e) => {
                return Err(e);
            },
        };
        let multiple = match doc.required_flag_member("multiple") {
            Ok(v) => v,
            Err(e) => {
                return Err(e);
            },
        };
        let hide_totals = match doc.required_flag_member("hide_totals") {
            Ok(v) => v,
            Err(e) => {
                return Err(e);
            },
        };
        Ok(NewPoll { options, expires_in, multiple, hide_totals })
    }
}

/// What a peer sends to write a post. The time at which a post is to appear
/// is kept in whole milliseconds since the start of 1970 in UTC.
#[derive(Debug, Clone, PartialEq, Eq)]
pub struct NewPost {
    pub content: String,
    pub spoiler_text: Option<String>,
    pub visibility: Visibility,
    pub sensitive: bool,
    pub language: Option<String>,
    pub in_reply_to_id: Option<String>,
    pub media_ids: Vec<String>,
    pub poll: Option<NewPoll>,
    pub scheduled_at: Option<i64>,
    /// Whether the post is to be encrypted for its reader.
    pub blindodon_pm: bool,
}

/// The value of an optional point in time.
pub open spec fn optional_time(millis: Option<i64>) -> Option<int> {
    match millis {
        Some(m) => Some(m as int),
        None => None,
    }
}

/// What a `NewPost` is, as a mathematical value.
pub ghost struct NewPostModel {
    pub content: Seq<char>,
    pub spoiler_text: Option<Seq<char>>,
    pub visibility: Visibility,
    pub sensitive: bool,
    pub language: Option<Seq<char>>,
    pub in_reply_to_id: Option<Seq<char>>,
    pub media_ids: Seq<Seq<char>>,
    pub poll: Option<NewPollModel>,
    pub scheduled_at: Option<int>,
    pub blindodon_pm: bool,
}

/// The model of an optional poll.
pub open spec fn optional_poll(poll: Option<NewPoll>) -> Option<NewPollModel> {
    match poll {
        Some(p) => Some(p@),
        None => None,
    }
}

impl View for NewPost {
    type V = NewPostModel;

    open spec fn view(&self) -> NewPostModel {
        NewPostModel {
            content: self.content@,
            spoiler_text: optional_text(self.spoiler_text),
            visibility: self.visibility,
            sensitive: self.sensitive,
            language: optional_text(self.language),
            in_reply_to_id: optional_text(self.in_reply_to_id),
            media_ids: texts_view(self.media_ids@),
            poll: optional_poll(self.poll),
            scheduled_at: optional_time(self.scheduled_at),
            blindodon_pm: self.blindodon_pm,
        }
    }
}

/// The visibility that the member `visibility` of `doc` names.
pub open spec fn visibility_member(doc: JsonModel) -> Result<Visibility, Seq<char>> {
    match doc.field("visibility"@) {
        None => Err(missing("visibility"@)),
        Some(JsonModel::Text(name)) => match visibility_named(name) {
            Some(v) => Ok(v),
            None => Err(invalid("visibility"@)),
        },
        Some(_) => Err(invalid("visibility"@)),
    }
}

/// The poll that the member `poll` of `doc` describes, if there is one.
pub open spec fn poll_member(doc: JsonModel) -> Result<Option<NewPollModel>, Seq<char>> {
    match doc.field("poll"@) {
        None => Ok(None),
        Some(JsonModel::Null) => Ok(None),
        Some(p) => match new_poll_of(p) {
            Ok(poll) => Ok(Some(poll)),
            Err(e) => Err(e),
        },
    }
}

/// The time at which a post is to appear, given what the text of the member
/// `scheduled_at` was read as: that point in time, or the refusal of the
/// member where the text names none.
pub open spec fn accepted_schedule(parsed: Option<int>) -> Result<Option<int>, Seq<char>> {
    match parsed {
        Some(m) => Ok(Some(m)),
        None => Err(invalid("scheduled_at"@)),
    }
}

/// The time at which a post is to appear, as the member `scheduled_at` of
/// `doc` names it, if there is one: the member is a text that names a point
/// in time.
pub open spec fn schedule_member(doc: JsonModel) -> Result<Option<int>, Seq<char>> {
    match doc.field("scheduled_at"@) {
        None => Ok(None),
        Some(JsonModel::Null) => Ok(None),
        Some(JsonModel::Text(text)) => accepted_schedule(parsed_time(text)),
        Some(_) => Err(invalid("scheduled_at"@)),
    }
}

/// Whether `r` is the time that `expected` holds, or its reason.
pub open spec fn is_schedule(r: Result<Option<i64>, String>, expected: Result<
    Option<int>,
    Seq<char>,
>) -> bool {
    match r {
        Ok(t) => expected == Ok::<Option<int>, Seq<char>>(optional_time(t)),
        Err(e) => expected == Err::<Option<int>, Seq<char>>(e@),
    }
}

/// The new post that the document `doc` describes, or why it describes none.
/// The members are read in the order in which a new post lists them, and the
/// first that fails gives the reason.
pub open spec fn new_post_of(doc: JsonModel) -> Result<NewPostModel, Seq<char>> {
    match doc.required_text_member("content"@) {
        Err(e) => Err(e),
        Ok(content) => match doc.optional_text_member("spoiler_text"@) {
            Err(e) => Err(e),
            Ok(spoiler_text) => match visibility_member(doc) {
                Err(e) => Err(e),
                Ok(visibility) => match doc.required_flag_member("sensitive"@) {
                    Err(e) => Err(e),
                    Ok(sensitive) => match doc.optional_text_member("language"@) {
                        Err(e) => Err(e),
                        Ok(language) => match doc.optional_text_member("in_reply_to_id"@) {
                            Err(e) => Err(e),
                            Ok(in_reply_to_id) => match doc.required_texts_member("media_ids"@) {
                                Err(e) => Err(e),
                                Ok(media_ids) => match poll_member(doc) {
                                    Err(e) => Err(e),
                                    Ok(poll) => match schedule_member(doc) {
                                        Err(e) => Err(e),
                                        Ok(scheduled_at) => match doc.defaulted_flag_member(
                                            "blindodon_pm"@,
                                        ) {
                                            Err(e) => Err(e),
                                            Ok(blindodon_pm) => Ok(
                                                NewPostModel {
                                                    content,
                                                    spoiler_text,
                                                    visibility,
                                                    sensitive,
                                                    language,
                                                    in_reply_to_id,
                                                    media_ids,
                                                    poll,
                                                    scheduled_at,
                                                    blindodon_pm,
                                                },
                                            ),
                                        },
                                    },
                                },
                            },
                        },
                    },
                },
            },
        },
    }
}

impl NewPost {
    /// The time at which a post is to appear, given what the text of the
    /// member `scheduled_at` was read as.
    pub fn accept_schedule(parsed: Option<i64>) -> (r: Result<Option<i64>, String>)
        ensures
            is_schedule(r, accepted_schedule(optional_time(parsed))),
    {
        match parsed {
            Some(m) => Ok(Some(m)),
            None => Err(invalid_member("scheduled_at")),
        }
    }

    /// The time at which a post is to appear, as the member `scheduled_at`
    /// of `doc` names it, if there is one.
    fn schedule_member(doc: &Json) -> (r: Result<Option<i64>, String>)
        ensures
            is_schedule(r, schedule_member(doc@)),
    {
        match doc.get("scheduled_at") {
            None => Ok(None),
            Some(Json::Null) => Ok(None),
            Some(Json::Text(text)) => Self::accept_schedule(parse_time(text.as_str())),
            Some(_) => Err(invalid_member("scheduled_at")),
        }
    }

    /// The visibility that the member `visibility` of `doc` names.
    fn visibility_member(doc: &Json) -> (r: Result<Visibility, String>)
        ensures
            match r {
                Ok(v) => visibility_member(doc@) == Ok::<Visibility, Seq<char>>(v),
                Err(e) => visibility_member(doc@) == Err::<Visibility, Seq<char>>(e@),
            },
    {
        match doc.get("visibility") {
            None => Err(missing_member("visibility")),
            Some(Json::Text(name)) => match Visibility::from_name(name.as_str()) {
                Some(v) => Ok(v),
                None => Err(invalid_member("visibility")),
            },
            Some(_) => Err(invalid_member("visibility")),
        }
    }

    /// The poll that the member `poll` of `doc` describes, if there is one.
    fn poll_member(doc: &Json) -> (r: Result<Option<NewPoll>, String>)
        ensures
            match r {
                Ok(p) => poll_member(doc@) == Ok::<Option<NewPollModel>, Seq<char>>(
                    optional_poll(p),
                ),
                Err(e) => poll_member(doc@) == Err::<Option<NewPollModel>, Seq<char>>(e@),
            },
    {
        match doc.get("poll") {
            None => Ok(None),
            Some(Json::Null) => Ok(None),
            Some(p) => match NewPoll::from_json(p) {
                Ok(poll) => Ok(Some(poll)),
                Err(e) => Err(e),
            },
        }
    }

    /// The new post that the document `doc` describes, or why it describes
    /// none.
    pub fn from_json(doc: &Json) -> (r: Result<NewPost, String>)
        ensures
            match r {
                Ok(p) => new_post_of(doc@) == Ok::<NewPostModel, Seq<char>>(p@),
                Err(e) => new_post_of(doc@) == Err::<NewPostModel, Seq<char>>(e@),
            },
    {
        let content = match doc.required_text_member("content") {
            Ok(v) => v,
            Err(e) => {
                return Err(e);
            },
        };
        let spoiler_text = match doc.optional_text_member("spoiler_text") {
            Ok(v) => v,
            Err(e) => {
                return Err(e);
            },
        };
        let visibility = match Self::visibility_member(doc) {
            Ok(v) => v,
            Err(e) => {
                return Err(e);
            },
        };
        let sensitive = match doc.required_flag_member("sensitive") {
            Ok(v) => v,
            Err(e) => {
                return Err(e);
            },
        };
        let language = match doc.optional_text_member("language") {
            Ok(v) => v,
            Err(e) => {
                return Err(e);
            },
        };
        let in_reply_to_id = match doc.optional_text_member("in_reply_to_id") {
            Ok(v) => v,
            Err(e) => {
                return Err(e);
            },
        };
        let media_ids = match doc.required_texts_member("media_ids") {
            Ok(v) => v,
            Err(e) => {
                return Err(e);
            },
        };
        let poll = match Self::poll_member(doc) {
            Ok(v) => v,
            Err(e) => {
                return Err(e);
            },
        };
        let scheduled_at = match Self::schedule_member(doc) {
            Ok(v) => v,
            Err(e) => {
                return Err(e);
            },
        };
        let blindodon_pm = match doc.defaulted_flag_member("blindodon_pm") {
            Ok(v) => v,
            Err(e) => {
                return Err(e);
            },
        };
        Ok(
            NewPost {
                content,
                spoiler_text,
                visibility,
                sensitive,
                language,
                in_reply_to_id,
                media_ids,
                poll,
                scheduled_at,
                blindodon_pm,
            },
        )
    }
}

} // verus!
