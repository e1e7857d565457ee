//! The client of the remote service: which instance it speaks to and with
//! which token, how signing in is prepared, and what is asked for a timeline,
//! a new post or a page of notifications.

use crate::json::texts_view;
use crate::models::ipc_message::optional_text;
use crate::models::notification::NotificationRequest;
use crate::models::notification::NotificationRequestModel;
use crate::models::post::NewPost;
use crate::models::post::NewPostModel;
use crate::models::post::Visibility;
use crate::models::timeline::TimelineRequest;
use crate::models::timeline::TimelineRequestModel;
use crate::models::timeline::TimelineType;
use crate::models::timeline::TimelineTypeModel;
use crate::text::chars_of;
use crate::text::copy_optional;
use crate::text::copy_texts;
use crate::text::has_prefix;
use crate::text::join;
use crate::text::matches_at;
use crate::text::replace;
use crate::text::replace_all;
use crate::text::text_between;
use crate::text::text_of;
use crate::text::trim;
use crate::text::trim_bounds;
use crate::text::trim_end_char;
use crate::text::trim_end_char_bound;
use vstd::prelude::*;

verus! {

/// The name under which the backend registers with an instance.
pub const APP_NAME: &'static str = "Blindodon";

/// Where the instance sends the user once access is granted: nowhere, the
/// code is shown to the user.
pub const REDIRECT_URI: &'static str = "urn:ietf:wg:oauth:2.0:oob";

/// The page of the application.
pub const WEBSITE: &'static str = "https://github.com/blindodon/blindodon";

/// The number of items that a page holds where the peer names none.
pub const DEFAULT_LIMIT: u32 = 20;

/// The rights that the backend asks for.
pub open spec fn scope_names() -> Seq<Seq<char>> {
    seq!["read"@, "write"@, "follow"@, "push"@]
}

/// The rights that the backend asks for.
pub fn scopes() -> (r: Vec<String>)
    ensures
        texts_view(r@) == scope_names(),
{
    let mut r: Vec<String> = Vec::new();
    r.push(String::from_str("read"));
    r.push(String::from_str("write"));
    r.push(String::from_str("follow"));
    r.push(String::from_str("push"));
    assert(texts_view(r@) =~= scope_names());
    r
}

/// The bytes that need no escape in an address: letters, digits and four
/// marks.
pub open spec fn is_unreserved(b: u8) -> bool {
    ||| 0x30 <= b <= 0x39
    ||| 0x41 <= b <= 0x5A
    ||| 0x61 <= b <= 0x7A
    ||| b == 0x2D
    ||| b == 0x2E
    ||| b == 0x5F
    ||| b == 0x7E
}

/// The digit of the number `d` below 16, in upper case.
pub open spec fn hex_digit(d: u8) -> char {
    if d < 10 {
        (0x30 + d) as u8 as char
    } else {
        (0x41 + d - 10) as u8 as char
    }
}

/// The escaped form of the bytes `bytes`: a byte that needs no escape stands
/// for itself, any other becomes `%` and its two hexadecimal digits.
pub open spec fn percent_encoded(bytes: Seq<u8>) -> Seq<char>
    decreases bytes.len(),
{
    if bytes.len() == 0 {
        Seq::empty()
    } else {
        let b = bytes[0];
        let head = if is_unreserved(b) {
            seq![b as char]
        } else {
            seq!['%', hex_digit(b / 16), hex_digit(b % 16)]
        };
        head + percent_encoded(bytes.drop_first())
    }
}

/// Whether the byte `b` needs no escape in an address.
pub fn needs_no_escape(b: u8) -> (r: bool)
    ensures
        r == is_unreserved(b),
{
    (0x30 <= b && b <= 0x39) || (0x41 <= b && b <= 0x5A) || (0x61 <= b && b <= 0x7A) || b == 0x2D
        || b == 0x2E || b == 0x5F || b == 0x7E
}

/// The digit of the number `d` below 16, in upper case.
fn hex_digit_of(d: u8) -> (r: char)
    requires
        d < 16,
    ensures
        r == hex_digit(d),
{
    if d < 10 {
        (0x30 + d) as char
    } else {
        (0x41 + d - 10) as char
    }
}

/// The escaped form of `text`, made from the bytes of the text in UTF-8:
/// every byte but letters, digits and `-`, `.`, `_`, `~` becomes `%` and two
/// hexadecimal digits in upper case.
pub fn url_encode(text: &str) -> (r: String)
    ensures
        r@ == percent_encoded(vstd::utf8::encode_utf8(text@)),
{
    let bytes = text.as_bytes();
    let mut r = String::new();
    let mut i: usize = 0;
    assert(bytes@.skip(0) =~= bytes@);
    assert(Seq::<char>::empty() + percent_encoded(bytes@) =~= percent_encoded(bytes@));
    while i < bytes.len()
        invariant
            i <= bytes.len(),
            percent_encoded(bytes@) == r@ + percent_encoded(bytes@.skip(i as int)),
        decreases bytes.len() - i,
    {
        let b = bytes[i];
        let ghost rest = bytes@.skip(i as int);
        let ghost before = r@;
        assert(rest[0] == b);
        assert(rest.drop_first() =~= bytes@.skip(i + 1));
        if needs_no_escape(b) {
            r.push(b as char);
            assert(before + (seq![b as char] + percent_encoded(rest.drop_first())) =~= r@
                + percent_encoded(rest.drop_first()));
        } else {
            r.push('%');
            r.push(hex_digit_of(b / 16));
            r.push(hex_digit_of(b % 16));
            assert(before + (seq!['%', hex_digit(b / 16), hex_digit(b % 16)] + percent_encoded(
                rest.drop_first(),
            )) =~= r@ + percent_encoded(rest.drop_first()));
        }
        i += 1;
    }
    assert(bytes@.skip(bytes@.len() as int) =~= Seq::<u8>::empty());
    assert(r@ + Seq::<char>::empty() =~= r@);
    r
}

/// The address of an instance in the form in which the backend keeps it:
/// without white space around it, with `https://` in front where no scheme
/// was given, and without a slash at the end.
pub open spec fn normalized_url(url: Seq<char>) -> Seq<char> {
    let bare = trim(url);
    let full = if has_prefix(bare, "http://"@) || has_prefix(bare, "https://"@) {
        bare
    } else {
        "https://"@ + bare
    };
    trim_end_char(full, '/')
}

/// The address of an instance in the form in which the backend keeps it.
pub fn normalize_url(url: &str) -> (r: String)
    ensures
        r@ == normalized_url(url@),
{
    let all = chars_of(url);
    let (lo, hi) = trim_bounds(&all);
    let mut full: Vec<char> = Vec::new();
    let http = chars_of("http://");
    let https = chars_of("https://");
    let ghost bare = trim(url@);
    let mut bare_chars: Vec<char> = Vec::new();
    let mut i: usize = lo;
    while i < hi
        invariant
            lo <= i <= hi <= all.len(),
            bare_chars@ =~= all@.subrange(lo as int, i as int),
        decreases hi - i,
    {
        bare_chars.push(all[i]);
        i += 1;
    }
    assert(bare_chars@ == bare);
    let has_scheme = matches_at(&bare_chars, &http, 0) || matches_at(&bare_chars, &https, 0);
    if !has_scheme {
        let mut k: usize = 0;
        while k < https.len()
            invariant
                k <= https.len(),
                full@ =~= https@.take(k as int),
            decreases https.len() - k,
        {
            full.push(https[k]);
            k += 1;
        }
        assert(https@.take(https@.len() as int) =~= https@);
    }
    let ghost prefix = full@;
    let mut j: usize = 0;
    while j < bare_chars.len()
        invariant
            j <= bare_chars.len(),
            full@ =~= prefix + bare_chars@.take(j as int),
        decreases bare_chars.len() - j,
    {
        full.push(bare_chars[j]);
        j += 1;
    }
    assert(bare_chars@.take(bare_chars@.len() as int) =~= bare_chars@);
    assert(Seq::<char>::empty() + bare =~= bare);
    let end = trim_end_char_bound(&full, '/');
    let r = text_between(&full, 0, end);
    assert(full@.subrange(0, end as int) =~= full@.take(end as int));
    r
}

/// `s` without the run of `c` at its end does not end with `c`.
pub proof fn lemma_trim_end_char(s: Seq<char>, c: char)
    ensures
        trim_end_char(s, c).len() > 0 ==> trim_end_char(s, c).last() != c,
        trim_end_char(s, c).len() <= s.len(),
    decreases s.len(),
{
    if s.len() > 0 && s.last() == c {
        lemma_trim_end_char(s.drop_last(), c);
    }
}

/// The address of an instance in the form in which the backend keeps it
/// never ends with a slash.
pub proof fn lemma_normalized_url_has_no_trailing_slash(url: Seq<char>)
    ensures
        normalized_url(url).len() > 0 ==> normalized_url(url).last() != '/',
{
    let bare = trim(url);
    let full = if has_prefix(bare, "http://"@) || has_prefix(bare, "https://"@) {
        bare
    } else {
        "https://"@ + bare
    };
    lemma_trim_end_char(full, '/');
}

/// The domain of the instance at `instance_url`: the address in the form in
/// which the backend keeps it, without its scheme.
pub open spec fn instance_domain(instance_url: Seq<char>) -> Seq<char> {
    replace_all(
        replace_all(normalized_url(instance_url), "https://"@, Seq::empty()),
        "http://"@,
        Seq::empty(),
    )
}

/// The identifier of the account of the user `username` on the instance at
/// `instance_url`: the name, `@` and the domain of the instance.
pub open spec fn account_id_of(username: Seq<char>, instance_url: Seq<char>) -> Seq<char> {
    username + "@"@ + instance_domain(instance_url)
}

/// The identifier of the account of the user `username` on the instance at
/// `instance_url`. It is the same whenever the same user signs in to the
/// same instance.
pub fn account_id(username: &str, instance_url: &str) -> (r: String)
    ensures
        r@ == account_id_of(username@, instance_url@),
{
    let url = normalize_url(instance_url);
    let chars = chars_of(url.as_str());
    let https = chars_of("https://");
    let http = chars_of("http://");
    let none: Vec<char> = Vec::new();
    let without_https = replace(&chars, &https, &none);
    let domain = replace(&without_https, &http, &none);
    let mut r = join(username, "@");
    r.append(text_of(&domain).as_str());
    r
}

/// An application that an instance has registered and that no user has yet
/// granted access: what the start of signing in leaves for its completion.
#[derive(Debug, Clone, PartialEq, Eq)]
pub struct OAuthAppData {
    pub client_id: String,
    pub client_secret: String,
    pub instance_url: String,
}

/// What an `OAuthAppData` is, as a mathematical value.
pub ghost struct OAuthAppDataModel {
    pub client_id: Seq<char>,
    pub client_secret: Seq<char>,
    pub instance_url: Seq<char>,
}

impl View for OAuthAppData {
    type V = OAuthAppDataModel;

    open spec fn view(&self) -> OAuthAppDataModel {
        OAuthAppDataModel {
            client_id: self.client_id@,
            client_secret: self.client_secret@,
            instance_url: self.instance_url@,
        }
    }
}

/// The rights of `names` as one parameter of an address: joined by `+`.
pub open spec fn joined_scopes(names: Seq<Seq<char>>) -> Seq<char>
    decreases names.len(),
{
    if names.len() == 0 {
        Seq::empty()
    } else if names.len() == 1 {
        names[0]
    } else {
        joined_scopes(names.drop_last()) + "+"@ + names.last()
    }
}

/// The rights of `names` as one parameter of an address.
pub fn join_scopes(names: &Vec<String>) -> (r: String)
    ensures
        r@ == joined_scopes(texts_view(names@)),
{
    let mut r = String::new();
    let mut i: usize = 0;
    let ghost all = texts_view(names@);
    while i < names.len()
        invariant
            i <= names.len(),
            all == texts_view(names@),
            r@ == joined_scopes(all.take(i as int)),
        decreases names.len() - i,
    {
        let ghost before = all.take(i as int);
        let ghost after = all.take(i + 1);
        assert(after.drop_last() =~= before);
        assert(after.last() == names@[i as int]@);
        if i > 0 {
            r.append("+");
        } else {
            assert(r@ + names@[i as int]@ =~= names@[i as int]@);
        }
        r.append(names[i].as_str());
        i += 1;
    }
    assert(all.take(all.len() as int) =~= all);
    r
}

/// The address that the user opens to grant access to the application
/// `client_id` on the instance at `instance_url`.
pub open spec fn authorization_url_of(instance_url: Seq<char>, client_id: Seq<char>) -> Seq<
    char,
> {
    instance_url + "/oauth/authorize?client_id="@ + client_id + "&redirect_uri="@
        + percent_encoded(vstd::utf8::encode_utf8(REDIRECT_URI@)) + "&response_type=code&scope="@
        + joined_scopes(scope_names())
}

/// The address that the user opens to grant access to the application
/// `client_id` on the instance at `instance_url`.
pub fn authorization_url(instance_url: &str, client_id: &str) -> (r: String)
    ensures
        r@ == authorization_url_of(instance_url@, client_id@),
{
    let mut r = join(instance_url, "/oauth/authorize?client_id=");
    r.append(client_id);
    r.append("&redirect_uri=");
    r.append(url_encode(REDIRECT_URI).as_str());
    r.append("&response_type=code&scope=");
    r.append(join_scopes(&scopes()).as_str());
    r
}

/// A client of the remote service: the instance that it speaks to and the
/// token that signs its requests. Making one sends nothing.
#[derive(Debug, Clone, PartialEq, Eq)]
pub struct MastodonClient {
    instance_url: String,
    access_token: String,
}

/// What a `MastodonClient` is, as a mathematical value.
pub ghost struct ClientModel {
    pub instance_url: Seq<char>,
    pub access_token: Seq<char>,
}

impl View for MastodonClient {
    type V = ClientModel;

    closed spec fn view(&self) -> ClientModel {
        ClientModel { instance_url: self.instance_url@, access_token: self.access_token@ }
    }
}

impl ClientModel {
    /// The client for the instance at `instance_url` that signs with
    /// `access_token`.
    pub open spec fn from_token(instance_url: Seq<char>, access_token: Seq<char>) -> ClientModel {
        ClientModel { instance_url: normalized_url(instance_url), access_token }
    }
}

impl MastodonClient {
    /// The client for the instance at `instance_url` that signs with
    /// `access_token`.
    pub fn from_token(instance_url: &str, access_token: &str) -> (r: Self)
        ensures
            r@ == ClientModel::from_token(instance_url@, access_token@),
    {
        MastodonClient {
            instance_url: normalize_url(instance_url),
            access_token: String::from_str(access_token),
        }
    }

    /// The client for the instance at the address `instance_url`, which is
    /// taken as it is, that signs with `access_token`.
    pub fn with_token(instance_url: String, access_token: String) -> (r: Self)
        ensures
            r@ == (ClientModel { instance_url: instance_url@, access_token: access_token@ }),
    {
        MastodonClient { instance_url, access_token }
    }

    /// The token that signs the client's requests.
    pub fn access_token(&self) -> (r: &str)
        ensures
            r@ == self@.access_token,
    {
        self.access_token.as_str()
    }

    /// The address of the instance that the client speaks to.
    pub fn instance_url(&self) -> (r: &str)
        ensures
            r@ == self@.instance_url,
    {
        self.instance_url.as_str()
    }

    /// A copy of the client.
    pub fn duplicate(&self) -> (r: Self)
        ensures
            r@ == self@,
    {
        MastodonClient {
            instance_url: self.instance_url.clone(),
            access_token: self.access_token.clone(),
        }
    }
}

/// Where the posts of a timeline are fetched from.
#[derive(Debug, Clone, PartialEq, Eq)]
pub enum TimelineSource {
    Home,
    Local,
    Public,
    Tag { tag: String },
    AccountStatuses { user_id: String },
    Bookmarks,
    Favourites,
    List { list_id: String },
}

/// What a `TimelineSource` is, as a mathematical value.
pub ghost enum TimelineSourceModel {
    Home,
    Local,
    Public,
    Tag { tag: Seq<char> },
    AccountStatuses { user_id: Seq<char> },
    Bookmarks,
    Favourites,
    List { list_id: Seq<char> },
}

impl View for TimelineSource {
    type V = TimelineSourceModel;

    open spec fn view(&self) -> TimelineSourceModel {
        match self {
            TimelineSource::Home => TimelineSourceModel::Home,
            TimelineSource::Local => TimelineSourceModel::Local,
            TimelineSource::Public => TimelineSourceModel::Public,
            TimelineSource::Tag { tag } => TimelineSourceModel::Tag { tag: tag@ },
            TimelineSource::AccountStatuses { user_id } => TimelineSourceModel::AccountStatuses {
                user_id: user_id@,
            },
            TimelineSource::Bookmarks => TimelineSourceModel::Bookmarks,
            TimelineSource::Favourites => TimelineSourceModel::Favourites,
            TimelineSource::List { list_id } => TimelineSourceModel::List { list_id: list_id@ },
        }
    }
}

/// The bounds of a page: between which items it lies and how many it holds
/// at most.
#[derive(Debug, Clone, PartialEq, Eq)]
pub struct PageBounds {
    pub max_id: Option<String>,
    pub since_id: Option<String>,
    pub min_id: Option<String>,
    pub limit: Option<u32>,
}

/// What a `PageBounds` is, as a mathematical value.
pub ghost struct PageBoundsModel {
    pub max_id: Option<Seq<char>>,
    pub since_id: Option<Seq<char>>,
    pub min_id: Option<Seq<char>>,
    pub limit: Option<int>,
}

impl View for PageBounds {
    type V = PageBoundsModel;

    open spec fn view(&self) -> PageBoundsModel {
        PageBoundsModel {
            max_id: optional_text(self.max_id),
            since_id: optional_text(self.since_id),
            min_id: optional_text(self.min_id),
            limit: crate::models::timeline::optional_count(self.limit),
        }
    }
}

impl PageBoundsModel {
    /// No bounds at all.
    pub open spec fn none() -> PageBoundsModel {
        PageBoundsModel { max_id: None, since_id: None, min_id: None, limit: None }
    }
}

/// One fetch of posts from the remote service.
#[derive(Debug, Clone, PartialEq, Eq)]
pub struct TimelineFetch {
    pub source: TimelineSource,
    pub bounds: PageBounds,
}

/// What a `TimelineFetch` is, as a mathematical value.
pub ghost struct TimelineFetchModel {
    pub source: TimelineSourceModel,
    pub bounds: PageBoundsModel,
}

impl View for TimelineFetch {
    type V = TimelineFetchModel;

    open spec fn view(&self) -> TimelineFetchModel {
        TimelineFetchModel { source: self.source@, bounds: self.bounds@ }
    }
}

/// The model of an optional fetch.
pub open spec fn optional_fetch(fetch: Option<TimelineFetch>) -> Option<TimelineFetchModel> {
    match fetch {
        Some(f) => Some(f@),
        None => None,
    }
}

/// The number of items that a page holds at most where the peer asked for
/// `limit`.
pub open spec fn page_limit(limit: Option<int>) -> int {
    match limit {
        Some(n) => n,
        None => DEFAULT_LIMIT as int,
    }
}

/// The number of items that a page holds at most where the peer asked for
/// `limit`.
pub fn effective_limit(limit: Option<u32>) -> (r: u32)
    ensures
        r == page_limit(crate::models::timeline::optional_count(limit)),
{
    match limit {
        Some(n) => n,
        None => DEFAULT_LIMIT,
    }
}

impl TimelineRequestModel {
    /// The bounds that the request names, with the limit that holds for it.
    pub open spec fn full_bounds(self) -> PageBoundsModel {
        PageBoundsModel {
            max_id: self.max_id,
            since_id: self.since_id,
            min_id: self.min_id,
            limit: Some(page_limit(self.limit)),
        }
    }

    /// The limit alone.
    pub open spec fn limit_alone(self) -> PageBoundsModel {
        PageBoundsModel {
            max_id: None,
            since_id: None,
            min_id: None,
            limit: Some(page_limit(self.limit)),
        }
    }

    /// What is fetched for the request. The home, local and federated
    /// timelines, those of a hashtag and of a list take every bound; that of
    /// a user takes the limit alone; bookmarks and favourites take none.
    /// For notifications, direct messages, trends and searches nothing is
    /// fetched: their page is empty.
    pub open spec fn fetch(self) -> Option<TimelineFetchModel> {
        match self.timeline_type {
            TimelineTypeModel::Home => Some(
                TimelineFetchModel { source: TimelineSourceModel::Home, bounds: self.full_bounds() },
            ),
            TimelineTypeModel::Local => Some(
                TimelineFetchModel {
                    source: TimelineSourceModel::Local,
                    bounds: self.full_bounds(),
                },
            ),
            TimelineTypeModel::Federated => Some(
                TimelineFetchModel {
                    source: TimelineSourceModel::Public,
                    bounds: self.full_bounds(),
                },
            ),
            TimelineTypeModel::Hashtag { tag } => Some(
                TimelineFetchModel {
                    source: TimelineSourceModel::Tag { tag },
                    bounds: self.full_bounds(),
                },
            ),
            TimelineTypeModel::List { list_id } => Some(
                TimelineFetchModel {
                    source: TimelineSourceModel::List { list_id },
                    bounds: self.full_bounds(),
                },
            ),
            TimelineTypeModel::User { user_id } => Some(
                TimelineFetchModel {
                    source: TimelineSourceModel::AccountStatuses { user_id },
                    bounds: self.limit_alone(),
                },
            ),
            TimelineTypeModel::Bookmarks => Some(
                TimelineFetchModel {
                    source: TimelineSourceModel::Bookmarks,
                    bounds: PageBoundsModel::none(),
                },
            ),
            TimelineTypeModel::Favourites => Some(
                TimelineFetchModel {
                    source: TimelineSourceModel::Favourites,
                    bounds: PageBoundsModel::none(),
                },
            ),
            TimelineTypeModel::Notifications => None,
            TimelineTypeModel::Direct => None,
            TimelineTypeModel::Trending => None,
            TimelineTypeModel::Search { query } => None,
        }
    }
}

/// The bounds that `request` names, with the limit that holds for it.
fn full_bounds(request: &TimelineRequest) -> (r: PageBounds)
    ensures
        r@ == request@.full_bounds(),
{
    PageBounds {
        max_id: copy_optional(&request.max_id),
        since_id: copy_optional(&request.since_id),
        min_id: copy_optional(&request.min_id),
        limit: Some(effective_limit(request.limit)),
    }
}

/// What is fetched for `request`, or `None` where nothing is.
pub fn plan_timeline(request: &TimelineRequest) -> (r: Option<TimelineFetch>)
    ensures
        optional_fetch(r) == request@.fetch(),
{
    match &request.timeline_type {
        TimelineType::Home => Some(
            TimelineFetch { source: TimelineSource::Home, bounds: full_bounds(request) },
        ),
        TimelineType::Local => Some(
            TimelineFetch { source: TimelineSource::Local, bounds: full_bounds(request) },
        ),
        TimelineType::Federated => Some(
            TimelineFetch { source: TimelineSource::Public, bounds: full_bounds(request) },
        ),
        TimelineType::Hashtag { tag } => Some(
            TimelineFetch {
                source: TimelineSource::Tag { tag: tag.clone() },
                bounds: full_bounds(request),
            },
        ),
        TimelineType::List { list_id } => Some(
            TimelineFetch {
                source: TimelineSource::List { list_id: list_id.clone() },
                bounds: full_bounds(request),
            },
        ),
        TimelineType::User { user_id } => Some(
            TimelineFetch {
                source: TimelineSource::AccountStatuses { user_id: user_id.clone() },
                bounds: PageBounds {
                    max_id: None,
                    since_id: None,
                    min_id: None,
                    limit: Some(effective_limit(request.limit)),
                },
            },
        ),
        TimelineType::Bookmarks => Some(
            TimelineFetch {
                source: TimelineSource::Bookmarks,
                bounds: PageBounds { max_id: None, since_id: None, min_id: None, limit: None },
            },
        ),
        TimelineType::Favourites => Some(
            TimelineFetch {
                source: TimelineSource::Favourites,
                bounds: PageBounds { max_id: None, since_id: None, min_id: None, limit: None },
            },
        ),
        TimelineType::Notifications => None,
        TimelineType::Direct => None,
        TimelineType::Trending => None,
        TimelineType::Search { query } => None,
    }
}

impl NotificationRequestModel {
    /// The bounds of the page of notifications that is fetched for the
    /// request.
    pub open spec fn bounds(self) -> PageBoundsModel {
        PageBoundsModel {
            max_id: self.max_id,
            since_id: self.since_id,
            min_id: self.min_id,
            limit: Some(page_limit(self.limit)),
        }
    }
}

/// The bounds of the page of notifications that is fetched for `request`.
pub fn plan_notifications(request: &NotificationRequest) -> (r: PageBounds)
    ensures
        r@ == request@.bounds(),
{
    PageBounds {
        max_id: copy_optional(&request.max_id),
        since_id: copy_optional(&request.since_id),
        min_id: copy_optional(&request.min_id),
        limit: Some(effective_limit(request.limit)),
    }
}

/// A post as it is handed to the remote service.
#[derive(Debug, Clone, PartialEq, Eq)]
pub struct StatusDraft {
    pub content: String,
    pub in_reply_to_id: Option<String>,
    pub sensitive: Option<bool>,
    pub spoiler_text: Option<String>,
    pub visibility: Option<Visibility>,
    pub language: Option<String>,
    /// The media of the post; `None` where it has none.
    pub media_ids: Option<Vec<String>>,
    pub scheduled_at: Option<i64>,
}

/// What a `StatusDraft` is, as a mathematical value.
pub ghost struct StatusDraftModel {
    pub content: Seq<char>,
    pub in_reply_to_id: Option<Seq<char>>,
    pub sensitive: Option<bool>,
    pub spoiler_text: Option<Seq<char>>,
    pub visibility: Option<Visibility>,
    pub language: Option<Seq<char>>,
    pub media_ids: Option<Seq<Seq<char>>>,
    pub scheduled_at: Option<int>,
}

/// The texts of an optional list.
pub open spec fn optional_texts(texts: Option<Vec<String>>) -> Option<Seq<Seq<char>>> {
    match texts {
        Some(t) => Some(texts_view(t@)),
        None => None,
    }
}

impl View for StatusDraft {
    type V = StatusDraftModel;

    open spec fn view(&self) -> StatusDraftModel {
        StatusDraftModel {
            content: self.content@,
            in_reply_to_id: optional_text(self.in_reply_to_id),
            sensitive: self.sensitive,
            spoiler_text: optional_text(self.spoiler_text),
            visibility: self.visibility,
            language: optional_text(self.language),
            media_ids: optional_texts(self.media_ids),
            scheduled_at: crate::models::post::optional_time(self.scheduled_at),
        }
    }
}

impl NewPostModel {
    /// The post as it is handed to the remote service: the media are left
    /// out where there are none, and the poll is not sent.
    pub open spec fn draft(self) -> StatusDraftModel {
        StatusDraftModel {
            content: self.content,
            in_reply_to_id: self.in_reply_to_id,
            sensitive: Some(self.sensitive),
            spoiler_text: self.spoiler_text,
            visibility: Some(self.visibility),
            language: self.language,
            media_ids: if self.media_ids.len() == 0 {
                None
            } else {
                Some(self.media_ids)
            },
            scheduled_at: self.scheduled_at,
        }
    }
}

/// The post `new_post` as it is handed to the remote service.
pub fn plan_post(new_post: &NewPost) -> (r: StatusDraft)
    ensures
        r@ == new_post@.draft(),
{
    StatusDraft {
        content: new_post.content.clone(),
        in_reply_to_id: copy_optional(&new_post.in_reply_to_id),
        sensitive: Some(new_post.sensitive),
        spoiler_text: copy_optional(&new_post.spoiler_text),
        visibility: Some(new_post.visibility),
        language: copy_optional(&new_post.language),
        media_ids: if new_post.media_ids.len() == 0 {
            None
        } else {
            Some(copy_texts(&new_post.media_ids))
        },
        scheduled_at: new_post.scheduled_at,
    }
}

} // verus!
