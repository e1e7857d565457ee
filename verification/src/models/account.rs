//! Accounts that the backend keeps, and the steps of signing in.

use crate::clock::optional_timestamp_document;
use crate::clock::optional_timestamp_json;
use crate::clock::timestamp_document;
use crate::clock::timestamp_json;
use crate::json::items_view;
use crate::json::texts_view;
use crate::json::Json;
use crate::json::JsonModel;
use crate::json::ObjectBuilder;
use crate::models::ipc_message::optional_text;
use crate::models::timeline::text_or_null;
use crate::text::copy_optional;
use vstd::prelude::*;

verus! {

/// An account that the backend keeps between runs. Points in time are whole
/// milliseconds since the start of 1970 in UTC.
#[derive(Debug, Clone, PartialEq, Eq)]
pub struct StoredAccount {
    /// The user's name, `@` and the domain of the instance.
    pub id: String,
    pub instance_url: String,
    pub username: String,
    /// The account's full name on the network.
    pub acct: String,
    pub display_name: String,
    /// The token that signs requests. It is never sent to the peer.
    pub access_token: String,
    /// The token that renews the access token. It is never sent to the peer.
    pub refresh_token: Option<String>,
    pub token_expires_at: Option<i64>,
    pub added_at: i64,
    pub last_used_at: i64,
    /// Whether a new run signs in with this account.
    pub is_default: bool,
    pub avatar_url: Option<String>,
    /// The private key for encrypted messages. It is never sent to the peer.
    pub blindodon_pm_private_key: Option<String>,
    pub blindodon_pm_public_key: Option<String>,
}

/// What a `StoredAccount` is, as a mathematical value.
pub ghost struct StoredAccountModel {
    pub id: Seq<char>,
    pub instance_url: Seq<char>,
    pub username: Seq<char>,
    pub acct: Seq<char>,
    pub display_name: Seq<char>,
    pub access_token: Seq<char>,
    pub refresh_token: Option<Seq<char>>,
    pub token_expires_at: Option<i64>,
    pub added_at: i64,
    pub last_used_at: i64,
    pub is_default: bool,
    pub avatar_url: Option<Seq<char>>,
    pub blindodon_pm_private_key: Option<Seq<char>>,
    pub blindodon_pm_public_key: Option<Seq<char>>,
}

impl View for StoredAccount {
    type V = StoredAccountModel;

    open spec fn view(&self) -> StoredAccountModel {
        StoredAccountModel {
            id: self.id@,
            instance_url: self.instance_url@,
            username: self.username@,
            acct: self.acct@,
            display_name: self.display_name@,
            access_token: self.access_token@,
            refresh_token: optional_text(self.refresh_token),
            token_expires_at: self.token_expires_at,
            added_at: self.added_at,
            last_used_at: self.last_used_at,
            is_default: self.is_default,
            avatar_url: optional_text(self.avatar_url),
            blindodon_pm_private_key: optional_text(self.blindodon_pm_private_key),
            blindodon_pm_public_key: optional_text(self.blindodon_pm_public_key),
        }
    }
}

/// The models of the accounts in `accounts`.
pub open spec fn accounts_view(accounts: Seq<StoredAccount>) -> Seq<StoredAccountModel> {
    Seq::new(accounts.len(), |i: int| accounts[i]@)
}

impl StoredAccountModel {
    /// The document that is sent to the peer for the account. It has no
    /// member for either token, nor for the private key.
    pub open spec fn to_json(self) -> JsonModel {
        JsonModel::Object(
            seq![
                ("id"@, JsonModel::Text(self.id)),
                ("instance_url"@, JsonModel::Text(self.instance_url)),
                ("username"@, JsonModel::Text(self.username)),
                ("acct"@, JsonModel::Text(self.acct)),
                ("display_name"@, JsonModel::Text(self.display_name)),
                ("token_expires_at"@, optional_timestamp_document(self.token_expires_at)),
                ("added_at"@, timestamp_document(self.added_at as int)),
                ("last_used_at"@, timestamp_document(self.last_used_at as int)),
                ("is_default"@, JsonModel::Bool(self.is_default)),
                ("avatar_url"@, text_or_null(self.avatar_url)),
                ("blindodon_pm_public_key"@, text_or_null(self.blindodon_pm_public_key)),
            ],
        )
    }

    /// The document that is sent to the peer for an account that has just
    /// signed in.
    pub open spec fn summary(self) -> JsonModel {
        JsonModel::Object(
            seq![
                ("id"@, JsonModel::Text(self.id)),
                ("instance_url"@, JsonModel::Text(self.instance_url)),
                ("username"@, JsonModel::Text(self.username)),
                ("display_name"@, JsonModel::Text(self.display_name)),
                ("avatar_url"@, text_or_null(self.avatar_url)),
                ("is_default"@, JsonModel::Bool(self.is_default)),
                ("last_used_at"@, timestamp_document(self.last_used_at as int)),
            ],
        )
    }
}

impl StoredAccount {
    /// A copy of the account.
    pub fn duplicate(&self) -> (r: Self)
        ensures
            r == *self,
    {
        StoredAccount {
            id: self.id.clone(),
            instance_url: self.instance_url.clone(),
            username: self.username.clone(),
            acct: self.acct.clone(),
            display_name: self.display_name.clone(),
            access_token: self.access_token.clone(),
            refresh_token: copy_optional(&self.refresh_token),
            token_expires_at: self.token_expires_at,
            added_at: self.added_at,
            last_used_at: self.last_used_at,
            is_default: self.is_default,
            avatar_url: copy_optional(&self.avatar_url),
            blindodon_pm_private_key: copy_optional(&self.blindodon_pm_private_key),
            blindodon_pm_public_key: copy_optional(&self.blindodon_pm_public_key),
        }
    }

    /// The document that is sent to the peer for the account.
    pub fn to_json(&self) -> (r: Json)
        ensures
            r@ == self@.to_json(),
    {
        let out = ObjectBuilder::new().member("id", Json::text(self.id.as_str())).member(
            "instance_url",
            Json::text(self.instance_url.as_str()),
        ).member("username", Json::text(self.username.as_str())).member(
            "acct",
            Json::text(self.acct.as_str()),
        ).member("display_name", Json::text(self.display_name.as_str())).member(
            "token_expires_at",
            optional_timestamp_json(self.token_expires_at),
        ).member("added_at", timestamp_json(self.added_at)).member(
            "last_used_at",
            timestamp_json(self.last_used_at),
        ).member("is_default", Json::Bool(self.is_default)).member(
            "avatar_url",
            Json::optional_text(&self.avatar_url),
        ).member("blindodon_pm_public_key", Json::optional_text(&self.blindodon_pm_public_key))
            .build();
        assert(out@->Object_0 =~= self@.to_json()->Object_0);
        out
    }

    /// The document that is sent to the peer for an account that has just
    /// signed in.
    pub fn summary(&self) -> (r: Json)
        ensures
            r@ == self@.summary(),
    {
        let out = ObjectBuilder::new().member("id", Json::text(self.id.as_str())).member(
            "instance_url",
            Json::text(self.instance_url.as_str()),
        ).member("username", Json::text(self.username.as_str())).member(
            "display_name",
            Json::text(self.display_name.as_str()),
        ).member("avatar_url", Json::optional_text(&self.avatar_url)).member(
            "is_default",
            Json::Bool(self.is_default),
        ).member("last_used_at", timestamp_json(self.last_used_at)).build();
        assert(out@->Object_0 =~= self@.summary()->Object_0);
        out
    }
}

/// No member of `members` from position `from` on is named `key`, where no
/// member at all is.
proof fn lemma_no_member(members: Seq<(Seq<char>, JsonModel)>, key: Seq<char>, from: int)
    requires
        0 <= from,
        forall|i: int| 0 <= i < members.len() ==> (#[trigger] members[i]).0 != key,
    ensures
        crate::json::find_member(members, key, from) is None,
    decreases members.len() - from,
{
    if from < members.len() {
        assert(members[from].0 != key);
        lemma_no_member(members, key, from + 1);
    }
}

/// The names of the members that are kept from the peer differ from the
/// names of the members that are sent.
proof fn lemma_secret_names(name: Seq<char>)
    requires
        name == "id"@ || name == "instance_url"@ || name == "username"@ || name == "acct"@ || name
            == "display_name"@ || name == "token_expires_at"@ || name == "added_at"@ || name
            == "last_used_at"@ || name == "is_default"@ || name == "avatar_url"@ || name
            == "blindodon_pm_public_key"@,
    ensures
        name != "access_token"@,
        name != "refresh_token"@,
        name != "blindodon_pm_private_key"@,
{
    reveal_strlit("id");
    reveal_strlit("instance_url");
    reveal_strlit("username");
    reveal_strlit("acct");
    reveal_strlit("display_name");
    reveal_strlit("token_expires_at");
    reveal_strlit("added_at");
    reveal_strlit("last_used_at");
    reveal_strlit("is_default");
    reveal_strlit("avatar_url");
    reveal_strlit("blindodon_pm_public_key");
    reveal_strlit("access_token");
    reveal_strlit("refresh_token");
    reveal_strlit("blindodon_pm_private_key");
    assert("access_token"@.len() == 12 && "access_token"@[0] == 'a');
    assert("refresh_token"@.len() == 13);
    assert("blindodon_pm_private_key"@.len() == 24);
    assert("instance_url"@[0] == 'i' && "display_name"@[0] == 'd' && "last_used_at"@[0] == 'l');
    assert(name.len() != 13 && name.len() != 24);
}

/// Neither document that is sent to the peer for an account has a member
/// for the access token, for the refresh token or for the private key.
pub proof fn lemma_account_documents_keep_secrets(account: StoredAccountModel)
    ensures
        account.to_json().field("access_token"@) is None,
        account.to_json().field("refresh_token"@) is None,
        account.to_json().field("blindodon_pm_private_key"@) is None,
        account.summary().field("access_token"@) is None,
        account.summary().field("refresh_token"@) is None,
        account.summary().field("blindodon_pm_private_key"@) is None,
{
    let full = account.to_json()->Object_0;
    assert forall|i: int| 0 <= i < full.len() implies (#[trigger] full[i]).0 != "access_token"@
        && full[i].0 != "refresh_token"@ && full[i].0 != "blindodon_pm_private_key"@ by {
        lemma_secret_names(full[i].0);
    }
    lemma_no_member(full, "access_token"@, 0);
    lemma_no_member(full, "refresh_token"@, 0);
    lemma_no_member(full, "blindodon_pm_private_key"@, 0);
    let short = account.summary()->Object_0;
    assert forall|i: int| 0 <= i < short.len() implies (#[trigger] short[i]).0 != "access_token"@
        && short[i].0 != "refresh_token"@ && short[i].0 != "blindodon_pm_private_key"@ by {
        lemma_secret_names(short[i].0);
    }
    lemma_no_member(short, "access_token"@, 0);
    lemma_no_member(short, "refresh_token"@, 0);
    lemma_no_member(short, "blindodon_pm_private_key"@, 0);
}

/// An application as an instance has registered it.
#[derive(Debug, Clone, PartialEq, Eq)]
pub struct OAuthApp {
    pub client_id: String,
    pub client_secret: String,
    pub redirect_uri: String,
    pub instance_url: String,
}

/// What a peer sends to start signing in.
#[derive(Debug, Clone, PartialEq, Eq)]
pub struct AuthRequest {
    pub instance_url: String,
}

/// What the peer gets back when signing in has started.
#[derive(Debug, Clone, PartialEq, Eq)]
pub struct AuthResponse {
    /// The address that the user opens to grant access.
    pub auth_url: String,
    /// A random text that tells this attempt from others.
    pub state: String,
}

impl AuthResponse {
    /// The document that is sent for the response.
    pub open spec fn document(auth_url: Seq<char>, state: Seq<char>) -> JsonModel {
        JsonModel::Object(
            seq![("auth_url"@, JsonModel::Text(auth_url)), ("state"@, JsonModel::Text(state))],
        )
    }

    /// The document that is sent for the response.
    pub fn to_json(&self) -> (r: Json)
        ensures
            r@ == Self::document(self.auth_url@, self.state@),
    {
        let out = ObjectBuilder::new().member("auth_url", Json::text(self.auth_url.as_str()))
            .member("state", Json::text(self.state.as_str())).build();
        assert(out@->Object_0 =~= Self::document(self.auth_url@, self.state@)->Object_0);
        out
    }
}

/// What a peer sends when the user has granted access.
#[derive(Debug, Clone, PartialEq, Eq)]
pub struct AuthCallback {
    /// The code that the instance gave the user.
    pub code: String,
    /// The random text of the attempt.
    pub state: String,
}

/// The outcome of signing in.
#[derive(Debug, Clone, PartialEq, Eq)]
pub struct AuthResult {
    pub account: StoredAccount,
    pub message: String,
}

/// What an instance tells about itself.
#[derive(Debug, Clone, PartialEq, Eq)]
pub struct InstanceInfo {
    pub url: String,
    pub title: String,
    pub short_description: Option<String>,
    pub description: String,
    pub version: String,
    pub user_count: Option<u64>,
    pub status_count: Option<u64>,
    pub domain_count: Option<u64>,
    pub thumbnail: Option<String>,
    /// The largest number of characters in a post.
    pub max_toot_chars: Option<u32>,
    pub max_media_attachments: Option<u32>,
    pub languages: Vec<String>,
    /// Whether new users may register.
    pub registrations: bool,
    pub approval_required: bool,
}

/// The document of an optional count: the number, or `null`.
pub open spec fn count_or_null(count: Option<int>) -> JsonModel {
    match count {
        Some(n) => JsonModel::Integer(n),
        None => JsonModel::Null,
    }
}

/// What an `InstanceInfo` is, as a mathematical value.
pub ghost struct InstanceInfoModel {
    pub url: Seq<char>,
    pub title: Seq<char>,
    pub short_description: Option<Seq<char>>,
    pub description: Seq<char>,
    pub version: Seq<char>,
    pub user_count: Option<int>,
    pub status_count: Option<int>,
    pub domain_count: Option<int>,
    pub thumbnail: Option<Seq<char>>,
    pub max_toot_chars: Option<int>,
    pub max_media_attachments: Option<int>,
    pub languages: Seq<Seq<char>>,
    pub registrations: bool,
    pub approval_required: bool,
}

/// The value of an optional count of 64 bits.
pub open spec fn optional_u64(n: Option<u64>) -> Option<int> {
    match n {
        Some(k) => Some(k as int),
        None => None,
    }
}

/// The value of an optional count of 32 bits.
pub open spec fn optional_u32(n: Option<u32>) -> Option<int> {
    match n {
        Some(k) => Some(k as int),
        None => None,
    }
}

impl View for InstanceInfo {
    type V = InstanceInfoModel;

    open spec fn view(&self) -> InstanceInfoModel {
        InstanceInfoModel {
            url: self.url@,
            title: self.title@,
            short_description: optional_text(self.short_description),
            description: self.description@,
            version: self.version@,
            user_count: optional_u64(self.user_count),
            status_count: optional_u64(self.status_count),
            domain_count: optional_u64(self.domain_count),
            thumbnail: optional_text(self.thumbnail),
            max_toot_chars: optional_u32(self.max_toot_chars),
            max_media_attachments: optional_u32(self.max_media_attachments),
            languages: texts_view(self.languages@),
            registrations: self.registrations,
            approval_required: self.approval_required,
        }
    }
}

impl InstanceInfoModel {
    /// The document that is sent to the peer for the instance.
    pub open spec fn to_json(self) -> JsonModel {
        JsonModel::Object(
            seq![
                ("url"@, JsonModel::Text(self.url)),
                ("title"@, JsonModel::Text(self.title)),
                ("short_description"@, text_or_null(self.short_description)),
                ("description"@, JsonModel::Text(self.description)),
                ("version"@, JsonModel::Text(self.version)),
                ("user_count"@, count_or_null(self.user_count)),
                ("status_count"@, count_or_null(self.status_count)),
                ("domain_count"@, count_or_null(self.domain_count)),
                ("thumbnail"@, text_or_null(self.thumbnail)),
                ("max_toot_chars"@, count_or_null(self.max_toot_chars)),
                ("max_media_attachments"@, count_or_null(self.max_media_attachments)),
                (
                    "languages"@,
                    JsonModel::Array(
                        Seq::new(self.languages.len(), |i: int| JsonModel::Text(self.languages[i])),
                    ),
                ),
                ("registrations"@, JsonModel::Bool(self.registrations)),
                ("approval_required"@, JsonModel::Bool(self.approval_required)),
            ],
        )
    }
}

/// What an instance says of itself, as the remote service hands it out.
#[derive(Debug, Clone, PartialEq, Eq)]
pub struct InstanceFacts {
    pub title: String,
    pub description: String,
    pub version: String,
    pub user_count: u32,
    pub status_count: u64,
    pub domain_count: u32,
    pub thumbnail: Option<String>,
    pub max_characters: u32,
    pub max_media_attachments: Option<u32>,
    pub languages: Vec<String>,
    pub registrations: bool,
    pub approval_required: bool,
}

/// The document of an optional count of 64 bits.
fn u64_or_null(count: Option<u64>) -> (r: Json)
    ensures
        r@ == count_or_null(optional_u64(count)),
{
    match count {
        Some(n) => Json::Integer(n as i128),
        None => Json::Null,
    }
}

/// The document of an optional count of 32 bits.
fn u32_or_null(count: Option<u32>) -> (r: Json)
    ensures
        r@ == count_or_null(optional_u32(count)),
{
    match count {
        Some(n) => Json::Integer(n as i128),
        None => Json::Null,
    }
}

impl InstanceInfo {
    /// What is told of the instance at `url` that says `facts` of itself:
    /// the description stands for the short description as well, and every
    /// count is given.
    pub fn of_instance(url: &str, facts: InstanceFacts) -> (r: InstanceInfo)
        ensures
            r@ == (InstanceInfoModel {
                url: url@,
                title: facts.title@,
                short_description: Some(facts.description@),
                description: facts.description@,
                version: facts.version@,
                user_count: Some(facts.user_count as int),
                status_count: Some(facts.status_count as int),
                domain_count: Some(facts.domain_count as int),
                thumbnail: optional_text(facts.thumbnail),
                max_toot_chars: Some(facts.max_characters as int),
                max_media_attachments: optional_u32(facts.max_media_attachments),
                languages: texts_view(facts.languages@),
                registrations: facts.registrations,
                approval_required: facts.approval_required,
            }),
    {
        InstanceInfo {
            url: String::from_str(url),
            title: facts.title,
            short_description: Some(facts.description.clone()),
            description: facts.description,
            version: facts.version,
            user_count: Some(facts.user_count as u64),
            status_count: Some(facts.status_count),
            domain_count: Some(facts.domain_count as u64),
            thumbnail: facts.thumbnail,
            max_toot_chars: Some(facts.max_characters),
            max_media_attachments: facts.max_media_attachments,
            languages: facts.languages,
            registrations: facts.registrations,
            approval_required: facts.approval_required,
        }
    }

    /// The document that is sent to the peer for the instance.
    pub fn to_json(&self) -> (r: Json)
        ensures
            r@ == self@.to_json(),
    {
        let mut languages: Vec<Json> = Vec::new();
        let mut i: usize = 0;
        while i < self.languages.len()
            invariant
                i <= self.languages.len(),
                languages@.len() == i,
                forall|k: int| 0 <= k < i ==> languages@[k]@ == JsonModel::Text(self.languages@[k]@),
            decreases self.languages.len() - i,
        {
            languages.push(Json::text(self.languages[i].as_str()));
            i += 1;
        }
        let ghost model = self@;
        assert(items_view(languages@) =~= Seq::new(
            model.languages.len(),
            |i: int| JsonModel::Text(model.languages[i]),
        ));
        let out = ObjectBuilder::new().member("url", Json::text(self.url.as_str())).member(
            "title",
            Json::text(self.title.as_str()),
        ).member("short_description", Json::optional_text(&self.short_description)).member(
            "description",
            Json::text(self.description.as_str()),
        ).member("version", Json::text(self.version.as_str())).member(
            "user_count",
            u64_or_null(self.user_count),
        ).member("status_count", u64_or_null(self.status_count)).member(
            "domain_count",
            u64_or_null(self.domain_count),
        ).member("thumbnail", Json::optional_text(&self.thumbnail)).member(
            "max_toot_chars",
            u32_or_null(self.max_toot_chars),
        ).member("max_media_attachments", u32_or_null(self.max_media_attachments)).member(
            "languages",
            Json::array(languages),
        ).member("registrations", Json::Bool(self.registrations)).member(
            "approval_required",
            Json::Bool(self.approval_required),
        ).build();
        assert(out@->Object_0 =~= model.to_json()->Object_0);
        out
    }
}

} // verus!
