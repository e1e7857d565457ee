//! The vocabulary of the router: the methods of the catalog, the work that
//! is asked of the outside, the answers that come back, and what a request
//! waits for in between.

use crate::api::client::ClientModel;
use crate::api::client::MastodonClient;
use crate::api::client::PageBounds;
use crate::api::client::PageBoundsModel;
use crate::api::client::StatusDraft;
use crate::api::client::StatusDraftModel;
use crate::api::client::TimelineFetch;
use crate::api::client::TimelineFetchModel;
use crate::json::Json;
use crate::json::JsonModel;
use crate::models::account::accounts_view;
use crate::models::account::StoredAccount;
use crate::models::account::StoredAccountModel;
use crate::models::ipc_message::optional_text;
use crate::models::ipc_message::IpcMessage;
use crate::models::ipc_message::MessageModel;
use crate::models::media::MediaUploadRequest;
use crate::models::media::MediaUploadRequestModel;
use crate::models::methods;
use crate::models::notification::notifications_view;
use crate::models::notification::Notification;
use crate::models::notification::NotificationModel;
use crate::models::post::posts_view;
use crate::models::post::Post;
use crate::models::post::PostModel;
use crate::models::user::User;
use crate::models::user::UserModel;
use crate::text::same_text;
use vstd::prelude::*;

verus! {

/// The methods of the catalog.
#[derive(Debug, Clone, Copy, PartialEq, Eq, Structural)]
pub enum Method {
    Ping,
    Shutdown,
    AuthStart,
    AuthCallback,
    AuthLogout,
    AuthGetAccounts,
    AuthSwitchAccount,
    AuthDeleteAccount,
    SettingsGet,
    SettingsSet,
    SettingsGetAll,
    TimelineGet,
    PostCreate,
    PostBoost,
    PostUnboost,
    PostFavourite,
    PostUnfavourite,
    NotificationsGet,
    NotificationsClear,
    NotificationsDismiss,
    MediaUpload,
    InstanceGet,
}

/// What is done to a post that exists.
#[derive(Debug, Clone, Copy, PartialEq, Eq, Structural)]
pub enum PostAction {
    Boost,
    Unboost,
    Favourite,
    Unfavourite,
}

impl PostAction {
    /// The verb of the action, as messages name it.
    pub open spec fn verb(self) -> Seq<char> {
        match self {
            PostAction::Boost => "boost"@,
            PostAction::Unboost => "unboost"@,
            PostAction::Favourite => "favourite"@,
            PostAction::Unfavourite => "unfavourite"@,
        }
    }

    /// The verb of the action, as messages name it.
    pub fn name(&self) -> (r: &'static str)
        ensures
            r@ == self.verb(),
    {
        match self {
            PostAction::Boost => "boost",
            PostAction::Unboost => "unboost",
            PostAction::Favourite => "favourite",
            PostAction::Unfavourite => "unfavourite",
        }
    }
}

impl Method {
    /// The method that the name `name` calls, if the catalog has one.
    pub open spec fn named(name: Seq<char>) -> Option<Method> {
        if name == methods::PING@ {
            Some(Method::Ping)
        } else if name == methods::SHUTDOWN@ {
            Some(Method::Shutdown)
        } else if name == methods::AUTH_START@ {
            Some(Method::AuthStart)
        } else if name == methods::AUTH_CALLBACK@ {
            Some(Method::AuthCallback)
        } else if name == methods::AUTH_LOGOUT@ {
            Some(Method::AuthLogout)
        } else if name == methods::AUTH_GET_ACCOUNTS@ {
            Some(Method::AuthGetAccounts)
        } else if name == methods::AUTH_SWITCH_ACCOUNT@ {
            Some(Method::AuthSwitchAccount)
        } else if name == methods::AUTH_DELETE_ACCOUNT@ {
            Some(Method::AuthDeleteAccount)
        } else if name == methods::SETTINGS_GET@ {
            Some(Method::SettingsGet)
        } else if name == methods::SETTINGS_SET@ {
            Some(Method::SettingsSet)
        } else if name == methods::SETTINGS_GET_ALL@ {
            Some(Method::SettingsGetAll)
        } else if name == methods::TIMELINE_GET@ {
            Some(Method::TimelineGet)
        } else if name == methods::POST_CREATE@ {
            Some(Method::PostCreate)
        } else if name == methods::POST_BOOST@ {
            Some(Method::PostBoost)
        } else if name == methods::POST_UNBOOST@ {
            Some(Method::PostUnboost)
        } else if name == methods::POST_FAVOURITE@ {
            Some(Method::PostFavourite)
        } else if name == methods::POST_UNFAVOURITE@ {
            Some(Method::PostUnfavourite)
        } else if name == methods::NOTIFICATIONS_GET@ {
            Some(Method::NotificationsGet)
        } else if name == methods::NOTIFICATIONS_CLEAR@ {
            Some(Method::NotificationsClear)
        } else if name == methods::NOTIFICATIONS_DISMISS@ {
            Some(Method::NotificationsDismiss)
        } else if name == methods::MEDIA_UPLOAD@ {
            Some(Method::MediaUpload)
        } else if name == methods::INSTANCE_GET@ {
            Some(Method::InstanceGet)
        } else {
            None
        }
    }

    /// Whether the method is served to a signed-in user alone.
    pub open spec fn requires_session(self) -> bool {
        match self {
            Method::TimelineGet => true,
            Method::PostCreate => true,
            Method::PostBoost => true,
            Method::PostUnboost => true,
            Method::PostFavourite => true,
            Method::PostUnfavourite => true,
            Method::NotificationsGet => true,
            Method::NotificationsClear => true,
            Method::NotificationsDismiss => true,
            Method::MediaUpload => true,
            Method::InstanceGet => true,
            _ => false,
        }
    }

    /// The action on a post that the method asks for, if it asks for one.
    pub open spec fn post_action(self) -> Option<PostAction> {
        match self {
            Method::PostBoost => Some(PostAction::Boost),
            Method::PostUnboost => Some(PostAction::Unboost),
            Method::PostFavourite => Some(PostAction::Favourite),
            Method::PostUnfavourite => Some(PostAction::Unfavourite),
            _ => None,
        }
    }

    /// The method that the name `name` calls, if the catalog has one.
    pub fn from_name(name: &str) -> (r: Option<Method>)
        ensures
            r == Method::named(name@),
    {
        if same_text(name, methods::PING) {
            Some(Method::Ping)
        } else if same_text(name, methods::SHUTDOWN) {
            Some(Method::Shutdown)
        } else if same_text(name, methods::AUTH_START) {
            Some(Method::AuthStart)
        } else if same_text(name, methods::AUTH_CALLBACK) {
            Some(Method::AuthCallback)
        } else if same_text(name, methods::AUTH_LOGOUT) {
            Some(Method::AuthLogout)
        } else if same_text(name, methods::AUTH_GET_ACCOUNTS) {
            Some(Method::AuthGetAccounts)
        } else if same_text(name, methods::AUTH_SWITCH_ACCOUNT) {
            Some(Method::AuthSwitchAccount)
        } else if same_text(name, methods::AUTH_DELETE_ACCOUNT) {
            Some(Method::AuthDeleteAccount)
        } else if same_text(name, methods::SETTINGS_GET) {
            Some(Method::SettingsGet)
        } else if same_text(name, methods::SETTINGS_SET) {
            Some(Method::SettingsSet)
        } else if same_text(name, methods::SETTINGS_GET_ALL) {
            Some(Method::SettingsGetAll)
        } else if same_text(name, methods::TIMELINE_GET) {
            Some(Method::TimelineGet)
        } else if same_text(name, methods::POST_CREATE) {
            Some(Method::PostCreate)
        } else if same_text(name, methods::POST_BOOST) {
            Some(Method::PostBoost)
        } else if same_text(name, methods::POST_UNBOOST) {
            Some(Method::PostUnboost)
        } else if same_text(name, methods::POST_FAVOURITE) {
            Some(Method::PostFavourite)
        } else if same_text(name, methods::POST_UNFAVOURITE) {
            Some(Method::PostUnfavourite)
        } else if same_text(name, methods::NOTIFICATIONS_GET) {
            Some(Method::NotificationsGet)
        } else if same_text(name, methods::NOTIFICATIONS_CLEAR) {
            Some(Method::NotificationsClear)
        } else if same_text(name, methods::NOTIFICATIONS_DISMISS) {
            Some(Method::NotificationsDismiss)
        } else if same_text(name, methods::MEDIA_UPLOAD) {
            Some(Method::MediaUpload)
        } else if same_text(name, methods::INSTANCE_GET) {
            Some(Method::InstanceGet)
        } else {
            None
        }
    }

    /// Whether the method is served to a signed-in user alone.
    pub fn needs_session(&self) -> (r: bool)
        ensures
            r == self.requires_session(),
    {
        match self {
            Method::TimelineGet => true,
            Method::PostCreate => true,
            Method::PostBoost => true,
            Method::PostUnboost => true,
            Method::PostFavourite => true,
            Method::PostUnfavourite => true,
            Method::NotificationsGet => true,
            Method::NotificationsClear => true,
            Method::NotificationsDismiss => true,
            Method::MediaUpload => true,
            Method::InstanceGet => true,
            _ => false,
        }
    }
}

/// Work that the router asks of the outside: a call of the remote service, or
/// of the store of accounts and settings.
#[derive(Debug, Clone, PartialEq, Eq)]
pub enum Effect {
    /// Register the application with the instance.
    RegisterApp { instance_url: String },
    /// Exchange the code that the user was given for an access token.
    FetchAccessToken { instance_url: String, client_id: String, client_secret: String, code: String },
    /// Ask the instance who the client's token belongs to.
    VerifyCredentials { client: MastodonClient },
    FetchTimeline { client: MastodonClient, fetch: TimelineFetch },
    CreatePost { client: MastodonClient, draft: StatusDraft },
    ActOnPost { client: MastodonClient, action: PostAction, post_id: String },
    FetchNotifications { client: MastodonClient, bounds: PageBounds },
    ClearNotifications { client: MastodonClient },
    DismissNotification { client: MastodonClient, notification_id: String },
    UploadMedia { client: MastodonClient, request: MediaUploadRequest },
    FetchInstance { client: MastodonClient },
    /// Read the default account, or else the one used last.
    LoadDefaultAccount,
    LoadAccount { account_id: String },
    ListAccounts,
    /// Write the account, in place of the one with its identifier if any.
    SaveAccount { account: StoredAccount },
    DeleteAccount { account_id: String },
    /// Make the account the only default, and mark it used now.
    SetDefaultAccount { account_id: String },
    GetSetting { key: String },
    SetSetting { key: String, value: String },
    ListSettings,
}

/// What an `Effect` is, as a mathematical value.
pub ghost enum EffectModel {
    RegisterApp { instance_url: Seq<char> },
    FetchAccessToken {
        instance_url: Seq<char>,
        client_id: Seq<char>,
        client_secret: Seq<char>,
        code: Seq<char>,
    },
    VerifyCredentials { client: ClientModel },
    FetchTimeline { client: ClientModel, fetch: TimelineFetchModel },
    CreatePost { client: ClientModel, draft: StatusDraftModel },
    ActOnPost { client: ClientModel, action: PostAction, post_id: Seq<char> },
    FetchNotifications { client: ClientModel, bounds: PageBoundsModel },
    ClearNotifications { client: ClientModel },
    DismissNotification { client: ClientModel, notification_id: Seq<char> },
    UploadMedia { client: ClientModel, request: MediaUploadRequestModel },
    FetchInstance { client: ClientModel },
    LoadDefaultAccount,
    LoadAccount { account_id: Seq<char> },
    ListAccounts,
    SaveAccount { account: StoredAccountModel },
    DeleteAccount { account_id: Seq<char> },
    SetDefaultAccount { account_id: Seq<char> },
    GetSetting { key: Seq<char> },
    SetSetting { key: Seq<char>, value: Seq<char> },
    ListSettings,
}

impl View for Effect {
    type V = EffectModel;

    open spec fn view(&self) -> EffectModel {
        match self {
            Effect::RegisterApp { instance_url } => EffectModel::RegisterApp {
                instance_url: instance_url@,
            },
            Effect::FetchAccessToken {
                instance_url,
                client_id,
                client_secret,
                code,
            } => EffectModel::FetchAccessToken {
                instance_url: instance_url@,
                client_id: client_id@,
                client_secret: client_secret@,
                code: code@,
            },
            Effect::VerifyCredentials { client } => EffectModel::VerifyCredentials {
                client: client@,
            },
            Effect::FetchTimeline { client, fetch } => EffectModel::FetchTimeline {
                client: client@,
                fetch: fetch@,
            },
            Effect::CreatePost { client, draft } => EffectModel::CreatePost {
                client: client@,
                draft: draft@,
            },
            Effect::ActOnPost { client, action, post_id } => EffectModel::ActOnPost {
                client: client@,
                action: *action,
                post_id: post_id@,
            },
            Effect::FetchNotifications { client, bounds } => EffectModel::FetchNotifications {
                client: client@,
                bounds: bounds@,
            },
            Effect::ClearNotifications { client } => EffectModel::ClearNotifications {
                client: client@,
            },
            Effect::DismissNotification {
                client,
                notification_id,
            } => EffectModel::DismissNotification {
                client: client@,
                notification_id: notification_id@,
            },
            Effect::UploadMedia { client, request } => EffectModel::UploadMedia {
                client: client@,
                request: request@,
            },
            Effect::FetchInstance { client } => EffectModel::FetchInstance { client: client@ },
            Effect::LoadDefaultAccount => EffectModel::LoadDefaultAccount,
            Effect::LoadAccount { account_id } => EffectModel::LoadAccount {
                account_id: account_id@,
            },
            Effect::ListAccounts => EffectModel::ListAccounts,
            Effect::SaveAccount { account } => EffectModel::SaveAccount { account: account@ },
            Effect::DeleteAccount { account_id } => EffectModel::DeleteAccount {
                account_id: account_id@,
            },
            Effect::SetDefaultAccount { account_id } => EffectModel::SetDefaultAccount {
                account_id: account_id@,
            },
            Effect::GetSetting { key } => EffectModel::GetSetting { key: key@ },
            Effect::SetSetting { key, value } => EffectModel::SetSetting {
                key: key@,
                value: value@,
            },
            Effect::ListSettings => EffectModel::ListSettings,
        }
    }
}

impl EffectModel {
    /// Whether the effect is a call of the remote service.
    pub open spec fn is_remote(self) -> bool {
        match self {
            EffectModel::RegisterApp { .. } => true,
            EffectModel::FetchAccessToken { .. } => true,
            EffectModel::VerifyCredentials { .. } => true,
            EffectModel::FetchTimeline { .. } => true,
            EffectModel::CreatePost { .. } => true,
            EffectModel::ActOnPost { .. } => true,
            EffectModel::FetchNotifications { .. } => true,
            EffectModel::ClearNotifications { .. } => true,
            EffectModel::DismissNotification { .. } => true,
            EffectModel::UploadMedia { .. } => true,
            EffectModel::FetchInstance { .. } => true,
            _ => false,
        }
    }
}

/// What came of an effect.
#[derive(Debug, Clone, PartialEq, Eq)]
pub enum Outcome {
    /// The call failed, for the reason given.
    Failed(String),
    /// No client could be made for the call, for the reason given.
    NoClient(String),
    /// The call succeeded and returns nothing.
    Done,
    /// The application is registered.
    App { client_id: String, client_secret: String },
    /// The access token.
    Token(String),
    /// The user to whom the token belongs.
    User(User),
    Posts(Vec<Post>),
    Notifications(Vec<Notification>),
    /// What the service sent, ready to be relayed.
    Document(Json),
    /// The post was not written: the service holds it for later.
    Scheduled,
    Account(Option<StoredAccount>),
    Accounts(Vec<StoredAccount>),
    Setting(Option<String>),
    /// Every setting, as pairs of key and value.
    Settings(Vec<(String, String)>),
}

/// What an `Outcome` is, as a mathematical value.
pub ghost enum OutcomeModel {
    Failed(Seq<char>),
    NoClient(Seq<char>),
    Done,
    App { client_id: Seq<char>, client_secret: Seq<char> },
    Token(Seq<char>),
    User(UserModel),
    Posts(Seq<PostModel>),
    Notifications(Seq<NotificationModel>),
    Document(JsonModel),
    Scheduled,
    Account(Option<StoredAccountModel>),
    Accounts(Seq<StoredAccountModel>),
    Setting(Option<Seq<char>>),
    Settings(Seq<(Seq<char>, Seq<char>)>),
}

/// The model of an optional account.
pub open spec fn optional_account(account: Option<StoredAccount>) -> Option<StoredAccountModel> {
    match account {
        Some(a) => Some(a@),
        None => None,
    }
}

/// The characters of each pair of `pairs`.
pub open spec fn pairs_view(pairs: Seq<(String, String)>) -> Seq<(Seq<char>, Seq<char>)> {
    Seq::new(pairs.len(), |i: int| (pairs[i].0@, pairs[i].1@))
}

impl View for Outcome {
    type V = OutcomeModel;

    open spec fn view(&self) -> OutcomeModel {
        match self {
            Outcome::Failed(e) => OutcomeModel::Failed(e@),
            Outcome::NoClient(e) => OutcomeModel::NoClient(e@),
            Outcome::Done => OutcomeModel::Done,
            Outcome::App { client_id, client_secret } => OutcomeModel::App {
                client_id: client_id@,
                client_secret: client_secret@,
            },
            Outcome::Token(t) => OutcomeModel::Token(t@),
            Outcome::User(u) => OutcomeModel::User(u@),
            Outcome::Posts(p) => OutcomeModel::Posts(posts_view(p@)),
            Outcome::Notifications(n) => OutcomeModel::Notifications(notifications_view(n@)),
            Outcome::Document(d) => OutcomeModel::Document(d@),
            Outcome::Scheduled => OutcomeModel::Scheduled,
            Outcome::Account(a) => OutcomeModel::Account(optional_account(*a)),
            Outcome::Accounts(a) => OutcomeModel::Accounts(accounts_view(a@)),
            Outcome::Setting(s) => OutcomeModel::Setting(optional_text(*s)),
            Outcome::Settings(s) => OutcomeModel::Settings(pairs_view(s@)),
        }
    }
}

impl OutcomeModel {
    /// The reason of an outcome that is a failure.
    pub open spec fn failure(self) -> Option<Seq<char>> {
        match self {
            OutcomeModel::Failed(e) => Some(e),
            OutcomeModel::NoClient(e) => Some(e),
            _ => None,
        }
    }
}

/// What a request waits for: the effect that was asked on its behalf, and
/// what to go on with when the outcome is there.
#[derive(Debug, Clone, PartialEq, Eq)]
pub enum Stage {
    /// Signing in has started: the application is being registered.
    AuthStart { instance_url: String },
    /// The user granted access: the token is being fetched.
    AuthToken { instance_url: String },
    /// The token is there: its user is being asked for.
    AuthVerify { client: MastodonClient },
    /// The user is known: the account is being written.
    AuthSave { client: MastodonClient, account: StoredAccount },
    /// The account is written: it is being made the default.
    AuthDefault { client: MastodonClient, account: StoredAccount },
    /// The user signed out: the account is being deleted.
    LogoutDelete,
    /// The accounts are being listed.
    ListAccounts { authenticated: bool, current_account_id: Option<String> },
    /// A switch of accounts: the account is being read.
    SwitchLoad { account_id: String },
    /// A switch of accounts: the account's token is being verified.
    SwitchVerify { account_id: String, account: StoredAccount, client: MastodonClient },
    /// A switch of accounts: the account is being made the default.
    SwitchDefault { account: StoredAccount, user: Json },
    DeleteAccount,
    GetSetting { key: String },
    SetSetting,
    ListSettings,
    Timeline { limit: u32 },
    CreatePost,
    ActOnPost { action: PostAction },
    Instance,
    Notifications { limit: u32 },
    ClearNotifications,
    DismissNotification,
    UploadMedia,
    /// The start of a run: the account to sign in with is being read.
    RestoreLoad,
    /// The start of a run: the account's token is being verified.
    RestoreVerify { account_id: String, client: MastodonClient },
    /// The start of a run: the account is being marked as used.
    RestoreDefault,
}

/// What a `Stage` is, as a mathematical value.
pub ghost enum StageModel {
    AuthStart { instance_url: Seq<char> },
    AuthToken { instance_url: Seq<char> },
    AuthVerify { client: ClientModel },
    AuthSave { client: ClientModel, account: StoredAccountModel },
    AuthDefault { client: ClientModel, account: StoredAccountModel },
    LogoutDelete,
    ListAccounts { authenticated: bool, current_account_id: Option<Seq<char>> },
    SwitchLoad { account_id: Seq<char> },
    SwitchVerify { account_id: Seq<char>, account: StoredAccountModel, client: ClientModel },
    SwitchDefault { account: StoredAccountModel, user: JsonModel },
    DeleteAccount,
    GetSetting { key: Seq<char> },
    SetSetting,
    ListSettings,
    Timeline { limit: u32 },
    CreatePost,
    ActOnPost { action: PostAction },
    Instance,
    Notifications { limit: u32 },
    ClearNotifications,
    DismissNotification,
    UploadMedia,
    RestoreLoad,
    RestoreVerify { account_id: Seq<char>, client: ClientModel },
    RestoreDefault,
}

impl View for Stage {
    type V = StageModel;

    open spec fn view(&self) -> StageModel {
        match self {
            Stage::AuthStart { instance_url } => StageModel::AuthStart {
                instance_url: instance_url@,
            },
            Stage::AuthToken { instance_url } => StageModel::AuthToken {
                instance_url: instance_url@,
            },
            Stage::AuthVerify { client } => StageModel::AuthVerify { client: client@ },
            Stage::AuthSave { client, account } => StageModel::AuthSave {
                client: client@,
                account: account@,
            },
            Stage::AuthDefault { client, account } => StageModel::AuthDefault {
                client: client@,
                account: account@,
            },
            Stage::LogoutDelete => StageModel::LogoutDelete,
            Stage::ListAccounts { authenticated, current_account_id } => StageModel::ListAccounts {
                authenticated: *authenticated,
                current_account_id: optional_text(*current_account_id),
            },
            Stage::SwitchLoad { account_id } => StageModel::SwitchLoad { account_id: account_id@ },
            Stage::SwitchVerify { account_id, account, client } => StageModel::SwitchVerify {
                account_id: account_id@,
                account: account@,
                client: client@,
            },
            Stage::SwitchDefault { account, user } => StageModel::SwitchDefault {
                account: account@,
                user: user@,
            },
            Stage::DeleteAccount => StageModel::DeleteAccount,
            Stage::GetSetting { key } => StageModel::GetSetting { key: key@ },
            Stage::SetSetting => StageModel::SetSetting,
            Stage::ListSettings => StageModel::ListSettings,
            Stage::Timeline { limit } => StageModel::Timeline { limit: *limit },
            Stage::CreatePost => StageModel::CreatePost,
            Stage::ActOnPost { action } => StageModel::ActOnPost { action: *action },
            Stage::Instance => StageModel::Instance,
            Stage::Notifications { limit } => StageModel::Notifications { limit: *limit },
            Stage::ClearNotifications => StageModel::ClearNotifications,
            Stage::DismissNotification => StageModel::DismissNotification,
            Stage::UploadMedia => StageModel::UploadMedia,
            Stage::RestoreLoad => StageModel::RestoreLoad,
            Stage::RestoreVerify { account_id, client } => StageModel::RestoreVerify {
                account_id: account_id@,
                client: client@,
            },
            Stage::RestoreDefault => StageModel::RestoreDefault,
        }
    }
}

impl StageModel {
    /// Whether the stage belongs to the start of a run, which answers no
    /// request.
    pub open spec fn is_restore(self) -> bool {
        self is RestoreLoad || self is RestoreVerify || self is RestoreDefault
    }
}

/// A request in flight: its identifier and what it waits for.
#[derive(Debug, Clone, PartialEq, Eq)]
pub struct Pending {
    pub id: String,
    pub stage: Stage,
}

/// What a `Pending` is, as a mathematical value.
pub ghost struct PendingModel {
    pub id: Seq<char>,
    pub stage: StageModel,
}

impl View for Pending {
    type V = PendingModel;

    open spec fn view(&self) -> PendingModel {
        PendingModel { id: self.id@, stage: self.stage@ }
    }
}

/// What the router wants next.
#[derive(Debug, Clone, PartialEq, Eq)]
pub enum Step {
    /// Send this response: the request is done.
    Reply(IpcMessage),
    /// Perform the effect, and come back with its outcome and `pending`.
    Perform { effect: Effect, pending: Pending },
    /// Nothing is left to do, and nothing is sent.
    Idle,
}

/// What a `Step` is, as a mathematical value.
pub ghost enum StepModel {
    Reply(MessageModel),
    Perform { effect: EffectModel, pending: PendingModel },
    Idle,
}

impl View for Step {
    type V = StepModel;

    open spec fn view(&self) -> StepModel {
        match self {
            Step::Reply(m) => StepModel::Reply(m@),
            Step::Perform { effect, pending } => StepModel::Perform {
                effect: effect@,
                pending: pending@,
            },
            Step::Idle => StepModel::Idle,
        }
    }
}

impl StepModel {
    /// The step that answers the request `id` with `result`.
    pub open spec fn ok(id: Seq<char>, result: JsonModel) -> StepModel {
        StepModel::Reply(MessageModel::response_ok(id, result))
    }

    /// The step that answers the request `id` with an error.
    pub open spec fn fail(id: Seq<char>, code: int, message: Seq<char>) -> StepModel {
        StepModel::Reply(MessageModel::failure(id, code, message))
    }

    /// The step that asks for `effect` on behalf of the request `id`.
    pub open spec fn perform(effect: EffectModel, id: Seq<char>, stage: StageModel) -> StepModel {
        StepModel::Perform { effect, pending: PendingModel { id, stage } }
    }

    /// Whether the step belongs to the request `id`: a response to it, or an
    /// effect on its behalf.
    pub open spec fn belongs_to(self, id: Seq<char>) -> bool {
        match self {
            StepModel::Reply(m) => m.answers(id),
            StepModel::Perform { effect, pending } => pending.id == id && !pending.stage.is_restore(),
            StepModel::Idle => false,
        }
    }
}

} // verus!
