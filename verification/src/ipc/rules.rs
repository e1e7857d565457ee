//! What the router and the session manager do, as mathematics: the state
//! that they keep, and what each request and each outcome leads to.

use crate::api::client::account_id_of;
use crate::api::client::authorization_url_of;
use crate::api::client::normalized_url;
use crate::api::client::page_limit;
use crate::api::client::ClientModel;
use crate::api::client::OAuthAppDataModel;
use crate::ipc::protocol::EffectModel;
use crate::ipc::protocol::Method;
use crate::ipc::protocol::OutcomeModel;
use crate::ipc::protocol::PendingModel;
use crate::ipc::protocol::PostAction;
use crate::ipc::protocol::StageModel;
use crate::ipc::protocol::StepModel;
use crate::json::JsonModel;
use crate::models::account::AuthResponse;
use crate::models::account::StoredAccountModel;
use crate::models::error_codes::API_ERROR;
use crate::models::error_codes::INTERNAL_ERROR;
use crate::models::error_codes::INVALID_PARAMS;
use crate::models::error_codes::METHOD_NOT_FOUND;
use crate::models::error_codes::NOT_AUTHENTICATED;
use crate::models::ipc_message::MessageModel;
use crate::models::media::MediaUploadRequestModel;
use crate::models::notification::NotificationRequestModel;
use crate::models::notification::NotificationResponseModel;
use crate::models::post::new_post_of;
use crate::models::timeline::text_or_null;
use crate::models::timeline::TimelineRequestModel;
use crate::models::timeline::TimelineResponseModel;
use crate::models::user::UserModel;
use vstd::prelude::*;

verus! {

/// The state that is shared by all requests: the session, which is the
/// client and the account that is signed in, and the one application that
/// waits for its user to grant access.
pub ghost struct HandlerModel {
    pub client: Option<ClientModel>,
    pub current_account_id: Option<Seq<char>>,
    pub pending_oauth: Option<OAuthAppDataModel>,
}

/// The document that reports success and nothing more.
pub open spec fn success_document() -> JsonModel {
    JsonModel::Object(seq![("success"@, JsonModel::Bool(true))])
}

/// The document that answers a ping at the time whose text is `stamp`.
pub open spec fn pong_document(stamp: Seq<char>) -> JsonModel {
    JsonModel::Object(
        seq![("pong"@, JsonModel::Bool(true)), ("timestamp"@, JsonModel::Text(stamp))],
    )
}

/// The document that acknowledges a request to shut down.
pub open spec fn shutdown_document() -> JsonModel {
    JsonModel::Object(seq![("status"@, JsonModel::Text("shutting_down"@))])
}

/// The document for a sign-in whose token is there but whose user could not
/// be fetched. Nobody is signed in by such a sign-in.
pub open spec fn unverified_document(reason: Seq<char>) -> JsonModel {
    JsonModel::Object(
        seq![
            ("success"@, JsonModel::Bool(true)),
            ("error_fetching_user"@, JsonModel::Text(reason)),
        ],
    )
}

/// The document for a completed sign-in to `account`, which is shown as the
/// default account.
pub open spec fn signed_in_document(account: StoredAccountModel) -> JsonModel {
    JsonModel::Object(
        seq![
            ("success"@, JsonModel::Bool(true)),
            ("account"@, (StoredAccountModel { is_default: true, ..account }).summary()),
        ],
    )
}

/// The document that lists `accounts` and tells who is signed in.
pub open spec fn accounts_document(
    authenticated: bool,
    current_account_id: Option<Seq<char>>,
    accounts: Seq<StoredAccountModel>,
) -> JsonModel {
    JsonModel::Object(
        seq![
            ("authenticated"@, JsonModel::Bool(authenticated)),
            ("current_account_id"@, text_or_null(current_account_id)),
            ("accounts"@, JsonModel::Array(Seq::new(accounts.len(), |i: int| accounts[i].to_json()))),
        ],
    )
}

/// The document for a completed switch to `account`, whose user is `user`.
pub open spec fn switched_document(account: StoredAccountModel, user: JsonModel) -> JsonModel {
    JsonModel::Object(
        seq![
            ("success"@, JsonModel::Bool(true)),
            ("account"@, account.to_json()),
            ("user"@, user),
        ],
    )
}

/// The document for the setting `key`: its value, or `null` where it has
/// none.
pub open spec fn setting_document(key: Seq<char>, value: Option<Seq<char>>) -> JsonModel {
    JsonModel::Object(seq![("key"@, JsonModel::Text(key)), ("value"@, text_or_null(value))])
}

/// The document for all settings.
pub open spec fn settings_document(settings: Seq<(Seq<char>, Seq<char>)>) -> JsonModel {
    JsonModel::Object(
        seq![
            (
                "settings"@,
                JsonModel::Object(
                    Seq::new(
                        settings.len(),
                        |i: int| (settings[i].0, JsonModel::Text(settings[i].1)),
                    ),
                ),
            ),
        ],
    )
}

/// The account that is written for the user `user` who signed in through
/// `client` at the time `now`. It is written as no default: it becomes the
/// default by the effect that follows, which first takes the mark from
/// every other account.
pub open spec fn account_of(user: UserModel, client: ClientModel, now: i64) -> StoredAccountModel {
    StoredAccountModel {
        id: account_id_of(user.username, client.instance_url),
        instance_url: client.instance_url,
        username: user.username,
        acct: user.acct,
        display_name: user.display_name,
        access_token: client.access_token,
        refresh_token: None,
        token_expires_at: None,
        added_at: now,
        last_used_at: now,
        is_default: false,
        avatar_url: Some(user.avatar),
        blindodon_pm_private_key: None,
        blindodon_pm_public_key: None,
    }
}

/// The answer to an outcome that the stage has no use for.
pub open spec fn unexpected(id: Seq<char>) -> StepModel {
    StepModel::fail(id, INTERNAL_ERROR as int, "Unexpected outcome"@)
}

/// The answer to a request of a method for signed-in users from a peer who
/// is not signed in.
pub open spec fn not_authenticated(id: Seq<char>) -> StepModel {
    StepModel::fail(id, NOT_AUTHENTICATED as int, "Not authenticated"@)
}

/// The answer to a request that lacks what `what` names.
pub open spec fn missing_parameter(id: Seq<char>, what: Seq<char>) -> StepModel {
    StepModel::fail(id, INVALID_PARAMS as int, "Missing "@ + what)
}

/// The answer to a request whose parameters are not accepted, for `reason`.
pub open spec fn invalid_parameters(id: Seq<char>, reason: Seq<char>) -> StepModel {
    StepModel::fail(id, INVALID_PARAMS as int, "Invalid params: "@ + reason)
}

impl HandlerModel {
    /// The state in which nobody is signed in and nothing is pending.
    pub open spec fn initial() -> HandlerModel {
        HandlerModel { client: None, current_account_id: None, pending_oauth: None }
    }

    /// Whether somebody is signed in.
    pub open spec fn is_authenticated(self) -> bool {
        self.client is Some
    }

    /// Whether the session is whole: nobody is signed in, and there is
    /// neither a client nor an account, or somebody is, and there are both.
    pub open spec fn is_whole(self) -> bool {
        (self.client is Some) == (self.current_account_id is Some)
    }

    /// The same state with nobody signed in.
    pub open spec fn signed_out(self) -> HandlerModel {
        HandlerModel { client: None, current_account_id: None, ..self }
    }

    /// The same state with `account_id` signed in through `client`.
    pub open spec fn signed_in(self, client: ClientModel, account_id: Seq<char>) -> HandlerModel {
        HandlerModel { client: Some(client), current_account_id: Some(account_id), ..self }
    }

    /// The same state without the pending application, where it is pending
    /// for the instance at `instance_url`; any other pending application
    /// stays.
    pub open spec fn consumed(self, instance_url: Seq<char>) -> HandlerModel {
        match self.pending_oauth {
            Some(app) => if app.instance_url == instance_url {
                HandlerModel { pending_oauth: None, ..self }
            } else {
                self
            },
            None => self,
        }
    }

    /// What a request to start signing in leads to.
    pub open spec fn auth_start(self, id: Seq<char>, params: Option<JsonModel>) -> (
        HandlerModel,
        StepModel,
    ) {
        match params {
            None => (self, missing_parameter(id, "params"@)),
            Some(p) => match p.text_field("instance_url"@) {
                None => (self, missing_parameter(id, "instance_url"@)),
                Some(url) => (
                    self,
                    StepModel::perform(
                        EffectModel::RegisterApp { instance_url: normalized_url(url) },
                        id,
                        StageModel::AuthStart { instance_url: normalized_url(url) },
                    ),
                ),
            },
        }
    }

    /// What the callback of a sign-in leads to. It goes on only where an
    /// application is pending for the very instance that the callback
    /// names; the pending application stays until the token is there.
    pub open spec fn auth_callback(self, id: Seq<char>, params: Option<JsonModel>) -> (
        HandlerModel,
        StepModel,
    ) {
        match params {
            None => (self, missing_parameter(id, "params"@)),
            Some(p) => match p.text_field("code"@) {
                None => (self, missing_parameter(id, "code"@)),
                Some(code) => match p.text_field("instance_url"@) {
                    None => (self, missing_parameter(id, "instance_url"@)),
                    Some(url) => match self.pending_oauth {
                        None => (
                            self,
                            StepModel::fail(
                                id,
                                API_ERROR as int,
                                "Auth failed: No pending OAuth flow"@,
                            ),
                        ),
                        Some(app) => if app.instance_url != normalized_url(url) {
                            (
                                self,
                                StepModel::fail(
                                    id,
                                    API_ERROR as int,
                                    "Auth failed: Instance URL mismatch"@,
                                ),
                            )
                        } else {
                            (
                                self,
                                StepModel::perform(
                                    EffectModel::FetchAccessToken {
                                        instance_url: normalized_url(url),
                                        client_id: app.client_id,
                                        client_secret: app.client_secret,
                                        code,
                                    },
                                    id,
                                    StageModel::AuthToken { instance_url: normalized_url(url) },
                                ),
                            )
                        },
                    },
                },
            },
        }
    }

    /// Whether a request to sign out asks to delete the account as well.
    pub open spec fn wants_deletion(params: Option<JsonModel>) -> bool {
        match params {
            Some(p) => p.flag_field("delete_account"@) == Some(true),
            None => false,
        }
    }

    /// What a request to sign out leads to: nobody is signed in any more,
    /// and the account that was is deleted where the request asks for it.
    pub open spec fn auth_logout(self, id: Seq<char>, params: Option<JsonModel>) -> (
        HandlerModel,
        StepModel,
    ) {
        if Self::wants_deletion(params) && self.current_account_id is Some {
            (
                self.signed_out(),
                StepModel::perform(
                    EffectModel::DeleteAccount { account_id: self.current_account_id->0 },
                    id,
                    StageModel::LogoutDelete,
                ),
            )
        } else {
            (self.signed_out(), StepModel::ok(id, success_document()))
        }
    }

    /// What a request for the list of accounts leads to.
    pub open spec fn auth_get_accounts(self, id: Seq<char>) -> (HandlerModel, StepModel) {
        (
            self,
            StepModel::perform(
                EffectModel::ListAccounts,
                id,
                StageModel::ListAccounts {
                    authenticated: self.is_authenticated(),
                    current_account_id: self.current_account_id,
                },
            ),
        )
    }

    /// What a request to switch accounts leads to.
    pub open spec fn auth_switch_account(self, id: Seq<char>, params: Option<JsonModel>) -> (
        HandlerModel,
        StepModel,
    ) {
        match params {
            None => (self, missing_parameter(id, "params"@)),
            Some(p) => match p.text_field("account_id"@) {
                None => (self, missing_parameter(id, "account_id"@)),
                Some(account_id) => (
                    self,
                    StepModel::perform(
                        EffectModel::LoadAccount { account_id },
                        id,
                        StageModel::SwitchLoad { account_id },
                    ),
                ),
            },
        }
    }

    /// What a request to delete an account leads to: where the account is
    /// the one that is signed in, nobody is signed in any more.
    pub open spec fn auth_delete_account(self, id: Seq<char>, params: Option<JsonModel>) -> (
        HandlerModel,
        StepModel,
    ) {
        match params {
            None => (self, missing_parameter(id, "params"@)),
            Some(p) => match p.text_field("account_id"@) {
                None => (self, missing_parameter(id, "account_id"@)),
                Some(account_id) => (
                    if self.current_account_id == Some(account_id) {
                        self.signed_out()
                    } else {
                        self
                    },
                    StepModel::perform(
                        EffectModel::DeleteAccount { account_id },
                        id,
                        StageModel::DeleteAccount,
                    ),
                ),
            },
        }
    }

    /// What a request for one setting leads to.
    pub open spec fn settings_get(self, id: Seq<char>, params: Option<JsonModel>) -> (
        HandlerModel,
        StepModel,
    ) {
        match params {
            None => (self, missing_parameter(id, "params"@)),
            Some(p) => match p.text_field("key"@) {
                None => (self, missing_parameter(id, "key"@)),
                Some(key) => (
                    self,
                    StepModel::perform(
                        EffectModel::GetSetting { key },
                        id,
                        StageModel::GetSetting { key },
                    ),
                ),
            },
        }
    }

    /// What a request to write one setting leads to.
    pub open spec fn settings_set(self, id: Seq<char>, params: Option<JsonModel>) -> (
        HandlerModel,
        StepModel,
    ) {
        match params {
            None => (self, missing_parameter(id, "params"@)),
            Some(p) => match p.text_field("key"@) {
                None => (self, missing_parameter(id, "key"@)),
                Some(key) => match p.text_field("value"@) {
                    None => (self, missing_parameter(id, "value"@)),
                    Some(value) => (
                        self,
                        StepModel::perform(
                            EffectModel::SetSetting { key, value },
                            id,
                            StageModel::SetSetting,
                        ),
                    ),
                },
            },
        }
    }

    /// What a request for all settings leads to.
    pub open spec fn settings_get_all(self, id: Seq<char>) -> (HandlerModel, StepModel) {
        (self, StepModel::perform(EffectModel::ListSettings, id, StageModel::ListSettings))
    }

    /// What a request for a timeline leads to, from a peer who is signed in
    /// through `client`.
    pub open spec fn timeline_get(
        self,
        client: ClientModel,
        id: Seq<char>,
        params: Option<JsonModel>,
    ) -> (HandlerModel, StepModel) {
        match params {
            None => (self, missing_parameter(id, "params"@)),
            Some(p) => match TimelineRequestModel::of_json(p) {
                Err(e) => (self, invalid_parameters(id, e)),
                Ok(request) => match request.fetch() {
                    None => (
                        self,
                        StepModel::ok(
                            id,
                            TimelineResponseModel::page(Seq::empty(), page_limit(request.limit))
                                .to_json(),
                        ),
                    ),
                    Some(fetch) => (
                        self,
                        StepModel::perform(
                            EffectModel::FetchTimeline { client, fetch },
                            id,
                            StageModel::Timeline { limit: page_limit(request.limit) as u32 },
                        ),
                    ),
                },
            },
        }
    }

    /// What a request to write a post leads to.
    pub open spec fn post_create(
        self,
        client: ClientModel,
        id: Seq<char>,
        params: Option<JsonModel>,
    ) -> (HandlerModel, StepModel) {
        match params {
            None => (self, missing_parameter(id, "params"@)),
            Some(p) => match new_post_of(p) {
                Err(e) => (self, invalid_parameters(id, e)),
                Ok(post) => (
                    self,
                    StepModel::perform(
                        EffectModel::CreatePost { client, draft: post.draft() },
                        id,
                        StageModel::CreatePost,
                    ),
                ),
            },
        }
    }

    /// What a request to act on a post leads to.
    pub open spec fn post_action(
        self,
        client: ClientModel,
        action: PostAction,
        id: Seq<char>,
        params: Option<JsonModel>,
    ) -> (HandlerModel, StepModel) {
        match params {
            None => (self, missing_parameter(id, "params"@)),
            Some(p) => match p.text_field("post_id"@) {
                None => (self, missing_parameter(id, "post_id"@)),
                Some(post_id) => (
                    self,
                    StepModel::perform(
                        EffectModel::ActOnPost { client, action, post_id },
                        id,
                        StageModel::ActOnPost { action },
                    ),
                ),
            },
        }
    }

    /// What a request for notifications leads to. A request without
    /// parameters asks for nothing in particular.
    pub open spec fn notifications_get(
        self,
        client: ClientModel,
        id: Seq<char>,
        params: Option<JsonModel>,
    ) -> (HandlerModel, StepModel) {
        let request = match params {
            None => Ok(NotificationRequestModel::empty()),
            Some(p) => NotificationRequestModel::of_json(p),
        };
        match request {
            Err(e) => (self, invalid_parameters(id, e)),
            Ok(r) => (
                self,
                StepModel::perform(
                    EffectModel::FetchNotifications { client, bounds: r.bounds() },
                    id,
                    StageModel::Notifications { limit: page_limit(r.limit) as u32 },
                ),
            ),
        }
    }

    /// What a request to dismiss one notification leads to.
    pub open spec fn notifications_dismiss(
        self,
        client: ClientModel,
        id: Seq<char>,
        params: Option<JsonModel>,
    ) -> (HandlerModel, StepModel) {
        match params {
            None => (self, missing_parameter(id, "params"@)),
            Some(p) => match p.text_field("notification_id"@) {
                None => (self, missing_parameter(id, "notification_id"@)),
                Some(notification_id) => (
                    self,
                    StepModel::perform(
                        EffectModel::DismissNotification { client, notification_id },
                        id,
                        StageModel::DismissNotification,
                    ),
                ),
            },
        }
    }

    /// What a request to upload media leads to.
    pub open spec fn media_upload(
        self,
        client: ClientModel,
        id: Seq<char>,
        params: Option<JsonModel>,
    ) -> (HandlerModel, StepModel) {
        match params {
            None => (self, missing_parameter(id, "params"@)),
            Some(p) => match MediaUploadRequestModel::of_json(p) {
                Err(e) => (self, invalid_parameters(id, e)),
                Ok(request) => (
                    self,
                    StepModel::perform(
                        EffectModel::UploadMedia { client, request },
                        id,
                        StageModel::UploadMedia,
                    ),
                ),
            },
        }
    }

    /// What a request of a method for signed-in users leads to, from a peer
    /// who is signed in through `client`.
    pub open spec fn with_session(
        self,
        method: Method,
        client: ClientModel,
        id: Seq<char>,
        params: Option<JsonModel>,
    ) -> (HandlerModel, StepModel) {
        match method {
            Method::TimelineGet => self.timeline_get(client, id, params),
            Method::PostCreate => self.post_create(client, id, params),
            Method::PostBoost => self.post_action(client, PostAction::Boost, id, params),
            Method::PostUnboost => self.post_action(client, PostAction::Unboost, id, params),
            Method::PostFavourite => self.post_action(client, PostAction::Favourite, id, params),
            Method::PostUnfavourite => self.post_action(
                client,
                PostAction::Unfavourite,
                id,
                params,
            ),
            Method::NotificationsGet => self.notifications_get(client, id, params),
            Method::NotificationsClear => (
                self,
                StepModel::perform(
                    EffectModel::ClearNotifications { client },
                    id,
                    StageModel::ClearNotifications,
                ),
            ),
            Method::NotificationsDismiss => self.notifications_dismiss(client, id, params),
            Method::MediaUpload => self.media_upload(client, id, params),
            _ => (
                self,
                StepModel::perform(EffectModel::FetchInstance { client }, id, StageModel::Instance),
            ),
        }
    }

    /// What a request of the method `method` leads to at the time whose text
    /// is `stamp`. A
    /// method for signed-in users is refused where nobody is signed in,
    /// before anything else is looked at.
    pub open spec fn serve(
        self,
        method: Method,
        id: Seq<char>,
        params: Option<JsonModel>,
        stamp: Seq<char>,
    ) -> (HandlerModel, StepModel) {
        match method {
            Method::Ping => (self, StepModel::ok(id, pong_document(stamp))),
            Method::Shutdown => (self, StepModel::ok(id, shutdown_document())),
            Method::AuthStart => self.auth_start(id, params),
            Method::AuthCallback => self.auth_callback(id, params),
            Method::AuthLogout => self.auth_logout(id, params),
            Method::AuthGetAccounts => self.auth_get_accounts(id),
            Method::AuthSwitchAccount => self.auth_switch_account(id, params),
            Method::AuthDeleteAccount => self.auth_delete_account(id, params),
            Method::SettingsGet => self.settings_get(id, params),
            Method::SettingsSet => self.settings_set(id, params),
            Method::SettingsGetAll => self.settings_get_all(id),
            _ => match self.client {
                None => (self, not_authenticated(id)),
                Some(client) => self.with_session(method, client, id, params),
            },
        }
    }

    /// The name of the method that `msg` calls; a message without one calls
    /// `unknown`.
    pub open spec fn method_name(msg: MessageModel) -> Seq<char> {
        match msg.method {
            Some(name) => name,
            None => "unknown"@,
        }
    }

    /// What the message `msg` leads to at the time whose text is `stamp`: the
    /// state after
    /// it, and the response to send or the effect to perform first.
    pub open spec fn handle(self, msg: MessageModel, stamp: Seq<char>) -> (
        HandlerModel,
        StepModel,
    ) {
        match Method::named(Self::method_name(msg)) {
            None => (
                self,
                StepModel::fail(
                    msg.id,
                    METHOD_NOT_FOUND as int,
                    "Unknown method: "@ + Self::method_name(msg),
                ),
            ),
            Some(method) => self.serve(method, msg.id, msg.params, stamp),
        }
    }

    /// What the start of a run leads to: the account to sign in with is
    /// read.
    pub open spec fn initialize(self) -> (HandlerModel, StepModel) {
        (
            self,
            StepModel::Perform {
                effect: EffectModel::LoadDefaultAccount,
                pending: PendingModel { id: Seq::empty(), stage: StageModel::RestoreLoad },
            },
        )
    }

    /// The answer to a failed call, with `context` before the reason: the
    /// error `code` where the outcome is a failure, and else the answer to an
    /// outcome that is of no use.
    pub open spec fn failed(id: Seq<char>, outcome: OutcomeModel, code: int, context: Seq<char>)
        -> StepModel {
        match outcome.failure() {
            Some(reason) => StepModel::fail(id, code, context + reason),
            None => unexpected(id),
        }
    }

    /// What the outcome `outcome` leads to for the request in flight
    /// `pending`, where `fresh` is a new random text and `now` the time.
    pub open spec fn resume(
        self,
        pending: PendingModel,
        outcome: OutcomeModel,
        fresh: Seq<char>,
        now: i64,
    ) -> (HandlerModel, StepModel) {
        let id = pending.id;
        match pending.stage {
            StageModel::AuthStart { instance_url } => match outcome {
                OutcomeModel::App { client_id, client_secret } => (
                    HandlerModel {
                        pending_oauth: Some(
                            OAuthAppDataModel { client_id, client_secret, instance_url },
                        ),
                        ..self
                    },
                    StepModel::ok(
                        id,
                        AuthResponse::document(
                            authorization_url_of(instance_url, client_id),
                            fresh,
                        ),
                    ),
                ),
                _ => (self, Self::failed(id, outcome, API_ERROR as int, "Auth failed: "@)),
            },
            StageModel::AuthToken { instance_url } => match outcome {
                OutcomeModel::Token(token) => (
                    self.consumed(instance_url),
                    StepModel::perform(
                        EffectModel::VerifyCredentials {
                            client: ClientModel { instance_url, access_token: token },
                        },
                        id,
                        StageModel::AuthVerify {
                            client: ClientModel { instance_url, access_token: token },
                        },
                    ),
                ),
                _ => (self, Self::failed(id, outcome, API_ERROR as int, "Auth failed: "@)),
            },
            StageModel::AuthVerify { client } => match outcome {
                OutcomeModel::User(user) => (
                    self,
                    StepModel::perform(
                        EffectModel::SaveAccount { account: account_of(user, client, now) },
                        id,
                        StageModel::AuthSave { client, account: account_of(user, client, now) },
                    ),
                ),
                OutcomeModel::Failed(reason) => (
                    self,
                    StepModel::ok(id, unverified_document(reason)),
                ),
                _ => (self, Self::failed(id, outcome, API_ERROR as int, "Auth failed: "@)),
            },
            StageModel::AuthSave { client, account } => (
                self,
                StepModel::perform(
                    EffectModel::SetDefaultAccount { account_id: account.id },
                    id,
                    StageModel::AuthDefault { client, account },
                ),
            ),
            StageModel::AuthDefault { client, account } => (
                self.signed_in(client, account.id),
                StepModel::ok(id, signed_in_document(account)),
            ),
            StageModel::LogoutDelete => match outcome {
                OutcomeModel::Done => (self, StepModel::ok(id, success_document())),
                _ => (
                    self,
                    Self::failed(id, outcome, INTERNAL_ERROR as int, "Failed to delete account: "@),
                ),
            },
            StageModel::ListAccounts { authenticated, current_account_id } => match outcome {
                OutcomeModel::Accounts(accounts) => (
                    self,
                    StepModel::ok(
                        id,
                        accounts_document(authenticated, current_account_id, accounts),
                    ),
                ),
                _ => (self, Self::failed(id, outcome, INTERNAL_ERROR as int, "Database error: "@)),
            },
            StageModel::SwitchLoad { account_id } => match outcome {
                OutcomeModel::Account(Some(account)) => (
                    self,
                    StepModel::perform(
                        EffectModel::VerifyCredentials {
                            client: ClientModel::from_token(
                                account.instance_url,
                                account.access_token,
                            ),
                        },
                        id,
                        StageModel::SwitchVerify {
                            account_id,
                            account,
                            client: ClientModel::from_token(
                                account.instance_url,
                                account.access_token,
                            ),
                        },
                    ),
                ),
                OutcomeModel::Account(None) => (
                    self,
                    StepModel::fail(id, NOT_AUTHENTICATED as int, "Account not found"@),
                ),
                _ => (self, Self::failed(id, outcome, INTERNAL_ERROR as int, "Database error: "@)),
            },
            StageModel::SwitchVerify { account_id, account, client } => match outcome {
                OutcomeModel::User(user) => (
                    self.signed_in(client, account_id),
                    StepModel::perform(
                        EffectModel::SetDefaultAccount { account_id },
                        id,
                        StageModel::SwitchDefault { account, user: user.document },
                    ),
                ),
                OutcomeModel::NoClient(reason) => (
                    self,
                    StepModel::fail(id, INTERNAL_ERROR as int, "Failed to create client: "@ + reason),
                ),
                _ => (
                    self,
                    Self::failed(
                        id,
                        outcome,
                        API_ERROR as int,
                        "Token expired, please re-authenticate: "@,
                    ),
                ),
            },
            StageModel::SwitchDefault { account, user } => (
                self,
                StepModel::ok(id, switched_document(account, user)),
            ),
            StageModel::DeleteAccount => match outcome {
                OutcomeModel::Done => (self, StepModel::ok(id, success_document())),
                _ => (
                    self,
                    Self::failed(id, outcome, INTERNAL_ERROR as int, "Failed to delete account: "@),
                ),
            },
            StageModel::GetSetting { key } => match outcome {
                OutcomeModel::Setting(value) => (
                    self,
                    StepModel::ok(id, setting_document(key, value)),
                ),
                _ => (self, Self::failed(id, outcome, INTERNAL_ERROR as int, "Database error: "@)),
            },
            StageModel::SetSetting => match outcome {
                OutcomeModel::Done => (self, StepModel::ok(id, success_document())),
                _ => (self, Self::failed(id, outcome, INTERNAL_ERROR as int, "Database error: "@)),
            },
            StageModel::ListSettings => match outcome {
                OutcomeModel::Settings(settings) => (
                    self,
                    StepModel::ok(id, settings_document(settings)),
                ),
                _ => (self, Self::failed(id, outcome, INTERNAL_ERROR as int, "Database error: "@)),
            },
            StageModel::Timeline { limit } => match outcome {
                OutcomeModel::Posts(posts) => (
                    self,
                    StepModel::ok(id, TimelineResponseModel::page(posts, limit as int).to_json()),
                ),
                _ => (
                    self,
                    Self::failed(id, outcome, API_ERROR as int, "Failed to fetch timeline: "@),
                ),
            },
            StageModel::CreatePost => match outcome {
                OutcomeModel::Document(post) => (self, StepModel::ok(id, post)),
                OutcomeModel::Scheduled => (
                    self,
                    StepModel::fail(
                        id,
                        API_ERROR as int,
                        "Failed to create post: Scheduled status not supported"@,
                    ),
                ),
                _ => (
                    self,
                    Self::failed(id, outcome, API_ERROR as int, "Failed to create post: "@),
                ),
            },
            StageModel::ActOnPost { action } => match outcome {
                OutcomeModel::Document(post) => (self, StepModel::ok(id, post)),
                _ => (
                    self,
                    Self::failed(
                        id,
                        outcome,
                        API_ERROR as int,
                        "Failed to "@ + action.verb() + " post: "@,
                    ),
                ),
            },
            StageModel::Instance => match outcome {
                OutcomeModel::Document(info) => (self, StepModel::ok(id, info)),
                _ => (
                    self,
                    Self::failed(id, outcome, API_ERROR as int, "Failed to get instance info: "@),
                ),
            },
            StageModel::Notifications { limit } => match outcome {
                OutcomeModel::Notifications(notifications) => (
                    self,
                    StepModel::ok(
                        id,
                        NotificationResponseModel::page(notifications, limit as int).to_json(),
                    ),
                ),
                _ => (
                    self,
                    Self::failed(id, outcome, API_ERROR as int, "Failed to fetch notifications: "@),
                ),
            },
            StageModel::ClearNotifications => match outcome {
                OutcomeModel::Done => (self, StepModel::ok(id, success_document())),
                _ => (
                    self,
                    Self::failed(id, outcome, API_ERROR as int, "Failed to clear notifications: "@),
                ),
            },
            StageModel::DismissNotification => match outcome {
                OutcomeModel::Done => (self, StepModel::ok(id, success_document())),
                _ => (
                    self,
                    Self::failed(id, outcome, API_ERROR as int, "Failed to dismiss notification: "@),
                ),
            },
            StageModel::UploadMedia => match outcome {
                OutcomeModel::Document(attachment) => (self, StepModel::ok(id, attachment)),
                _ => (
                    self,
                    Self::failed(id, outcome, API_ERROR as int, "Failed to upload media: "@),
                ),
            },
            StageModel::RestoreLoad => match outcome {
                OutcomeModel::Account(Some(account)) => (
                    self,
                    StepModel::Perform {
                        effect: EffectModel::VerifyCredentials {
                            client: ClientModel::from_token(
                                account.instance_url,
                                account.access_token,
                            ),
                        },
                        pending: PendingModel {
                            id,
                            stage: StageModel::RestoreVerify {
                                account_id: account.id,
                                client: ClientModel::from_token(
                                    account.instance_url,
                                    account.access_token,
                                ),
                            },
                        },
                    },
                ),
                _ => (self, StepModel::Idle),
            },
            StageModel::RestoreVerify { account_id, client } => match outcome {
                OutcomeModel::User(user) => (
                    self.signed_in(client, account_id),
                    StepModel::Perform {
                        effect: EffectModel::SetDefaultAccount { account_id },
                        pending: PendingModel { id, stage: StageModel::RestoreDefault },
                    },
                ),
                _ => (self, StepModel::Idle),
            },
            StageModel::RestoreDefault => (self, StepModel::Idle),
        }
    }
}

} // verus!
