//! The router and the session manager: they take a request, or the outcome
//! of an effect, and say what to do next.

use crate::api::client::account_id;
use crate::api::client::authorization_url;
use crate::api::client::effective_limit;
use crate::api::client::normalize_url;
use crate::api::client::plan_notifications;
use crate::api::client::plan_post;
use crate::api::client::plan_timeline;
use crate::api::client::MastodonClient;
use crate::api::client::OAuthAppData;
use crate::clock::now;
use crate::ids::random_id;
use crate::ids::is_identifier;
use crate::ipc::protocol::pairs_view;
use crate::ipc::protocol::Effect;
use crate::ipc::protocol::Method;
use crate::ipc::protocol::Outcome;
use crate::ipc::protocol::Pending;
use crate::ipc::protocol::PostAction;
use crate::ipc::protocol::Stage;
use crate::ipc::protocol::Step;
use crate::ipc::protocol::StepModel;
use crate::ipc::rules::account_of;
use crate::ipc::rules::accounts_document;
use crate::ipc::rules::invalid_parameters;
use crate::ipc::rules::missing_parameter;
use crate::ipc::rules::pong_document;
use crate::ipc::rules::setting_document;
use crate::ipc::rules::settings_document;
use crate::ipc::rules::shutdown_document;
use crate::ipc::rules::signed_in_document;
use crate::ipc::rules::success_document;
use crate::ipc::rules::switched_document;
use crate::ipc::rules::unverified_document;
use crate::ipc::rules::HandlerModel;
use crate::json::items_view;
use crate::json::Json;
use crate::json::JsonModel;
use crate::json::ObjectBuilder;
use crate::models::account::accounts_view;
use crate::models::account::AuthResponse;
use crate::models::account::StoredAccount;
use crate::models::error_codes::API_ERROR;
use crate::models::error_codes::INTERNAL_ERROR;
use crate::models::error_codes::INVALID_PARAMS;
use crate::models::error_codes::METHOD_NOT_FOUND;
use crate::models::error_codes::NOT_AUTHENTICATED;
use crate::models::ipc_message::optional_text;
use crate::models::ipc_message::IpcError;
use crate::models::ipc_message::IpcMessage;
use crate::models::media::MediaUploadRequest;
use crate::models::notification::NotificationRequest;
use crate::models::notification::NotificationResponse;
use crate::models::post::NewPost;
use crate::models::timeline::TimelineRequest;
use crate::models::timeline::TimelineResponse;
use crate::models::user::User;
use crate::text::copy_optional;
use crate::text::join;
use crate::text::same_text;
use vstd::prelude::*;

verus! {

/// The step that answers the request `id` with `result`.
fn reply_ok(id: &str, result: Json) -> (step: Step)
    ensures
        step@ == StepModel::ok(id@, result@),
{
    Step::Reply(IpcMessage::response_ok(id, result))
}

/// The step that answers the request `id` with an error.
fn reply_fail(id: &str, code: i32, message: &str) -> (step: Step)
    ensures
        step@ == StepModel::fail(id@, code as int, message@),
{
    Step::Reply(IpcMessage::response_err(id, IpcError::new(code, message)))
}

/// The step that asks for `effect` on behalf of the request `id`.
fn perform(effect: Effect, id: &str, stage: Stage) -> (step: Step)
    ensures
        step@ == StepModel::perform(effect@, id@, stage@),
{
    Step::Perform { effect, pending: Pending { id: String::from_str(id), stage } }
}

/// The answer to a request that lacks what `what` names.
fn reply_missing(id: &str, what: &str) -> (step: Step)
    ensures
        step@ == missing_parameter(id@, what@),
{
    reply_fail(id, INVALID_PARAMS, join("Missing ", what).as_str())
}

/// The answer to a request whose parameters are not accepted.
fn reply_invalid(id: &str, reason: &str) -> (step: Step)
    ensures
        step@ == invalid_parameters(id@, reason@),
{
    reply_fail(id, INVALID_PARAMS, join("Invalid params: ", reason).as_str())
}

/// The answer to a failed call, with `context` before the reason.
fn reply_failed(id: &str, outcome: &Outcome, code: i32, context: &str) -> (step: Step)
    ensures
        step@ == HandlerModel::failed(id@, outcome@, code as int, context@),
{
    match outcome {
        Outcome::Failed(reason) => reply_fail(id, code, join(context, reason.as_str()).as_str()),
        Outcome::NoClient(reason) => reply_fail(id, code, join(context, reason.as_str()).as_str()),
        _ => reply_fail(id, INTERNAL_ERROR, "Unexpected outcome"),
    }
}

/// The document that reports success and nothing more.
fn success() -> (r: Json)
    ensures
        r@ == success_document(),
{
    let out = ObjectBuilder::new().member("success", Json::Bool(true)).build();
    assert(out@->Object_0 =~= success_document()->Object_0);
    out
}

/// The document that answers a ping at the time whose text is `stamp`.
fn pong(stamp: &str) -> (r: Json)
    ensures
        r@ == pong_document(stamp@),
{
    let out = ObjectBuilder::new().member("pong", Json::Bool(true)).member(
        "timestamp",
        Json::text(stamp),
    ).build();
    assert(out@->Object_0 =~= pong_document(stamp@)->Object_0);
    out
}

/// The document that acknowledges a request to shut down.
fn shutting_down() -> (r: Json)
    ensures
        r@ == shutdown_document(),
{
    let out = ObjectBuilder::new().member("status", Json::text("shutting_down")).build();
    assert(out@->Object_0 =~= shutdown_document()->Object_0);
    out
}

/// The document for a sign-in whose user could not be fetched.
fn unverified(reason: &str) -> (r: Json)
    ensures
        r@ == unverified_document(reason@),
{
    let out = ObjectBuilder::new().member("success", Json::Bool(true)).member(
        "error_fetching_user",
        Json::text(reason),
    ).build();
    assert(out@->Object_0 =~= unverified_document(reason@)->Object_0);
    out
}

/// The document for a completed sign-in to `account`.
fn signed_in(account: &StoredAccount) -> (r: Json)
    ensures
        r@ == signed_in_document(account@),
{
    let mut shown = account.duplicate();
    shown.is_default = true;
    let out = ObjectBuilder::new().member("success", Json::Bool(true)).member(
        "account",
        shown.summary(),
    ).build();
    assert(out@->Object_0 =~= signed_in_document(account@)->Object_0);
    out
}

/// The document that lists `accounts` and tells who is signed in.
fn accounts_listing(
    authenticated: bool,
    current_account_id: &Option<String>,
    accounts: &Vec<StoredAccount>,
) -> (r: Json)
    ensures
        r@ == accounts_document(
            authenticated,
            optional_text(*current_account_id),
            accounts_view(accounts@),
        ),
{
    let mut documents: Vec<Json> = Vec::new();
    let mut i: usize = 0;
    while i < accounts.len()
        invariant
            i <= accounts.len(),
            documents@.len() == i,
            forall|k: int| 0 <= k < i ==> documents@[k]@ == accounts@[k]@.to_json(),
        decreases accounts.len() - i,
    {
        documents.push(accounts[i].to_json());
        i += 1;
    }
    let ghost models = accounts_view(accounts@);
    assert(items_view(documents@) =~= Seq::new(models.len(), |i: int| models[i].to_json()));
    let out = ObjectBuilder::new().member("authenticated", Json::Bool(authenticated)).member(
        "current_account_id",
        Json::optional_text(current_account_id),
    ).member("accounts", Json::array(documents)).build();
    assert(out@->Object_0 =~= accounts_document(
        authenticated,
        optional_text(*current_account_id),
        models,
    )->Object_0);
    out
}

/// The document for a completed switch to `account`, whose user is `user`.
fn switched(account: &StoredAccount, user: Json) -> (r: Json)
    ensures
        r@ == switched_document(account@, user@),
{
    let out = ObjectBuilder::new().member("success", Json::Bool(true)).member(
        "account",
        account.to_json(),
    ).member("user", user).build();
    assert(out@->Object_0 =~= switched_document(account@, user@)->Object_0);
    out
}

/// The document for the setting `key`.
fn setting(key: &str, value: &Option<String>) -> (r: Json)
    ensures
        r@ == setting_document(key@, optional_text(*value)),
{
    let out = ObjectBuilder::new().member("key", Json::text(key)).member(
        "value",
        Json::optional_text(value),
    ).build();
    assert(out@->Object_0 =~= setting_document(key@, optional_text(*value))->Object_0);
    out
}

/// The document for all settings.
fn settings_listing(settings: &Vec<(String, String)>) -> (r: Json)
    ensures
        r@ == settings_document(pairs_view(settings@)),
{
    let mut members = ObjectBuilder::new();
    let mut i: usize = 0;
    let ghost pairs = pairs_view(settings@);
    while i < settings.len()
        invariant
            i <= settings.len(),
            pairs == pairs_view(settings@),
            members@ =~= Seq::new(i as nat, |k: int| (pairs[k].0, JsonModel::Text(pairs[k].1))),
        decreases settings.len() - i,
    {
        members = members.member(settings[i].0.as_str(), Json::text(settings[i].1.as_str()));
        i += 1;
    }
    let out = ObjectBuilder::new().member("settings", members.build()).build();
    assert(out@->Object_0 =~= settings_document(pairs)->Object_0);
    out
}

/// The router and the session manager. It keeps who is signed in and which
/// application waits for its user; what it asks of the outside it hands out
/// as effects, and it goes on when their outcomes come back.
#[derive(Debug)]
pub struct MessageHandler {
    client: Option<MastodonClient>,
    current_account_id: Option<String>,
    pending_oauth: Option<OAuthAppData>,
}

impl View for MessageHandler {
    type V = HandlerModel;

    closed spec fn view(&self) -> HandlerModel {
        HandlerModel {
            client: match self.client {
                Some(c) => Some(c@),
                None => None,
            },
            current_account_id: optional_text(self.current_account_id),
            pending_oauth: match self.pending_oauth {
                Some(a) => Some(a@),
                None => None,
            },
        }
    }
}

impl MessageHandler {
    /// The handler of a run that has just begun: nobody is signed in and no
    /// application is pending.
    pub fn new() -> (r: Self)
        ensures
            r@ == HandlerModel::initial(),
    {
        MessageHandler { client: None, current_account_id: None, pending_oauth: None }
    }

    /// Whether somebody is signed in.
    pub fn is_authenticated(&self) -> (r: bool)
        ensures
            r == self@.is_authenticated(),
    {
        self.client.is_some()
    }

    /// The client of the session, where somebody is signed in.
    pub fn client(&self) -> (r: Option<MastodonClient>)
        ensures
            match r {
                Some(c) => self@.client == Some(c@),
                None => self@.client is None,
            },
    {
        match &self.client {
            Some(c) => Some(c.duplicate()),
            None => None,
        }
    }

    /// The identifier of the account that is signed in.
    pub fn current_account_id(&self) -> (r: Option<String>)
        ensures
            optional_text(r) == self@.current_account_id,
    {
        copy_optional(&self.current_account_id)
    }

    /// The application that waits for its user to grant access.
    pub fn pending_oauth(&self) -> (r: Option<OAuthAppData>)
        ensures
            match r {
                Some(a) => self@.pending_oauth == Some(a@),
                None => self@.pending_oauth is None,
            },
    {
        match &self.pending_oauth {
            Some(a) => Some(
                OAuthAppData {
                    client_id: a.client_id.clone(),
                    client_secret: a.client_secret.clone(),
                    instance_url: a.instance_url.clone(),
                },
            ),
            None => None,
        }
    }

    /// The first step of a run: the account to sign in with is read. What
    /// follows is told by `resume`.
    pub fn initialize(&self) -> (step: Step)
        ensures
            (self@, step@) == self@.initialize(),
    {
        Step::Perform {
            effect: Effect::LoadDefaultAccount,
            pending: Pending { id: String::new(), stage: Stage::RestoreLoad },
        }
    }

    fn handle_auth_start(&self, msg: &IpcMessage) -> (step: Step)
        ensures
            (self@, step@) == self@.auth_start(msg@.id, msg@.params),
    {
        let id = msg.id.as_str();
        let params = match &msg.params {
            Some(p) => p,
            None => {
                return reply_missing(id, "params");
            },
        };
        let instance_url = match params.text_field("instance_url") {
            Some(url) => url,
            None => {
                return reply_missing(id, "instance_url");
            },
        };
        let url = normalize_url(instance_url.as_str());
        perform(
            Effect::RegisterApp { instance_url: url.clone() },
            id,
            Stage::AuthStart { instance_url: url },
        )
    }

    fn handle_auth_callback(&self, msg: &IpcMessage) -> (step: Step)
        ensures
            (self@, step@) == self@.auth_callback(msg@.id, msg@.params),
    {
        let id = msg.id.as_str();
        let params = match &msg.params {
            Some(p) => p,
            None => {
                return reply_missing(id, "params");
            },
        };
        let code = match params.text_field("code") {
            Some(c) => c,
            None => {
                return reply_missing(id, "code");
            },
        };
        let instance_url = match params.text_field("instance_url") {
            Some(url) => url,
            None => {
                return reply_missing(id, "instance_url");
            },
        };
        let url = normalize_url(instance_url.as_str());
        match &self.pending_oauth {
            None => reply_fail(id, API_ERROR, "Auth failed: No pending OAuth flow"),
            Some(app) => {
                if !same_text(app.instance_url.as_str(), url.as_str()) {
                    reply_fail(id, API_ERROR, "Auth failed: Instance URL mismatch")
                } else {
                    perform(
                        Effect::FetchAccessToken {
                            instance_url: url.clone(),
                            client_id: app.client_id.clone(),
                            client_secret: app.client_secret.clone(),
                            code,
                        },
                        id,
                        Stage::AuthToken { instance_url: url },
                    )
                }
            },
        }
    }

    fn handle_auth_logout(&mut self, msg: &IpcMessage) -> (step: Step)
        ensures
            (final(self)@, step@) == old(self)@.auth_logout(msg@.id, msg@.params),
    {
        let id = msg.id.as_str();
        let account_id = copy_optional(&self.current_account_id);
        self.client = None;
        self.current_account_id = None;
        let delete_account = match &msg.params {
            Some(p) => match p.flag_field("delete_account") {
                Some(b) => b,
                None => false,
            },
            None => false,
        };
        if delete_account {
            match account_id {
                Some(aid) => {
                    return perform(Effect::DeleteAccount { account_id: aid }, id, Stage::LogoutDelete);
                },
                None => {},
            }
        }
        reply_ok(id, success())
    }

    fn handle_auth_get_accounts(&self, msg: &IpcMessage) -> (step: Step)
        ensures
            (self@, step@) == self@.auth_get_accounts(msg@.id),
    {
        perform(
            Effect::ListAccounts,
            msg.id.as_str(),
            Stage::ListAccounts {
                authenticated: self.client.is_some(),
                current_account_id: copy_optional(&self.current_account_id),
            },
        )
    }

    fn handle_auth_switch_account(&self, msg: &IpcMessage) -> (step: Step)
        ensures
            (self@, step@) == self@.auth_switch_account(msg@.id, msg@.params),
    {
        let id = msg.id.as_str();
        let params = match &msg.params {
            Some(p) => p,
            None => {
                return reply_missing(id, "params");
            },
        };
        let account_id = match params.text_field("account_id") {
            Some(a) => a,
            None => {
                return reply_missing(id, "account_id");
            },
        };
        perform(
            Effect::LoadAccount { account_id: account_id.clone() },
            id,
            Stage::SwitchLoad { account_id },
        )
    }

    fn handle_auth_delete_account(&mut self, msg: &IpcMessage) -> (step: Step)
        ensures
            (final(self)@, step@) == old(self)@.auth_delete_account(msg@.id, msg@.params),
    {
        let id = msg.id.as_str();
        let params = match &msg.params {
            Some(p) => p,
            None => {
                return reply_missing(id, "params");
            },
        };
        let account_id = match params.text_field("account_id") {
            Some(a) => a,
            None => {
                return reply_missing(id, "account_id");
            },
        };
        let is_current = match &self.current_account_id {
            Some(current) => same_text(current.as_str(), account_id.as_str()),
            None => false,
        };
        if is_current {
            self.client = None;
            self.current_account_id = None;
        }
        perform(Effect::DeleteAccount { account_id }, id, Stage::DeleteAccount)
    }

    fn handle_settings_get(&self, msg: &IpcMessage) -> (step: Step)
        ensures
            (self@, step@) == self@.settings_get(msg@.id, msg@.params),
    {
        let id = msg.id.as_str();
        let params = match &msg.params {
            Some(p) => p,
            None => {
                return reply_missing(id, "params");
            },
        };
        let key = match params.text_field("key") {
            Some(k) => k,
            None => {
                return reply_missing(id, "key");
            },
        };
        perform(Effect::GetSetting { key: key.clone() }, id, Stage::GetSetting { key })
    }

    fn handle_settings_set(&self, msg: &IpcMessage) -> (step: Step)
        ensures
            (self@, step@) == self@.settings_set(msg@.id, msg@.params),
    {
        let id = msg.id.as_str();
        let params = match &msg.params {
            Some(p) => p,
            None => {
                return reply_missing(id, "params");
            },
        };
        let key = match params.text_field("key") {
            Some(k) => k,
            None => {
                return reply_missing(id, "key");
            },
        };
        let value = match params.text_field("value") {
            Some(v) => v,
            None => {
                return reply_missing(id, "value");
            },
        };
        perform(Effect::SetSetting { key, value }, id, Stage::SetSetting)
    }

    fn handle_settings_get_all(&self, msg: &IpcMessage) -> (step: Step)
        ensures
            (self@, step@) == self@.settings_get_all(msg@.id),
    {
        perform(Effect::ListSettings, msg.id.as_str(), Stage::ListSettings)
    }

    fn handle_timeline_get(&self, client: MastodonClient, msg: &IpcMessage) -> (step: Step)
        ensures
            (self@, step@) == self@.timeline_get(client@, msg@.id, msg@.params),
    {
        let id = msg.id.as_str();
        let params = match &msg.params {
            Some(p) => p,
            None => {
                return reply_missing(id, "params");
            },
        };
        let request = match TimelineRequest::from_json(params) {
            Ok(r) => r,
            Err(e) => {
                return reply_invalid(id, e.as_str());
            },
        };
        let limit = effective_limit(request.limit);
        match plan_timeline(&request) {
            Some(fetch) => perform(
                Effect::FetchTimeline { client, fetch },
                id,
                Stage::Timeline { limit },
            ),
            None => {
                let page = TimelineResponse::page(Vec::new(), limit);
                assert(crate::models::post::posts_view(Seq::empty()) =~= Seq::empty());
                reply_ok(id, page.to_json())
            },
        }
    }

    fn handle_post_create(&self, client: MastodonClient, msg: &IpcMessage) -> (step: Step)
        ensures
            (self@, step@) == self@.post_create(client@, msg@.id, msg@.params),
    {
        let id = msg.id.as_str();
        let params = match &msg.params {
            Some(p) => p,
            None => {
                return reply_missing(id, "params");
            },
        };
        let new_post = match NewPost::from_json(params) {
            Ok(p) => p,
            Err(e) => {
                return reply_invalid(id, e.as_str());
            },
        };
        perform(Effect::CreatePost { client, draft: plan_post(&new_post) }, id, Stage::CreatePost)
    }

    fn handle_post_action(&self, client: MastodonClient, msg: &IpcMessage, action: PostAction) -> (step:
        Step)
        ensures
            (self@, step@) == self@.post_action(client@, action, msg@.id, msg@.params),
    {
        let id = msg.id.as_str();
        let params = match &msg.params {
            Some(p) => p,
            None => {
                return reply_missing(id, "params");
            },
        };
        let post_id = match params.text_field("post_id") {
            Some(p) => p,
            None => {
                return reply_missing(id, "post_id");
            },
        };
        perform(Effect::ActOnPost { client, action, post_id }, id, Stage::ActOnPost { action })
    }

    fn handle_instance_get(&self, client: MastodonClient, msg: &IpcMessage) -> (step: Step)
        ensures
            (self@, step@) == self@.with_session(
                Method::InstanceGet,
                client@,
                msg@.id,
                msg@.params,
            ),
    {
        perform(Effect::FetchInstance { client }, msg.id.as_str(), Stage::Instance)
    }

    fn handle_notifications_get(&self, client: MastodonClient, msg: &IpcMessage) -> (step: Step)
        ensures
            (self@, step@) == self@.notifications_get(client@, msg@.id, msg@.params),
    {
        let id = msg.id.as_str();
        let request = match &msg.params {
            Some(p) => match NotificationRequest::from_json(p) {
                Ok(r) => r,
                Err(e) => {
                    return reply_invalid(id, e.as_str());
                },
            },
            None => NotificationRequest::default(),
        };
        perform(
            Effect::FetchNotifications { client, bounds: plan_notifications(&request) },
            id,
            Stage::Notifications { limit: effective_limit(request.limit) },
        )
    }

    fn handle_notifications_clear(&self, client: MastodonClient, msg: &IpcMessage) -> (step: Step)
        ensures
            (self@, step@) == self@.with_session(
                Method::NotificationsClear,
                client@,
                msg@.id,
                msg@.params,
            ),
    {
        perform(Effect::ClearNotifications { client }, msg.id.as_str(), Stage::ClearNotifications)
    }

    fn handle_notifications_dismiss(&self, client: MastodonClient, msg: &IpcMessage) -> (step:
        Step)
        ensures
            (self@, step@) == self@.notifications_dismiss(client@, msg@.id, msg@.params),
    {
        let id = msg.id.as_str();
        let params = match &msg.params {
            Some(p) => p,
            None => {
                return reply_missing(id, "params");
            },
        };
        let notification_id = match params.text_field("notification_id") {
            Some(n) => n,
            None => {
                return reply_missing(id, "notification_id");
            },
        };
        perform(
            Effect::DismissNotification { client, notification_id },
            id,
            Stage::DismissNotification,
        )
    }

    fn handle_media_upload(&self, client: MastodonClient, msg: &IpcMessage) -> (step: Step)
        ensures
            (self@, step@) == self@.media_upload(client@, msg@.id, msg@.params),
    {
        let id = msg.id.as_str();
        let params = match &msg.params {
            Some(p) => p,
            None => {
                return reply_missing(id, "params");
            },
        };
        let request = match MediaUploadRequest::from_json(params) {
            Ok(r) => r,
            Err(e) => {
                return reply_invalid(id, e.as_str());
            },
        };
        perform(Effect::UploadMedia { client, request }, id, Stage::UploadMedia)
    }

    /// What a request of a method for signed-in users leads to.
    fn handle_with_session(&self, method: Method, msg: &IpcMessage) -> (step: Step)
        requires
            method.requires_session(),
        ensures
            forall|stamp: Seq<char>|
                (self@, step@) == #[trigger] self@.serve(method, msg@.id, msg@.params, stamp),
    {
        let client = match &self.client {
            Some(c) => c.duplicate(),
            None => {
                return reply_fail(msg.id.as_str(), NOT_AUTHENTICATED, "Not authenticated");
            },
        };
        match method {
            Method::TimelineGet => self.handle_timeline_get(client, msg),
            Method::PostCreate => self.handle_post_create(client, msg),
            Method::PostBoost => self.handle_post_action(client, msg, PostAction::Boost),
            Method::PostUnboost => self.handle_post_action(client, msg, PostAction::Unboost),
            Method::PostFavourite => self.handle_post_action(client, msg, PostAction::Favourite),
            Method::PostUnfavourite => self.handle_post_action(
                client,
                msg,
                PostAction::Unfavourite,
            ),
            Method::NotificationsGet => self.handle_notifications_get(client, msg),
            Method::NotificationsClear => self.handle_notifications_clear(client, msg),
            Method::NotificationsDismiss => self.handle_notifications_dismiss(client, msg),
            Method::MediaUpload => self.handle_media_upload(client, msg),
            _ => self.handle_instance_get(client, msg),
        }
    }

    /// What the message `msg` leads to at the time whose text is `stamp`:
    /// the response to
    /// send, or the effect to perform first. A response carries the
    /// identifier of `msg`, and so does what is pending with an effect.
    pub fn handle_message_at(&mut self, msg: IpcMessage, stamp: &str) -> (step: Step)
        ensures
            (final(self)@, step@) == old(self)@.handle(msg@, stamp@),
    {
        let name = match &msg.method {
            Some(m) => m.clone(),
            None => String::from_str("unknown"),
        };
        let method = match Method::from_name(name.as_str()) {
            Some(m) => m,
            None => {
                return reply_fail(
                    msg.id.as_str(),
                    METHOD_NOT_FOUND,
                    join("Unknown method: ", name.as_str()).as_str(),
                );
            },
        };
        match method {
            Method::Ping => reply_ok(msg.id.as_str(), pong(stamp)),
            Method::Shutdown => reply_ok(msg.id.as_str(), shutting_down()),
            Method::AuthStart => self.handle_auth_start(&msg),
            Method::AuthCallback => self.handle_auth_callback(&msg),
            Method::AuthLogout => self.handle_auth_logout(&msg),
            Method::AuthGetAccounts => self.handle_auth_get_accounts(&msg),
            Method::AuthSwitchAccount => self.handle_auth_switch_account(&msg),
            Method::AuthDeleteAccount => self.handle_auth_delete_account(&msg),
            Method::SettingsGet => self.handle_settings_get(&msg),
            Method::SettingsSet => self.handle_settings_set(&msg),
            Method::SettingsGetAll => self.handle_settings_get_all(&msg),
            _ => self.handle_with_session(method, &msg),
        }
    }

    /// The account that is kept for the user `user` who signed in through
    /// `client` at the time `now`.
    fn new_account(user: &User, client: &MastodonClient, now: i64) -> (r: StoredAccount)
        ensures
            r@ == account_of(user@, client@, now),
    {
        StoredAccount {
            id: account_id(user.username.as_str(), client.instance_url()),
            instance_url: String::from_str(client.instance_url()),
            username: user.username.clone(),
            acct: user.acct.clone(),
            display_name: user.display_name.clone(),
            access_token: String::from_str(client.access_token()),
            refresh_token: None,
            token_expires_at: None,
            added_at: now,
            last_used_at: now,
            is_default: false,
            avatar_url: Some(user.avatar.clone()),
            blindodon_pm_private_key: None,
            blindodon_pm_public_key: None,
        }
    }

    /// How signing in goes on when the outcome of one of its effects is
    /// there.
    fn resume_auth(&mut self, id: &str, stage: Stage, outcome: Outcome, fresh: String, now: i64)
        -> (step: Step)
        requires
            stage is AuthStart || stage is AuthToken || stage is AuthVerify || stage is AuthSave
                || stage is AuthDefault,
        ensures
            (final(self)@, step@) == old(self)@.resume(
                crate::ipc::protocol::PendingModel { id: id@, stage: stage@ },
                outcome@,
                fresh@,
                now,
            ),
    {
        match stage {
            Stage::AuthStart { instance_url } => match outcome {
                Outcome::App { client_id, client_secret } => {
                    let response = AuthResponse {
                        auth_url: authorization_url(instance_url.as_str(), client_id.as_str()),
                        state: fresh,
                    };
                    self.pending_oauth = Some(
                        OAuthAppData { client_id, client_secret, instance_url },
                    );
                    reply_ok(id, response.to_json())
                },
                other => reply_failed(id, &other, API_ERROR, "Auth failed: "),
            },
            Stage::AuthToken { instance_url } => match outcome {
                Outcome::Token(token) => {
                    let same_instance = match &self.pending_oauth {
                        Some(app) => same_text(app.instance_url.as_str(), instance_url.as_str()),
                        None => false,
                    };
                    if same_instance {
                        self.pending_oauth = None;
                    }
                    let client = MastodonClient::with_token(instance_url, token);
                    perform(
                        Effect::VerifyCredentials { client: client.duplicate() },
                        id,
                        Stage::AuthVerify { client },
                    )
                },
                other => reply_failed(id, &other, API_ERROR, "Auth failed: "),
            },
            Stage::AuthVerify { client } => match outcome {
                Outcome::User(user) => {
                    let account = Self::new_account(&user, &client, now);
                    perform(
                        Effect::SaveAccount { account: account.duplicate() },
                        id,
                        Stage::AuthSave { client, account },
                    )
                },
                Outcome::Failed(reason) => reply_ok(id, unverified(reason.as_str())),
                other => reply_failed(id, &other, API_ERROR, "Auth failed: "),
            },
            Stage::AuthSave { client, account } => perform(
                Effect::SetDefaultAccount { account_id: account.id.clone() },
                id,
                Stage::AuthDefault { client, account },
            ),
            Stage::AuthDefault { client, account } => {
                self.client = Some(client);
                self.current_account_id = Some(account.id.clone());
                reply_ok(id, signed_in(&account))
            },
            _ => reply_fail(id, INTERNAL_ERROR, "Unexpected outcome"),
        }
    }

    /// How a switch of accounts goes on when the outcome of one of its
    /// effects is there. The session changes only when the token of the
    /// account has been verified.
    fn resume_switch(&mut self, id: &str, stage: Stage, outcome: Outcome) -> (step: Step)
        requires
            stage is SwitchLoad || stage is SwitchVerify || stage is SwitchDefault,
        ensures
            forall|fresh: Seq<char>, now: i64|
                (final(self)@, step@) == #[trigger] old(self)@.resume(
                    crate::ipc::protocol::PendingModel { id: id@, stage: stage@ },
                    outcome@,
                    fresh,
                    now,
                ),
    {
        match stage {
            Stage::SwitchLoad { account_id } => match outcome {
                Outcome::Account(Some(account)) => {
                    let client = MastodonClient::from_token(
                        account.instance_url.as_str(),
                        account.access_token.as_str(),
                    );
                    perform(
                        Effect::VerifyCredentials { client: client.duplicate() },
                        id,
                        Stage::SwitchVerify { account_id, account, client },
                    )
                },
                Outcome::Account(None) => reply_fail(id, NOT_AUTHENTICATED, "Account not found"),
                other => reply_failed(id, &other, INTERNAL_ERROR, "Database error: "),
            },
            Stage::SwitchVerify { account_id, account, client } => match outcome {
                Outcome::User(user) => {
                    self.client = Some(client);
                    self.current_account_id = Some(account_id.clone());
                    perform(
                        Effect::SetDefaultAccount { account_id },
                        id,
                        Stage::SwitchDefault { account, user: user.document },
                    )
                },
                Outcome::NoClient(reason) => reply_fail(
                    id,
                    INTERNAL_ERROR,
                    join("Failed to create client: ", reason.as_str()).as_str(),
                ),
                other => reply_failed(
                    id,
                    &other,
                    API_ERROR,
                    "Token expired, please re-authenticate: ",
                ),
            },
            Stage::SwitchDefault { account, user } => reply_ok(id, switched(&account, user)),
            _ => reply_fail(id, INTERNAL_ERROR, "Unexpected outcome"),
        }
    }

    /// How the start of a run goes on when the outcome of one of its
    /// effects is there. Nothing is ever sent, and a failure leaves nobody
    /// signed in.
    fn resume_restore(&mut self, id: String, stage: Stage, outcome: Outcome) -> (step: Step)
        requires
            stage is RestoreLoad || stage is RestoreVerify || stage is RestoreDefault,
        ensures
            forall|fresh: Seq<char>, now: i64|
                (final(self)@, step@) == #[trigger] old(self)@.resume(
                    crate::ipc::protocol::PendingModel { id: id@, stage: stage@ },
                    outcome@,
                    fresh,
                    now,
                ),
    {
        match stage {
            Stage::RestoreLoad => match outcome {
                Outcome::Account(Some(account)) => {
                    let client = MastodonClient::from_token(
                        account.instance_url.as_str(),
                        account.access_token.as_str(),
                    );
                    Step::Perform {
                        effect: Effect::VerifyCredentials { client: client.duplicate() },
                        pending: Pending {
                            id,
                            stage: Stage::RestoreVerify { account_id: account.id, client },
                        },
                    }
                },
                _ => Step::Idle,
            },
            Stage::RestoreVerify { account_id, client } => match outcome {
                Outcome::User(user) => {
                    self.client = Some(client);
                    self.current_account_id = Some(account_id.clone());
                    Step::Perform {
                        effect: Effect::SetDefaultAccount { account_id },
                        pending: Pending { id, stage: Stage::RestoreDefault },
                    }
                },
                _ => Step::Idle,
            },
            _ => Step::Idle,
        }
    }

    /// How a request that reads or writes the store, or relays a call of the
    /// remote service, goes on when the outcome is there. The session stays
    /// as it is.
    fn resume_relay(&self, id: &str, stage: Stage, outcome: Outcome) -> (step: Step)
        requires
            !(stage is AuthStart || stage is AuthToken || stage is AuthVerify || stage is AuthSave
                || stage is AuthDefault),
            !(stage is SwitchLoad || stage is SwitchVerify || stage is SwitchDefault),
            !(stage is RestoreLoad || stage is RestoreVerify || stage is RestoreDefault),
        ensures
            forall|fresh: Seq<char>, now: i64|
                (self@, step@) == #[trigger] self@.resume(
                    crate::ipc::protocol::PendingModel { id: id@, stage: stage@ },
                    outcome@,
                    fresh,
                    now,
                ),
    {
        match stage {
            Stage::LogoutDelete => match outcome {
                Outcome::Done => reply_ok(id, success()),
                other => reply_failed(id, &other, INTERNAL_ERROR, "Failed to delete account: "),
            },
            Stage::ListAccounts { authenticated, current_account_id } => match outcome {
                Outcome::Accounts(accounts) => reply_ok(
                    id,
                    accounts_listing(authenticated, &current_account_id, &accounts),
                ),
                other => reply_failed(id, &other, INTERNAL_ERROR, "Database error: "),
            },
            Stage::DeleteAccount => match outcome {
                Outcome::Done => reply_ok(id, success()),
                other => reply_failed(id, &other, INTERNAL_ERROR, "Failed to delete account: "),
            },
            Stage::GetSetting { key } => match outcome {
                Outcome::Setting(value) => reply_ok(id, setting(key.as_str(), &value)),
                other => reply_failed(id, &other, INTERNAL_ERROR, "Database error: "),
            },
            Stage::SetSetting => match outcome {
                Outcome::Done => reply_ok(id, success()),
                other => reply_failed(id, &other, INTERNAL_ERROR, "Database error: "),
            },
            Stage::ListSettings => match outcome {
                Outcome::Settings(settings) => reply_ok(id, settings_listing(&settings)),
                other => reply_failed(id, &other, INTERNAL_ERROR, "Database error: "),
            },
            Stage::Timeline { limit } => match outcome {
                Outcome::Posts(posts) => reply_ok(id, TimelineResponse::page(posts, limit).to_json()),
                other => reply_failed(id, &other, API_ERROR, "Failed to fetch timeline: "),
            },
            Stage::CreatePost => match outcome {
                Outcome::Document(post) => reply_ok(id, post),
                Outcome::Scheduled => reply_fail(
                    id,
                    API_ERROR,
                    "Failed to create post: Scheduled status not supported",
                ),
                other => reply_failed(id, &other, API_ERROR, "Failed to create post: "),
            },
            Stage::ActOnPost { action } => match outcome {
                Outcome::Document(post) => reply_ok(id, post),
                other => {
                    let mut context = join("Failed to ", action.name());
                    context.append(" post: ");
                    reply_failed(id, &other, API_ERROR, context.as_str())
                },
            },
            Stage::Instance => match outcome {
                Outcome::Document(info) => reply_ok(id, info),
                other => reply_failed(id, &other, API_ERROR, "Failed to get instance info: "),
            },
            Stage::Notifications { limit } => match outcome {
                Outcome::Notifications(notifications) => reply_ok(
                    id,
                    NotificationResponse::page(notifications, limit).to_json(),
                ),
                other => reply_failed(id, &other, API_ERROR, "Failed to fetch notifications: "),
            },
            Stage::ClearNotifications => match outcome {
                Outcome::Done => reply_ok(id, success()),
                other => reply_failed(id, &other, API_ERROR, "Failed to clear notifications: "),
            },
            Stage::DismissNotification => match outcome {
                Outcome::Done => reply_ok(id, success()),
                other => reply_failed(id, &other, API_ERROR, "Failed to dismiss notification: "),
            },
            Stage::UploadMedia => match outcome {
                Outcome::Document(attachment) => reply_ok(id, attachment),
                other => reply_failed(id, &other, API_ERROR, "Failed to upload media: "),
            },
            _ => reply_fail(id, INTERNAL_ERROR, "Unexpected outcome"),
        }
    }

    /// What the outcome `outcome` leads to for the request in flight
    /// `pending`, where `fresh` is a new random text and `now` the time: the
    /// response to send, the next effect to perform, or nothing.
    pub fn resume_with(&mut self, pending: Pending, outcome: Outcome, fresh: String, now: i64) -> (step:
        Step)
        ensures
            (final(self)@, step@) == old(self)@.resume(pending@, outcome@, fresh@, now),
    {
        let Pending { id, stage } = pending;
        match &stage {
            Stage::AuthStart { .. } => self.resume_auth(id.as_str(), stage, outcome, fresh, now),
            Stage::AuthToken { .. } => self.resume_auth(id.as_str(), stage, outcome, fresh, now),
            Stage::AuthVerify { .. } => self.resume_auth(id.as_str(), stage, outcome, fresh, now),
            Stage::AuthSave { .. } => self.resume_auth(id.as_str(), stage, outcome, fresh, now),
            Stage::AuthDefault { .. } => self.resume_auth(id.as_str(), stage, outcome, fresh, now),
            Stage::SwitchLoad { .. } => self.resume_switch(id.as_str(), stage, outcome),
            Stage::SwitchVerify { .. } => self.resume_switch(id.as_str(), stage, outcome),
            Stage::SwitchDefault { .. } => self.resume_switch(id.as_str(), stage, outcome),
            Stage::RestoreLoad => self.resume_restore(id, stage, outcome),
            Stage::RestoreVerify { .. } => self.resume_restore(id, stage, outcome),
            Stage::RestoreDefault => self.resume_restore(id, stage, outcome),
            _ => self.resume_relay(id.as_str(), stage, outcome),
        }
    }

    /// What the outcome `outcome` leads to for the request in flight
    /// `pending`. A random text is drawn and the time is read from the
    /// clock; whatever they are, the step is the one that `resume_with`
    /// takes with them.
    pub fn resume(&mut self, pending: Pending, outcome: Outcome) -> (step: Step)
        ensures
            exists|fresh: Seq<char>, now: i64|
                is_identifier(fresh) && (final(self)@, step@) == old(self)@.resume(
                    pending@,
                    outcome@,
                    fresh,
                    now,
                ),
    {
        let fresh = random_id();
        let at = now();
        self.resume_with(pending, outcome, fresh, at.millis)
    }

    /// What the message `msg` leads to now. The time is read from the clock;
    /// whatever it reads, the step is the one that `handle_message_at`
    /// takes at that time.
    pub fn handle_message(&mut self, msg: IpcMessage) -> (step: Step)
        ensures
            exists|stamp: Seq<char>| (final(self)@, step@) == old(self)@.handle(msg@, stamp),
    {
        let at = now();
        self.handle_message_at(msg, at.text.as_str())
    }
}

} // verus!
