//! What holds of the router and the session manager whatever is sent to
//! them, proved from their rules.

use crate::api::client::normalized_url;
use crate::ipc::protocol::EffectModel;
use crate::ipc::protocol::Method;
use crate::ipc::protocol::OutcomeModel;
use crate::ipc::protocol::PendingModel;
use crate::ipc::protocol::StageModel;
use crate::ipc::protocol::StepModel;
use crate::ipc::rules::account_of;
use crate::ipc::rules::not_authenticated;
use crate::ipc::rules::setting_document;
use crate::ipc::rules::HandlerModel;
use crate::json::JsonModel;
use crate::models::error_codes::API_ERROR;
use crate::models::error_codes::METHOD_NOT_FOUND;
use crate::models::ipc_message::MessageModel;
use vstd::prelude::*;

verus! {

/// How many effects a request at the stage `stage` may still ask for before
/// it is answered, the one it waits for included.
pub open spec fn effects_left(stage: StageModel) -> nat {
    match stage {
        StageModel::AuthToken { .. } => 4,
        StageModel::AuthVerify { .. } => 3,
        StageModel::AuthSave { .. } => 2,
        StageModel::SwitchLoad { .. } => 3,
        StageModel::SwitchVerify { .. } => 2,
        StageModel::RestoreLoad => 3,
        StageModel::RestoreVerify { .. } => 2,
        _ => 1,
    }
}

/// Every request is answered under its own identifier: what a message leads
/// to is a response with the identifier of the message, which carries a
/// result or an error and never both, or an effect that is pending under
/// that identifier.
pub proof fn lemma_request_is_correlated(handler: HandlerModel, msg: MessageModel, stamp: Seq<char>)
    ensures
        handler.handle(msg, stamp).1.belongs_to(msg.id),
{
    match Method::named(HandlerModel::method_name(msg)) {
        None => {},
        Some(method) => {
            lemma_served_is_correlated(handler, method, msg.id, msg.params, stamp);
        },
    }
}

/// What a request for signing in, signing out, accounts or settings leads
/// to belongs to the request.
proof fn lemma_open_methods_are_correlated(
    handler: HandlerModel,
    id: Seq<char>,
    params: Option<JsonModel>,
)
    ensures
        handler.auth_start(id, params).1.belongs_to(id),
        handler.auth_callback(id, params).1.belongs_to(id),
        handler.auth_logout(id, params).1.belongs_to(id),
        handler.auth_get_accounts(id).1.belongs_to(id),
        handler.auth_switch_account(id, params).1.belongs_to(id),
        handler.auth_delete_account(id, params).1.belongs_to(id),
        handler.settings_get(id, params).1.belongs_to(id),
        handler.settings_set(id, params).1.belongs_to(id),
        handler.settings_get_all(id).1.belongs_to(id),
{
}

/// What a request of a method for signed-in users leads to belongs to the
/// request.
proof fn lemma_session_methods_are_correlated(
    handler: HandlerModel,
    client: crate::api::client::ClientModel,
    id: Seq<char>,
    params: Option<JsonModel>,
)
    ensures
        handler.timeline_get(client, id, params).1.belongs_to(id),
        handler.post_create(client, id, params).1.belongs_to(id),
        forall|action: crate::ipc::protocol::PostAction| #[trigger]
            handler.post_action(client, action, id, params).1.belongs_to(id),
        handler.notifications_get(client, id, params).1.belongs_to(id),
        handler.notifications_dismiss(client, id, params).1.belongs_to(id),
        handler.media_upload(client, id, params).1.belongs_to(id),
{
}

/// What a request of the method `method` leads to belongs to the request.
proof fn lemma_served_is_correlated(
    handler: HandlerModel,
    method: Method,
    id: Seq<char>,
    params: Option<JsonModel>,
    stamp: Seq<char>,
)
    ensures
        handler.serve(method, id, params, stamp).1.belongs_to(id),
{
    lemma_open_methods_are_correlated(handler, id, params);
    match handler.client {
        Some(client) => {
            lemma_session_methods_are_correlated(handler, client, id, params);
        },
        None => {},
    }
}

/// Every outcome is answered under the identifier of its request: what it
/// leads to is a response with that identifier, or another effect that is
/// pending under it, and then fewer effects are left than before. So each
/// request gets its one response after four effects at most.
pub proof fn lemma_outcome_is_correlated(
    handler: HandlerModel,
    pending: PendingModel,
    outcome: OutcomeModel,
    fresh: Seq<char>,
    now: i64,
)
    requires
        !pending.stage.is_restore(),
    ensures
        handler.resume(pending, outcome, fresh, now).1.belongs_to(pending.id),
        handler.resume(pending, outcome, fresh, now).1 matches StepModel::Perform {
            effect,
            pending: next,
        } ==> effects_left(next.stage) < effects_left(pending.stage),
{
}

/// A method that the catalog does not have is answered with the error
/// `METHOD_NOT_FOUND`, and the state stays as it is.
pub proof fn lemma_unknown_method(handler: HandlerModel, msg: MessageModel, stamp: Seq<char>)
    requires
        Method::named(HandlerModel::method_name(msg)) is None,
    ensures
        handler.handle(msg, stamp) == (
            handler,
            StepModel::fail(
                msg.id,
                METHOD_NOT_FOUND as int,
                "Unknown method: "@ + HandlerModel::method_name(msg),
            ),
        ),
{
}

/// A method for signed-in users that is called while nobody is signed in is
/// answered with the error `NOT_AUTHENTICATED`: no effect is asked for, so
/// the remote service is not called, and the state stays as it is.
pub proof fn lemma_auth_gate(handler: HandlerModel, msg: MessageModel, method: Method, stamp: Seq<char>)
    requires
        Method::named(HandlerModel::method_name(msg)) == Some(method),
        method.requires_session(),
        !handler.is_authenticated(),
    ensures
        handler.handle(msg, stamp) == (handler, not_authenticated(msg.id)),
{
}

/// The client of an effect that a message leads to is the client of the
/// session.
pub proof fn lemma_calls_use_the_session(handler: HandlerModel, msg: MessageModel, stamp: Seq<char>)
    ensures
        match handler.handle(msg, stamp).1 {
            StepModel::Perform { effect: EffectModel::FetchTimeline { client, .. }, .. } => Some(client)
                == handler.client,
            StepModel::Perform { effect: EffectModel::CreatePost { client, .. }, .. } => Some(client)
                == handler.client,
            StepModel::Perform { effect: EffectModel::ActOnPost { client, .. }, .. } => Some(client)
                == handler.client,
            StepModel::Perform {
                effect: EffectModel::FetchNotifications { client, .. },
                ..
            } => Some(client) == handler.client,
            StepModel::Perform { effect: EffectModel::ClearNotifications { client }, .. } => Some(
                client,
            ) == handler.client,
            StepModel::Perform {
                effect: EffectModel::DismissNotification { client, .. },
                ..
            } => Some(client) == handler.client,
            StepModel::Perform { effect: EffectModel::UploadMedia { client, .. }, .. } => Some(client)
                == handler.client,
            StepModel::Perform { effect: EffectModel::FetchInstance { client }, .. } => Some(client)
                == handler.client,
            _ => true,
        },
{
}

/// A switch of accounts changes the session at one point alone: when the
/// token of the account has been verified. The request itself, the reading
/// of the account and the last step leave the state as it is.
pub proof fn lemma_switch_changes_session_once(
    handler: HandlerModel,
    id: Seq<char>,
    params: Option<JsonModel>,
    pending: PendingModel,
    outcome: OutcomeModel,
    fresh: Seq<char>,
    now: i64,
)
    requires
        pending.stage is SwitchLoad || pending.stage is SwitchVerify || pending.stage
            is SwitchDefault,
    ensures
        handler.auth_switch_account(id, params).0 == handler,
        !(pending.stage is SwitchVerify && outcome is User) ==> handler.resume(
            pending,
            outcome,
            fresh,
            now,
        ).0 == handler,
{
}

/// A switch to an account whose token fails verification leaves the session
/// as it was and is answered with an error that carries the reason which
/// came back: `API_ERROR` where the remote service refused the token,
/// `INTERNAL_ERROR` where no client could be made.
pub proof fn lemma_failed_switch_is_inert(
    handler: HandlerModel,
    pending: PendingModel,
    outcome: OutcomeModel,
    fresh: Seq<char>,
    now: i64,
)
    requires
        pending.stage is SwitchVerify,
        outcome.failure() is Some,
    ensures
        handler.resume(pending, outcome, fresh, now).0 == handler,
        ({
            &&& handler.resume(pending, outcome, fresh, now).1 matches StepModel::Reply(m)
            &&& m.answers(pending.id)
            &&& m.error is Some
            &&& m.result is None
        }),
        outcome matches OutcomeModel::Failed(reason) ==> handler.resume(
            pending,
            outcome,
            fresh,
            now,
        ).1 == StepModel::fail(
            pending.id,
            API_ERROR as int,
            "Token expired, please re-authenticate: "@ + reason,
        ),
        outcome matches OutcomeModel::NoClient(reason) ==> handler.resume(
            pending,
            outcome,
            fresh,
            now,
        ).1 == StepModel::fail(
            pending.id,
            crate::models::error_codes::INTERNAL_ERROR as int,
            "Failed to create client: "@ + reason,
        ),
{
}

/// A switch writes to the store only when the token of the account has been
/// verified, and then it makes that account the default: no other step of a
/// switch asks for an effect that changes the store.
pub proof fn lemma_switch_writes_after_verification(
    handler: HandlerModel,
    pending: PendingModel,
    outcome: OutcomeModel,
    fresh: Seq<char>,
    now: i64,
)
    requires
        pending.stage is SwitchLoad || pending.stage is SwitchVerify || pending.stage
            is SwitchDefault,
    ensures
        match handler.resume(pending, outcome, fresh, now).1 {
            StepModel::Perform { effect: EffectModel::SetDefaultAccount { account_id }, .. } => {
                &&& pending.stage is SwitchVerify
                &&& outcome is User
                &&& account_id == pending.stage->SwitchVerify_account_id
            },
            StepModel::Perform { effect, .. } => effect is VerifyCredentials,
            _ => true,
        },
{
}

/// The start of a run sends nothing, whatever comes back, and it signs in
/// only when the token of the account has been verified: with any other
/// outcome the state stays as it is.
pub proof fn lemma_restore_is_silent(
    handler: HandlerModel,
    pending: PendingModel,
    outcome: OutcomeModel,
    fresh: Seq<char>,
    now: i64,
)
    requires
        pending.stage.is_restore(),
    ensures
        !(handler.resume(pending, outcome, fresh, now).1 is Reply),
        handler.resume(pending, outcome, fresh, now).1 matches StepModel::Perform {
            effect,
            pending: next,
        } ==> next.stage.is_restore() && effects_left(next.stage) < effects_left(pending.stage),
        !(pending.stage is RestoreVerify && outcome is User) ==> handler.resume(
            pending,
            outcome,
            fresh,
            now,
        ).0 == handler,
{
}

/// Where the token of the account that a run starts with is not verified,
/// the run goes on with nobody signed in, and nothing is left to do.
pub proof fn lemma_restore_fallback(
    pending: PendingModel,
    outcome: OutcomeModel,
    fresh: Seq<char>,
    now: i64,
)
    requires
        pending.stage is RestoreVerify,
        !(outcome is User),
    ensures
        HandlerModel::initial().resume(pending, outcome, fresh, now) == (
            HandlerModel::initial(),
            StepModel::Idle,
        ),
{
}

/// When the application is registered, it is pending for the instance that
/// the request named, in the form in which addresses are kept.
pub proof fn lemma_start_records_instance(
    handler: HandlerModel,
    id: Seq<char>,
    params: JsonModel,
    url: Seq<char>,
    client_id: Seq<char>,
    client_secret: Seq<char>,
    fresh: Seq<char>,
    now: i64,
)
    requires
        params.text_field("instance_url"@) == Some(url),
    ensures
        ({
            &&& handler.auth_start(id, Some(params)).1 matches StepModel::Perform {
                effect,
                pending,
            }
            &&& handler.resume(
                pending,
                OutcomeModel::App { client_id, client_secret },
                fresh,
                now,
            ).0.pending_oauth matches Some(app)
            &&& app.instance_url == normalized_url(url)
        }),
{
}

/// A callback for another instance than the one for which an application is
/// pending fails: the message is answered with an error and no result,
/// nobody is signed in by it, no effect is asked for, so that the store
/// stays as it is, and the pending application stays.
pub proof fn lemma_callback_mismatch(
    handler: HandlerModel,
    msg: MessageModel,
    params: JsonModel,
    code: Seq<char>,
    url: Seq<char>,
    stamp: Seq<char>,
)
    requires
        Method::named(HandlerModel::method_name(msg)) == Some(Method::AuthCallback),
        msg.params == Some(params),
        params.text_field("code"@) == Some(code),
        params.text_field("instance_url"@) == Some(url),
        handler.pending_oauth matches Some(app) && app.instance_url != normalized_url(url),
    ensures
        handler.handle(msg, stamp) == (
            handler,
            StepModel::fail(msg.id, API_ERROR as int, "Auth failed: Instance URL mismatch"@),
        ),
        ({
            &&& handler.handle(msg, stamp).1 matches StepModel::Reply(m)
            &&& m.answers(msg.id)
            &&& m.error is Some
            &&& m.result is None
        }),
{
}

/// The pending application is consumed when its token is there, and by
/// nothing else on the way of a sign-in: a failed exchange leaves it for
/// another try.
pub proof fn lemma_token_consumes_the_slot(
    handler: HandlerModel,
    pending: PendingModel,
    outcome: OutcomeModel,
    fresh: Seq<char>,
    now: i64,
)
    requires
        pending.stage is AuthToken,
        handler.pending_oauth matches Some(app) && app.instance_url
            == pending.stage->AuthToken_instance_url,
    ensures
        outcome is Token ==> handler.resume(pending, outcome, fresh, now).0.pending_oauth is None,
        !(outcome is Token) ==> handler.resume(pending, outcome, fresh, now).0 == handler,
{
}

/// A callback while no application is pending fails, and the state stays
/// as it is.
pub proof fn lemma_callback_without_start(handler: HandlerModel, id: Seq<char>, params: Option<JsonModel>)
    requires
        handler.pending_oauth is None,
    ensures
        handler.auth_callback(id, params).0 == handler,
        ({
            &&& handler.auth_callback(id, params).1 matches StepModel::Reply(m)
            &&& m.error is Some
        }),
{
}

/// A setting without a value is answered with a result that says so, not
/// with an error.
pub proof fn lemma_absent_setting_is_a_result(
    handler: HandlerModel,
    id: Seq<char>,
    key: Seq<char>,
    fresh: Seq<char>,
    now: i64,
)
    ensures
        handler.resume(
            PendingModel { id, stage: StageModel::GetSetting { key } },
            OutcomeModel::Setting(None),
            fresh,
            now,
        ) == (handler, StepModel::ok(id, setting_document(key, None))),
        setting_document(key, None).field("value"@) == Some(JsonModel::Null),
{
    reveal_strlit("key");
    reveal_strlit("value");
    let members = setting_document(key, None)->Object_0;
    assert(members[0].0 != "value"@) by {
        assert("key"@.len() != "value"@.len());
    }
    assert(crate::json::find_member(members, "value"@, 1) == Some(JsonModel::Null));
    assert(crate::json::find_member(members, "value"@, 0) == Some(JsonModel::Null));
}

/// What a completed sign-in does to the store is to write the account and
/// then to make it the default: the effect after the user is known writes
/// the account, and the effect after that makes the account with the same
/// identifier the default.
pub proof fn lemma_sign_in_store_effects(
    handler: HandlerModel,
    pending: PendingModel,
    outcome: OutcomeModel,
    written: OutcomeModel,
    fresh: Seq<char>,
    now: i64,
)
    requires
        pending.stage is AuthVerify,
        outcome is User,
    ensures
        ({
            &&& handler.resume(pending, outcome, fresh, now).1 matches StepModel::Perform {
                effect: EffectModel::SaveAccount { account },
                pending: next,
            }
            &&& account == account_of(outcome->User_0, pending.stage->AuthVerify_client, now)
            &&& handler.resume(next, written, fresh, now).1 matches StepModel::Perform {
                effect: EffectModel::SetDefaultAccount { account_id },
                pending: last,
            }
            &&& account_id == account.id
        }),
{
}

/// A sign-in whose user is known ends with the user signed in, whatever
/// comes of writing the account and of making it the default: a failure of
/// the store does not undo the sign-in.
pub proof fn lemma_sign_in_survives_the_store(
    handler: HandlerModel,
    pending: PendingModel,
    written: OutcomeModel,
    defaulted: OutcomeModel,
    fresh: Seq<char>,
    now: i64,
)
    requires
        pending.stage is AuthSave,
    ensures
        ({
            &&& handler.resume(pending, written, fresh, now) matches (same, StepModel::Perform {
                effect,
                pending: next,
            })
            &&& same == handler
            &&& same.resume(next, defaulted, fresh, now) matches (after, StepModel::Reply(m))
            &&& after == handler.signed_in(
                pending.stage->AuthSave_client,
                pending.stage->AuthSave_account.id,
            )
            &&& m.answers(pending.id)
            &&& m.error is None
        }),
{
}

/// No effect that the router and the session manager ask for writes an
/// account as the default at once: an account becomes the default only by
/// the effect that takes the mark from every other account first. So, by
/// what holds of the store, at most one account is ever the default.
pub proof fn lemma_no_effect_writes_a_default(
    handler: HandlerModel,
    msg: MessageModel,
    pending: PendingModel,
    outcome: OutcomeModel,
    fresh: Seq<char>,
    stamp: Seq<char>,
    now: i64,
)
    ensures
        handler.handle(msg, stamp).1 matches StepModel::Perform { effect, pending: next }
            ==> !effect.writes_a_default(),
        handler.resume(pending, outcome, fresh, now).1 matches StepModel::Perform {
            effect,
            pending: next,
        } ==> !effect.writes_a_default(),
        handler.initialize().1 matches StepModel::Perform { effect, pending: next }
            ==> !effect.writes_a_default(),
{
    match Method::named(HandlerModel::method_name(msg)) {
        None => {},
        Some(method) => {
            lemma_served_writes_no_account(handler, method, msg.id, msg.params, stamp);
        },
    }
}

/// No request leads to the writing of an account at once.
proof fn lemma_served_writes_no_account(
    handler: HandlerModel,
    method: Method,
    id: Seq<char>,
    params: Option<JsonModel>,
    stamp: Seq<char>,
)
    ensures
        !(handler.serve(method, id, params, stamp).1 matches StepModel::Perform {
            effect: EffectModel::SaveAccount { .. },
            ..
        }),
{
}

/// The session stays whole: where there is a client exactly if there is an
/// account before a message or an outcome, it is so after it. A run starts
/// with a whole session, so the session is never half set.
pub proof fn lemma_session_stays_whole(
    handler: HandlerModel,
    msg: MessageModel,
    pending: PendingModel,
    outcome: OutcomeModel,
    fresh: Seq<char>,
    stamp: Seq<char>,
    now: i64,
)
    requires
        handler.is_whole(),
    ensures
        HandlerModel::initial().is_whole(),
        handler.handle(msg, stamp).0.is_whole(),
        handler.resume(pending, outcome, fresh, now).0.is_whole(),
        handler.initialize().0.is_whole(),
{
    match Method::named(HandlerModel::method_name(msg)) {
        None => {},
        Some(method) => {
            lemma_served_stays_whole(handler, method, msg.id, msg.params, stamp);
        },
    }
}

/// What a request of the method `method` leads to leaves the session whole.
proof fn lemma_served_stays_whole(
    handler: HandlerModel,
    method: Method,
    id: Seq<char>,
    params: Option<JsonModel>,
    stamp: Seq<char>,
)
    requires
        handler.is_whole(),
    ensures
        handler.serve(method, id, params, stamp).0.is_whole(),
{
    match handler.client {
        Some(client) => {
            assert(handler.with_session(method, client, id, params).0 == handler);
        },
        None => {},
    }
}

/// A sign-in whose token is there but whose user cannot be fetched signs
/// nobody in: the state stays as it was, and the answer says that the user
/// could not be fetched, and why.
pub proof fn lemma_unverified_sign_in_changes_nothing(
    handler: HandlerModel,
    pending: PendingModel,
    reason: Seq<char>,
    fresh: Seq<char>,
    now: i64,
)
    requires
        pending.stage is AuthVerify,
    ensures
        handler.resume(pending, OutcomeModel::Failed(reason), fresh, now) == (
            handler,
            StepModel::ok(pending.id, crate::ipc::rules::unverified_document(reason)),
        ),
{
}

/// A run that has just begun, asked for the accounts of a store that holds
/// none, answers that nobody is signed in, that there is no current account
/// and that there are no accounts.
pub proof fn lemma_fresh_handler_lists_no_accounts(
    msg: MessageModel,
    fresh: Seq<char>,
    stamp: Seq<char>,
    now: i64,
)
    requires
        Method::named(HandlerModel::method_name(msg)) == Some(Method::AuthGetAccounts),
    ensures
        ({
            let start = HandlerModel::initial();
            &&& start.handle(msg, stamp) matches (same, StepModel::Perform { effect, pending })
            &&& same == start
            &&& effect == EffectModel::ListAccounts
            &&& crate::cache::CacheModel::empty().perform(effect, now) matches Some(answer)
            &&& answer.0 == crate::cache::CacheModel::empty()
            &&& answer.1 == OutcomeModel::Accounts(Seq::empty())
            &&& start.resume(pending, answer.1, fresh, now) == (
                start,
                StepModel::ok(
                    msg.id,
                    crate::ipc::rules::accounts_document(false, None, Seq::empty()),
                ),
            )
        }),
{
    assert(crate::cache::by_recency(Seq::empty()) =~= Seq::empty());
}

/// A setting that was written twice is answered with the value that was
/// written last: the store reads that value, and the answer to the request
/// carries the key and that value.
pub proof fn lemma_last_setting_is_answered(
    handler: HandlerModel,
    store: crate::cache::CacheModel,
    id: Seq<char>,
    key: Seq<char>,
    first: Seq<char>,
    second: Seq<char>,
    fresh: Seq<char>,
    now: i64,
)
    requires
        store.wf(),
    ensures
        ({
            let written = store.set_setting(key, first).set_setting(key, second);
            &&& written.perform(EffectModel::GetSetting { key }, now) == Some(
                (written, OutcomeModel::Setting(Some(second))),
            )
            &&& handler.resume(
                PendingModel { id, stage: StageModel::GetSetting { key } },
                OutcomeModel::Setting(Some(second)),
                fresh,
                now,
            ) == (handler, StepModel::ok(id, setting_document(key, Some(second))))
        }),
{
    crate::cache::lemma_settings_keep_last(store, key, first, second);
}

/// A request to delete an account asks the store to delete that account,
/// and when the store has done so, the answer reports success.
pub proof fn lemma_delete_account_is_answered(
    handler: HandlerModel,
    id: Seq<char>,
    params: JsonModel,
    account_id: Seq<char>,
    fresh: Seq<char>,
    now: i64,
)
    requires
        params.text_field("account_id"@) == Some(account_id),
    ensures
        ({
            &&& handler.auth_delete_account(id, Some(params)) matches (after, StepModel::Perform {
                effect,
                pending,
            })
            &&& effect == EffectModel::DeleteAccount { account_id }
            &&& after.resume(pending, OutcomeModel::Done, fresh, now) == (
                after,
                StepModel::ok(id, crate::ipc::rules::success_document()),
            )
        }),
{
}

} // verus!
