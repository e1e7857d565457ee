use mastodon_core::api::client::{MastodonClient, OAuthAppData};
use mastodon_core::cache::CacheManager;
use mastodon_core::ipc::handler::MessageHandler;
use mastodon_core::ipc::protocol::{Effect, Outcome, Pending, Stage, Step};
use mastodon_core::json::Json;
use mastodon_core::models::error_codes;
use mastodon_core::models::{IpcMessage, StoredAccount, User};

fn session_text(s: &str) -> Json {
    Json::Text(s.to_string())
}

fn session_object(members: Vec<(&str, Json)>) -> Json {
    Json::Object(members.into_iter().map(|(k, v)| (k.to_string(), v)).collect())
}

fn session_request(id: &str, method: &str, params: Vec<(&str, Json)>) -> IpcMessage {
    IpcMessage::request_with_id(id.to_string(), method, Some(session_object(params)))
}

fn session_user(name: &str) -> User {
    User {
        username: name.to_string(),
        acct: name.to_string(),
        display_name: name.to_uppercase(),
        avatar: format!("https://a.example/{}.png", name),
        document: session_object(vec![("username", session_text(name))]),
    }
}

fn session_account(id: &str, instance: &str, token: &str, last_used_at: i64) -> StoredAccount {
    StoredAccount {
        id: id.to_string(),
        instance_url: instance.to_string(),
        username: id.split('@').next().unwrap().to_string(),
        acct: id.to_string(),
        display_name: "Name".to_string(),
        access_token: token.to_string(),
        refresh_token: None,
        token_expires_at: None,
        added_at: 1,
        last_used_at,
        is_default: false,
        avatar_url: None,
        blindodon_pm_private_key: None,
        blindodon_pm_public_key: None,
    }
}

/// What the outside is in these tests: a store in memory, and a remote
/// service that answers from a script and counts its calls.
struct World {
    store: CacheManager,
    remote: Vec<Outcome>,
    remote_calls: usize,
    now: i64,
}

impl World {
    fn new(remote: Vec<Outcome>) -> World {
        World { store: CacheManager::new(), remote, remote_calls: 0, now: 1000 }
    }

    fn perform(&mut self, effect: &Effect) -> Outcome {
        match self.store.perform(effect, self.now) {
            Some(outcome) => outcome,
            None => {
                self.remote_calls += 1;
                self.remote.remove(0)
            }
        }
    }

    fn finish(&mut self, handler: &mut MessageHandler, mut step: Step) -> Option<IpcMessage> {
        loop {
            match step {
                Step::Reply(msg) => return Some(msg),
                Step::Idle => return None,
                Step::Perform { effect, pending } => {
                    let outcome = self.perform(&effect);
                    step = handler.resume_with(pending, outcome, "state-1".to_string(), self.now);
                    assert_eq!(handler.client().is_some(), handler.current_account_id().is_some());
                }
            }
        }
    }

    fn send(&mut self, handler: &mut MessageHandler, msg: IpcMessage) -> IpcMessage {
        let step = handler.handle_message_at(msg, "t");
        self.finish(handler, step).unwrap()
    }

    fn defaults(&self) -> Vec<String> {
        self.store.get_accounts().into_iter().filter(|a| a.is_default).map(|a| a.id).collect()
    }
}

fn session_sign_in(world: &mut World, handler: &mut MessageHandler, instance: &str, name: &str) {
    world.remote.push(Outcome::App {
        client_id: "cid".to_string(),
        client_secret: "csecret".to_string(),
    });
    world.remote.push(Outcome::Token(format!("token-{}", name)));
    world.remote.push(Outcome::User(session_user(name)));
    let started = world.send(
        handler,
        session_request("s1", "auth.start", vec![("instance_url", session_text(instance))]),
    );
    assert_eq!(started.error, None);
    let done = world.send(
        handler,
        session_request(
            "s2",
            "auth.callback",
            vec![("instance_url", session_text(instance)), ("code", session_text("code"))],
        ),
    );
    assert_eq!(done.error, None);
}

#[test]
fn get_accounts_with_nothing_stored() {
    let mut world = World::new(vec![]);
    let mut handler = MessageHandler::new();
    let response = world.send(&mut handler, session_request("1", "auth.get_accounts", vec![]));
    assert_eq!(
        response.to_json(),
        session_object(vec![
            ("id", session_text("1")),
            ("type", session_text("response")),
            (
                "result",
                session_object(vec![
                    ("authenticated", Json::Bool(false)),
                    ("current_account_id", Json::Null),
                    ("accounts", Json::Array(vec![])),
                ])
            ),
            ("error", Json::Null),
        ])
    );
    assert_eq!(world.remote_calls, 0);
}

#[test]
fn get_accounts_reports_a_failing_store() {
    let mut handler = MessageHandler::new();
    let step = handler.handle_message_at(session_request("1", "auth.get_accounts", vec![]), "t");
    let pending = match step {
        Step::Perform { effect: Effect::ListAccounts, pending } => pending,
        other => panic!("unexpected step: {:?}", other),
    };
    let step = handler.resume_with(pending, Outcome::Failed("io".to_string()), "s".to_string(), 0);
    match step {
        Step::Reply(msg) => {
            assert_eq!(msg.id, "1");
            assert_eq!(msg.result, None);
            let error = msg.error.unwrap();
            assert_eq!(error.code, error_codes::INTERNAL_ERROR);
            assert_eq!(error.message, "Database error: io");
        }
        other => panic!("unexpected step: {:?}", other),
    }
}

#[test]
fn logout_reports_a_failed_deletion_and_stays_signed_out() {
    let mut world = World::new(vec![]);
    let mut handler = MessageHandler::new();
    session_sign_in(&mut world, &mut handler, "a.example", "alice");
    let step = handler.handle_message_at(
        session_request("l", "auth.logout", vec![("delete_account", Json::Bool(true))]),
        "t",
    );
    let pending = match step {
        Step::Perform { effect: Effect::DeleteAccount { account_id }, pending } => {
            assert_eq!(account_id, "alice@a.example");
            pending
        }
        other => panic!("unexpected step: {:?}", other),
    };
    assert!(!handler.is_authenticated());
    let step = handler.resume_with(pending, Outcome::Failed("io".to_string()), "s".to_string(), 0);
    match step {
        Step::Reply(msg) => {
            let error = msg.error.unwrap();
            assert_eq!(error.code, error_codes::INTERNAL_ERROR);
            assert_eq!(error.message, "Failed to delete account: io");
        }
        other => panic!("unexpected step: {:?}", other),
    }
    assert!(!handler.is_authenticated());
    assert_eq!(handler.current_account_id(), None);
}

#[test]
fn start_registers_and_answers_with_the_address() {
    let mut world = World::new(vec![Outcome::App {
        client_id: "cid".to_string(),
        client_secret: "csecret".to_string(),
    }]);
    let mut handler = MessageHandler::new();
    let step = handler.handle_message_at(
        session_request("a", "auth.start", vec![("instance_url", session_text(" a.example/ "))]),
        "t",
    );
    match &step {
        Step::Perform { effect, pending } => {
            assert_eq!(
                effect,
                &Effect::RegisterApp { instance_url: "https://a.example".to_string() }
            );
            assert_eq!(pending.id, "a");
        }
        other => panic!("unexpected step: {:?}", other),
    }
    let response = world.finish(&mut handler, step).unwrap();
    assert_eq!(response.id, "a");
    assert_eq!(
        response.result,
        Some(session_object(vec![
            (
                "auth_url",
                session_text(
                    "https://a.example/oauth/authorize?client_id=cid&redirect_uri=urn%3Aietf%3Awg%3Aoauth%3A2.0%3Aoob&response_type=code&scope=read+write+follow+push"
                )
            ),
            ("state", session_text("state-1")),
        ]))
    );
    assert_eq!(
        handler.pending_oauth(),
        Some(OAuthAppData {
            client_id: "cid".to_string(),
            client_secret: "csecret".to_string(),
            instance_url: "https://a.example".to_string(),
        })
    );
    assert!(!handler.is_authenticated());
}

#[test]
fn start_draws_a_random_state() {
    let mut handler = MessageHandler::new();
    let step = handler.resume(
        Pending {
            id: "a".to_string(),
            stage: Stage::AuthStart { instance_url: "https://a.example".to_string() },
        },
        Outcome::App { client_id: "cid".to_string(), client_secret: "cs".to_string() },
    );
    match step {
        Step::Reply(msg) => {
            let state = msg.result.unwrap().text_field("state").unwrap();
            assert_eq!(state.chars().count(), 36);
        }
        other => panic!("unexpected step: {:?}", other),
    }
}

#[test]
fn second_start_overwrites_the_first() {
    let mut world = World::new(vec![
        Outcome::App { client_id: "one".to_string(), client_secret: "s1".to_string() },
        Outcome::App { client_id: "two".to_string(), client_secret: "s2".to_string() },
    ]);
    let mut handler = MessageHandler::new();
    world.send(
        &mut handler,
        session_request("1", "auth.start", vec![("instance_url", session_text("a.example"))]),
    );
    world.send(
        &mut handler,
        session_request("2", "auth.start", vec![("instance_url", session_text("b.example"))]),
    );
    let pending = handler.pending_oauth().unwrap();
    assert_eq!(pending.client_id, "two");
    assert_eq!(pending.instance_url, "https://b.example");
}

#[test]
fn callback_without_start_fails() {
    let mut world = World::new(vec![]);
    let mut handler = MessageHandler::new();
    let response = world.send(
        &mut handler,
        session_request(
            "c",
            "auth.callback",
            vec![("instance_url", session_text("a.example")), ("code", session_text("x"))],
        ),
    );
    let error = response.error.unwrap();
    assert_eq!(error.code, error_codes::API_ERROR);
    assert_eq!(error.message, "Auth failed: No pending OAuth flow");
    assert_eq!(world.remote_calls, 0);
    assert!(!handler.is_authenticated());
}

#[test]
fn callback_for_another_instance_fails_and_keeps_the_slot() {
    let mut world = World::new(vec![Outcome::App {
        client_id: "cid".to_string(),
        client_secret: "cs".to_string(),
    }]);
    let mut handler = MessageHandler::new();
    world.send(
        &mut handler,
        session_request("1", "auth.start", vec![("instance_url", session_text("https://a.example"))]),
    );
    let before = handler.pending_oauth();
    let response = world.send(
        &mut handler,
        session_request(
            "2",
            "auth.callback",
            vec![("instance_url", session_text("https://b.example")), ("code", session_text("x"))],
        ),
    );
    assert_eq!(response.id, "2");
    assert_eq!(response.result, None);
    let error = response.error.unwrap();
    assert_eq!(error.code, error_codes::API_ERROR);
    assert_eq!(error.message, "Auth failed: Instance URL mismatch");
    assert_eq!(world.remote_calls, 1);
    assert!(!handler.is_authenticated());
    assert_eq!(handler.current_account_id(), None);
    assert_eq!(handler.pending_oauth(), before);
    assert_eq!(handler.pending_oauth().unwrap().instance_url, "https://a.example");
}

#[test]
fn completed_callback_signs_in_and_saves_a_default_account() {
    let mut world = World::new(vec![]);
    let mut handler = MessageHandler::new();
    world.remote.push(Outcome::App { client_id: "cid".to_string(), client_secret: "cs".to_string() });
    world.remote.push(Outcome::Token("tok".to_string()));
    world.remote.push(Outcome::User(session_user("alice")));
    world.send(
        &mut handler,
        session_request("1", "auth.start", vec![("instance_url", session_text("a.example"))]),
    );
    let response = world.send(
        &mut handler,
        session_request(
            "2",
            "auth.callback",
            vec![("instance_url", session_text("a.example/")), ("code", session_text("x"))],
        ),
    );
    assert_eq!(response.id, "2");
    assert_eq!(
        response.result,
        Some(session_object(vec![
            ("success", Json::Bool(true)),
            (
                "account",
                session_object(vec![
                    ("id", session_text("alice@a.example")),
                    ("instance_url", session_text("https://a.example")),
                    ("username", session_text("alice")),
                    ("display_name", session_text("ALICE")),
                    ("avatar_url", session_text("https://a.example/alice.png")),
                    ("is_default", Json::Bool(true)),
                    ("last_used_at", session_text("1970-01-01T00:00:01Z")),
                ])
            ),
        ]))
    );
    assert!(handler.is_authenticated());
    assert_eq!(handler.current_account_id(), Some("alice@a.example".to_string()));
    assert_eq!(handler.client(), Some(MastodonClient::from_token("https://a.example", "tok")));
    let stored = world.store.get_account("alice@a.example").unwrap();
    assert_eq!(stored.access_token, "tok");
    assert_eq!(stored.added_at, 1000);
    assert!(stored.is_default);
    assert_eq!(world.defaults(), vec!["alice@a.example"]);
    assert_eq!(handler.pending_oauth(), None);
}

#[test]
fn failed_exchange_keeps_the_pending_application() {
    let mut world = World::new(vec![
        Outcome::App { client_id: "cid".to_string(), client_secret: "cs".to_string() },
        Outcome::Failed("Failed to fetch access token".to_string()),
        Outcome::Token("tok".to_string()),
        Outcome::User(session_user("alice")),
    ]);
    let mut handler = MessageHandler::new();
    world.send(
        &mut handler,
        session_request("1", "auth.start", vec![("instance_url", session_text("a.example"))]),
    );
    let callback = || {
        session_request(
            "2",
            "auth.callback",
            vec![("instance_url", session_text("a.example")), ("code", session_text("x"))],
        )
    };
    let failed = world.send(&mut handler, callback());
    let error = failed.error.unwrap();
    assert_eq!(error.code, error_codes::API_ERROR);
    assert_eq!(error.message, "Auth failed: Failed to fetch access token");
    assert!(!handler.is_authenticated());
    assert!(handler.pending_oauth().is_some());
    let done = world.send(&mut handler, callback());
    assert_eq!(done.error, None);
    assert!(handler.is_authenticated());
    assert_eq!(handler.pending_oauth(), None);
    let again = world.send(&mut handler, callback());
    assert_eq!(again.error.unwrap().message, "Auth failed: No pending OAuth flow");
}

#[test]
fn token_for_one_instance_leaves_another_pending() {
    let mut handler = MessageHandler::new();
    let step = handler.resume_with(
        Pending {
            id: "1".to_string(),
            stage: Stage::AuthStart { instance_url: "https://b.example".to_string() },
        },
        Outcome::App { client_id: "cid".to_string(), client_secret: "cs".to_string() },
        "s".to_string(),
        0,
    );
    assert!(matches!(step, Step::Reply(_)));
    let step = handler.resume_with(
        Pending {
            id: "2".to_string(),
            stage: Stage::AuthToken { instance_url: "https://a.example".to_string() },
        },
        Outcome::Token("tok".to_string()),
        "s".to_string(),
        0,
    );
    assert!(matches!(step, Step::Perform { effect: Effect::VerifyCredentials { .. }, .. }));
    assert_eq!(handler.pending_oauth().unwrap().instance_url, "https://b.example");
}

#[test]
fn callback_without_user_signs_nobody_in() {
    let mut world = World::new(vec![
        Outcome::App { client_id: "cid".to_string(), client_secret: "cs".to_string() },
        Outcome::Token("tok".to_string()),
        Outcome::Failed("Failed to verify credentials".to_string()),
    ]);
    let mut handler = MessageHandler::new();
    world.send(
        &mut handler,
        session_request("1", "auth.start", vec![("instance_url", session_text("a.example"))]),
    );
    let response = world.send(
        &mut handler,
        session_request(
            "2",
            "auth.callback",
            vec![("instance_url", session_text("a.example")), ("code", session_text("x"))],
        ),
    );
    assert_eq!(
        response.result,
        Some(session_object(vec![
            ("success", Json::Bool(true)),
            ("error_fetching_user", session_text("Failed to verify credentials")),
        ]))
    );
    assert!(!handler.is_authenticated());
    assert_eq!(handler.client(), None);
    assert_eq!(handler.current_account_id(), None);
    assert_eq!(world.store.get_accounts(), vec![]);
}

#[test]
fn callback_without_user_keeps_the_session_that_was() {
    let mut world = World::new(vec![]);
    let mut handler = MessageHandler::new();
    session_sign_in(&mut world, &mut handler, "a.example", "alice");
    let client = handler.client();
    let step = handler.resume_with(
        Pending {
            id: "2".to_string(),
            stage: Stage::AuthVerify { client: MastodonClient::from_token("b.example", "bt") },
        },
        Outcome::Failed("Failed to verify credentials".to_string()),
        "s".to_string(),
        5,
    );
    assert!(matches!(step, Step::Reply(_)));
    assert_eq!(handler.client(), client);
    assert_eq!(handler.current_account_id(), Some("alice@a.example".to_string()));
}

#[test]
fn callback_without_a_client_fails() {
    let mut handler = MessageHandler::new();
    let client = MastodonClient::from_token("a.example", "tok");
    let step = handler.resume_with(
        Pending { id: "2".to_string(), stage: Stage::AuthVerify { client } },
        Outcome::NoClient("builder error".to_string()),
        "s".to_string(),
        5,
    );
    match step {
        Step::Reply(msg) => {
            let error = msg.error.unwrap();
            assert_eq!(error.code, error_codes::API_ERROR);
            assert_eq!(error.message, "Auth failed: builder error");
        }
        other => panic!("unexpected step: {:?}", other),
    }
    assert!(!handler.is_authenticated());
}

#[test]
fn persistence_failure_does_not_undo_a_sign_in() {
    let mut handler = MessageHandler::new();
    let client = MastodonClient::from_token("a.example", "tok");
    let step = handler.resume_with(
        Pending { id: "2".to_string(), stage: Stage::AuthVerify { client } },
        Outcome::User(session_user("alice")),
        "s".to_string(),
        5,
    );
    let pending = match step {
        Step::Perform { effect: Effect::SaveAccount { account }, pending } => {
            assert!(!account.is_default);
            assert_eq!(account.id, "alice@a.example");
            assert_eq!(account.access_token, "tok");
            assert_eq!(account.avatar_url, Some("https://a.example/alice.png".to_string()));
            pending
        }
        other => panic!("unexpected step: {:?}", other),
    };
    let step = handler.resume_with(pending, Outcome::Failed("disk".to_string()), "s".to_string(), 5);
    let pending = match step {
        Step::Perform { effect: Effect::SetDefaultAccount { account_id }, pending } => {
            assert_eq!(account_id, "alice@a.example");
            pending
        }
        other => panic!("unexpected step: {:?}", other),
    };
    let step = handler.resume_with(pending, Outcome::Failed("disk".to_string()), "s".to_string(), 5);
    match step {
        Step::Reply(msg) => assert_eq!(msg.error, None),
        other => panic!("unexpected step: {:?}", other),
    }
    assert!(handler.is_authenticated());
    assert_eq!(handler.current_account_id(), Some("alice@a.example".to_string()));
}

#[test]
fn failing_default_mark_leaves_one_default() {
    let mut store = CacheManager::new();
    let mut first = session_account("bob@b.example", "https://b.example", "bt", 5);
    first.is_default = true;
    store.save_account(&first);
    let mut handler = MessageHandler::new();
    let client = MastodonClient::from_token("a.example", "tok");
    let mut step = handler.resume_with(
        Pending { id: "2".to_string(), stage: Stage::AuthVerify { client } },
        Outcome::User(session_user("alice")),
        "s".to_string(),
        9,
    );
    let response = loop {
        match step {
            Step::Reply(msg) => break msg,
            Step::Perform { effect, pending } => {
                let outcome = match &effect {
                    Effect::SetDefaultAccount { .. } => Outcome::Failed("disk".to_string()),
                    other => store.perform(other, 9).unwrap(),
                };
                let defaults = store.get_accounts().into_iter().filter(|a| a.is_default).count();
                assert!(defaults <= 1);
                step = handler.resume_with(pending, outcome, "s".to_string(), 9);
            }
            Step::Idle => panic!("no response"),
        }
    };
    assert_eq!(response.error, None);
    assert!(handler.is_authenticated());
    assert_eq!(store.get_accounts().len(), 2);
    assert_eq!(store.get_default_account().unwrap().id, "bob@b.example");
}

#[test]
fn account_identifier_is_stable_across_sign_ins() {
    let mut world = World::new(vec![]);
    let mut handler = MessageHandler::new();
    session_sign_in(&mut world, &mut handler, "https://a.example/", "alice");
    world.now = 2000;
    session_sign_in(&mut world, &mut handler, "  a.example", "alice");
    let accounts = world.store.get_accounts();
    assert_eq!(accounts.len(), 1);
    assert_eq!(accounts[0].id, "alice@a.example");
    assert_eq!(accounts[0].last_used_at, 2000);
}

#[test]
fn switch_to_a_verified_account_replaces_the_session() {
    let mut world = World::new(vec![]);
    let mut handler = MessageHandler::new();
    session_sign_in(&mut world, &mut handler, "a.example", "alice");
    world.store.save_account(&session_account("bob@b.example", "https://b.example", "bt", 5));
    world.remote.push(Outcome::User(session_user("bob")));
    world.now = 3000;
    let response = world.send(
        &mut handler,
        session_request(
            "w",
            "auth.switch_account",
            vec![("account_id", session_text("bob@b.example"))],
        ),
    );
    assert_eq!(response.id, "w");
    let result = response.result.unwrap();
    assert_eq!(result.flag_field("success"), Some(true));
    assert_eq!(result.get("user"), Some(&session_user("bob").document));
    let account = result.get("account").unwrap();
    assert_eq!(account.text_field("id"), Some("bob@b.example".to_string()));
    assert_eq!(account.get("access_token"), None);
    assert_eq!(account.get("refresh_token"), None);
    assert_eq!(account.get("blindodon_pm_private_key"), None);
    assert_eq!(handler.current_account_id(), Some("bob@b.example".to_string()));
    assert_eq!(handler.client(), Some(MastodonClient::from_token("https://b.example", "bt")));
    assert_eq!(world.defaults(), vec!["bob@b.example"]);
    assert_eq!(world.store.get_account("bob@b.example").unwrap().last_used_at, 3000);
}

#[test]
fn failed_switch_leaves_the_session_as_it_was() {
    let mut world = World::new(vec![]);
    let mut handler = MessageHandler::new();
    session_sign_in(&mut world, &mut handler, "a.example", "alice");
    world.store.save_account(&session_account("bob@b.example", "https://b.example", "stale", 5));
    world.remote.push(Outcome::Failed("Failed to verify credentials".to_string()));
    let client = handler.client();
    let response = world.send(
        &mut handler,
        session_request(
            "w",
            "auth.switch_account",
            vec![("account_id", session_text("bob@b.example"))],
        ),
    );
    assert_eq!(response.id, "w");
    assert_eq!(response.result, None);
    let error = response.error.unwrap();
    assert_eq!(error.code, error_codes::API_ERROR);
    assert_eq!(
        error.message,
        "Token expired, please re-authenticate: Failed to verify credentials"
    );
    assert!(handler.is_authenticated());
    assert_eq!(handler.current_account_id(), Some("alice@a.example".to_string()));
    assert_eq!(handler.client(), client);
    assert_eq!(world.defaults(), vec!["alice@a.example"]);
}

#[test]
fn switch_to_an_unknown_account_is_refused() {
    let mut world = World::new(vec![]);
    let mut handler = MessageHandler::new();
    let response = world.send(
        &mut handler,
        session_request("w", "auth.switch_account", vec![("account_id", session_text("x@y"))]),
    );
    let error = response.error.unwrap();
    assert_eq!(error.code, error_codes::NOT_AUTHENTICATED);
    assert_eq!(error.message, "Account not found");
    assert_eq!(world.remote_calls, 0);
}

#[test]
fn switch_without_a_client_is_an_internal_error() {
    let mut handler = MessageHandler::new();
    let account = session_account("bob@b.example", "https://b.example", "bt", 5);
    let client = MastodonClient::from_token("https://b.example", "bt");
    let step = handler.resume_with(
        Pending {
            id: "w".to_string(),
            stage: Stage::SwitchVerify { account_id: account.id.clone(), account, client },
        },
        Outcome::NoClient("builder error".to_string()),
        "s".to_string(),
        0,
    );
    match step {
        Step::Reply(msg) => {
            let error = msg.error.unwrap();
            assert_eq!(error.code, error_codes::INTERNAL_ERROR);
            assert_eq!(error.message, "Failed to create client: builder error");
        }
        other => panic!("unexpected step: {:?}", other),
    }
    assert!(!handler.is_authenticated());
}

#[test]
fn logout_clears_the_session_and_keeps_the_account() {
    let mut world = World::new(vec![]);
    let mut handler = MessageHandler::new();
    session_sign_in(&mut world, &mut handler, "a.example", "alice");
    let response = world.send(&mut handler, session_request("l", "auth.logout", vec![]));
    assert_eq!(response.result, Some(session_object(vec![("success", Json::Bool(true))])));
    assert!(!handler.is_authenticated());
    assert_eq!(handler.current_account_id(), None);
    assert_eq!(world.store.get_accounts().len(), 1);
}

#[test]
fn logout_deletes_the_account_on_request() {
    let mut world = World::new(vec![]);
    let mut handler = MessageHandler::new();
    session_sign_in(&mut world, &mut handler, "a.example", "alice");
    let response = world.send(
        &mut handler,
        session_request("l", "auth.logout", vec![("delete_account", Json::Bool(true))]),
    );
    assert_eq!(response.result, Some(session_object(vec![("success", Json::Bool(true))])));
    assert!(!handler.is_authenticated());
    assert_eq!(world.store.get_accounts(), vec![]);
}

#[test]
fn logout_without_params_is_accepted() {
    let mut world = World::new(vec![]);
    let mut handler = MessageHandler::new();
    let step = handler
        .handle_message_at(IpcMessage::request_with_id("l".to_string(), "auth.logout", None), "t");
    let response = world.finish(&mut handler, step).unwrap();
    assert_eq!(response.error, None);
}

#[test]
fn deleting_the_active_account_signs_out() {
    let mut world = World::new(vec![]);
    let mut handler = MessageHandler::new();
    session_sign_in(&mut world, &mut handler, "a.example", "alice");
    let response = world.send(
        &mut handler,
        session_request(
            "d",
            "auth.delete_account",
            vec![("account_id", session_text("alice@a.example"))],
        ),
    );
    assert_eq!(response.result, Some(session_object(vec![("success", Json::Bool(true))])));
    assert!(!handler.is_authenticated());
    assert_eq!(handler.current_account_id(), None);
    assert_eq!(world.store.get_accounts(), vec![]);
}

#[test]
fn deleting_another_account_keeps_the_session() {
    let mut world = World::new(vec![]);
    let mut handler = MessageHandler::new();
    session_sign_in(&mut world, &mut handler, "a.example", "alice");
    world.store.save_account(&session_account("bob@b.example", "https://b.example", "bt", 5));
    world.send(
        &mut handler,
        session_request(
            "d",
            "auth.delete_account",
            vec![("account_id", session_text("bob@b.example"))],
        ),
    );
    assert!(handler.is_authenticated());
    assert_eq!(handler.current_account_id(), Some("alice@a.example".to_string()));
    assert_eq!(world.store.get_account("bob@b.example"), None);
    assert_eq!(world.defaults(), vec!["alice@a.example"]);
}

#[test]
fn restore_signs_in_with_the_default_account() {
    let mut world = World::new(vec![Outcome::User(session_user("alice"))]);
    let mut saved = session_account("alice@a.example", "https://a.example", "tok", 5);
    saved.is_default = true;
    world.store.save_account(&saved);
    world.store.save_account(&session_account("bob@b.example", "https://b.example", "bt", 50));
    let mut handler = MessageHandler::new();
    let step = handler.initialize();
    assert_eq!(world.finish(&mut handler, step), None);
    assert!(handler.is_authenticated());
    assert_eq!(handler.current_account_id(), Some("alice@a.example".to_string()));
    assert_eq!(world.store.get_account("alice@a.example").unwrap().last_used_at, 1000);
}

#[test]
fn restore_with_an_expired_token_stays_anonymous() {
    let mut world = World::new(vec![Outcome::Failed("401".to_string())]);
    world.store.save_account(&session_account("alice@a.example", "https://a.example", "old", 5));
    let mut handler = MessageHandler::new();
    let step = handler.initialize();
    assert_eq!(world.finish(&mut handler, step), None);
    assert_eq!(world.remote_calls, 1);
    assert!(!handler.is_authenticated());
    assert_eq!(handler.current_account_id(), None);
    assert_eq!(
        world.store.get_account("alice@a.example"),
        Some(session_account("alice@a.example", "https://a.example", "old", 5))
    );
}

#[test]
fn restore_without_accounts_does_nothing() {
    let mut world = World::new(vec![]);
    let mut handler = MessageHandler::new();
    let step = handler.initialize();
    assert_eq!(world.finish(&mut handler, step), None);
    assert_eq!(world.remote_calls, 0);
    assert!(!handler.is_authenticated());
}

#[test]
fn restore_with_a_failing_store_stays_anonymous() {
    let mut handler = MessageHandler::new();
    let pending = match handler.initialize() {
        Step::Perform { effect: Effect::LoadDefaultAccount, pending } => pending,
        other => panic!("unexpected step: {:?}", other),
    };
    let step = handler.resume_with(pending, Outcome::Failed("io".to_string()), "s".to_string(), 0);
    assert_eq!(step, Step::Idle);
    assert!(!handler.is_authenticated());
}

#[test]
fn one_default_after_switches_deletions_and_callbacks() {
    let mut world = World::new(vec![]);
    let mut handler = MessageHandler::new();
    session_sign_in(&mut world, &mut handler, "a.example", "alice");
    assert!(world.defaults().len() <= 1);
    session_sign_in(&mut world, &mut handler, "b.example", "bob");
    assert_eq!(world.defaults(), vec!["bob@b.example"]);
    world.remote.push(Outcome::User(session_user("alice")));
    world.send(
        &mut handler,
        session_request(
            "w",
            "auth.switch_account",
            vec![("account_id", session_text("alice@a.example"))],
        ),
    );
    assert_eq!(world.defaults(), vec!["alice@a.example"]);
    world.send(
        &mut handler,
        session_request(
            "d",
            "auth.delete_account",
            vec![("account_id", session_text("alice@a.example"))],
        ),
    );
    assert!(world.defaults().len() <= 1);
    session_sign_in(&mut world, &mut handler, "c.example", "carol");
    assert_eq!(world.defaults(), vec!["carol@c.example"]);
}

#[test]
fn settings_keep_the_last_value() {
    let mut world = World::new(vec![]);
    let mut handler = MessageHandler::new();
    for value in ["v1", "v2"] {
        let response = world.send(
            &mut handler,
            session_request(
                "s",
                "settings.set",
                vec![("key", session_text("k")), ("value", session_text(value))],
            ),
        );
        assert_eq!(response.result, Some(session_object(vec![("success", Json::Bool(true))])));
    }
    let response =
        world.send(&mut handler, session_request("g", "settings.get", vec![("key", session_text("k"))]));
    assert_eq!(
        response.result,
        Some(session_object(vec![("key", session_text("k")), ("value", session_text("v2"))]))
    );
}

#[test]
fn unknown_setting_is_absent_not_an_error() {
    let mut world = World::new(vec![]);
    let mut handler = MessageHandler::new();
    let response = world.send(
        &mut handler,
        session_request("g", "settings.get", vec![("key", session_text("nothing"))]),
    );
    assert_eq!(response.error, None);
    assert_eq!(
        response.result,
        Some(session_object(vec![("key", session_text("nothing")), ("value", Json::Null)]))
    );
}

#[test]
fn all_settings_come_as_one_object() {
    let mut world = World::new(vec![]);
    let mut handler = MessageHandler::new();
    world.store.set_setting("a", "1");
    world.store.set_setting("b", "2");
    let response = world.send(&mut handler, session_request("g", "settings.get_all", vec![]));
    assert_eq!(
        response.result,
        Some(session_object(vec![(
            "settings",
            session_object(vec![("a", session_text("1")), ("b", session_text("2"))])
        )]))
    );
}

#[test]
fn every_response_echoes_its_request() {
    let mut world = World::new(vec![]);
    let mut handler = MessageHandler::new();
    let methods = [
        "ping",
        "shutdown",
        "auth.start",
        "auth.callback",
        "auth.logout",
        "auth.get_accounts",
        "auth.switch_account",
        "auth.delete_account",
        "settings.get",
        "settings.set",
        "settings.get_all",
        "timeline.get",
        "post.create",
        "instance.get",
        "nothing.at_all",
    ];
    for (i, method) in methods.iter().enumerate() {
        let id = format!("id-{}", i);
        let response = world.send(
            &mut handler,
            IpcMessage::request_with_id(id.clone(), method, Some(session_object(vec![]))),
        );
        assert_eq!(response.id, id);
        assert!(response.result.is_some() != response.error.is_some());
    }
    assert_eq!(world.remote_calls, 0);
}
