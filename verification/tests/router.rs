use mastodon_core::api::client::{
    MastodonClient, PageBounds, StatusDraft, TimelineFetch, TimelineSource,
};
use mastodon_core::ipc::handler::MessageHandler;
use mastodon_core::ipc::protocol::{Effect, Method, Outcome, Pending, PostAction, Stage, Step};
use mastodon_core::json::{Json, Number};
use mastodon_core::models::error_codes;
use mastodon_core::models::{
    IpcMessage, MediaFocus, MediaUploadRequest, Notification, Post, User, Visibility,
};

fn router_text(s: &str) -> Json {
    Json::Text(s.to_string())
}

fn router_object(members: Vec<(&str, Json)>) -> Json {
    Json::Object(members.into_iter().map(|(k, v)| (k.to_string(), v)).collect())
}

fn router_request(id: &str, method: &str, params: Option<Json>) -> IpcMessage {
    IpcMessage::request_with_id(id.to_string(), method, params)
}

fn router_error(step: Step) -> (String, i32, String) {
    match step {
        Step::Reply(msg) => {
            assert_eq!(msg.result, None);
            let error = msg.error.unwrap();
            (msg.id, error.code, error.message)
        }
        other => panic!("no response: {:?}", other),
    }
}

fn router_result(step: Step) -> (String, Json) {
    match step {
        Step::Reply(msg) => {
            assert_eq!(msg.error, None);
            (msg.id, msg.result.unwrap())
        }
        other => panic!("no response: {:?}", other),
    }
}

fn router_user() -> User {
    User {
        username: "alice".to_string(),
        acct: "alice".to_string(),
        display_name: "Alice".to_string(),
        avatar: "https://example.social/a.png".to_string(),
        document: router_object(vec![("username", router_text("alice"))]),
    }
}

/// A handler in which `alice@example.social` is signed in.
fn router_signed_in() -> (MessageHandler, MastodonClient) {
    let mut handler = MessageHandler::new();
    let client = MastodonClient::from_token("example.social", "secret");
    let step = handler.resume_with(
        Pending {
            id: String::new(),
            stage: Stage::RestoreVerify {
                account_id: "alice@example.social".to_string(),
                client: client.duplicate(),
            },
        },
        Outcome::User(router_user()),
        "s".to_string(),
        0,
    );
    assert!(matches!(step, Step::Perform { effect: Effect::SetDefaultAccount { .. }, .. }));
    (handler, client)
}

const SESSION_METHODS: [&str; 11] = [
    "timeline.get",
    "post.create",
    "post.boost",
    "post.unboost",
    "post.favourite",
    "post.unfavourite",
    "notifications.get",
    "notifications.clear",
    "notifications.dismiss",
    "media.upload",
    "instance.get",
];

#[test]
fn catalog_names_every_method() {
    assert_eq!(Method::from_name("ping"), Some(Method::Ping));
    assert_eq!(Method::from_name("shutdown"), Some(Method::Shutdown));
    assert_eq!(Method::from_name("auth.start"), Some(Method::AuthStart));
    assert_eq!(Method::from_name("auth.callback"), Some(Method::AuthCallback));
    assert_eq!(Method::from_name("auth.logout"), Some(Method::AuthLogout));
    assert_eq!(Method::from_name("auth.get_accounts"), Some(Method::AuthGetAccounts));
    assert_eq!(Method::from_name("auth.switch_account"), Some(Method::AuthSwitchAccount));
    assert_eq!(Method::from_name("auth.delete_account"), Some(Method::AuthDeleteAccount));
    assert_eq!(Method::from_name("settings.get"), Some(Method::SettingsGet));
    assert_eq!(Method::from_name("settings.set"), Some(Method::SettingsSet));
    assert_eq!(Method::from_name("settings.get_all"), Some(Method::SettingsGetAll));
    assert_eq!(Method::from_name("timeline.get"), Some(Method::TimelineGet));
    assert_eq!(Method::from_name("post.create"), Some(Method::PostCreate));
    assert_eq!(Method::from_name("post.boost"), Some(Method::PostBoost));
    assert_eq!(Method::from_name("post.unboost"), Some(Method::PostUnboost));
    assert_eq!(Method::from_name("post.favourite"), Some(Method::PostFavourite));
    assert_eq!(Method::from_name("post.unfavourite"), Some(Method::PostUnfavourite));
    assert_eq!(Method::from_name("notifications.get"), Some(Method::NotificationsGet));
    assert_eq!(Method::from_name("notifications.clear"), Some(Method::NotificationsClear));
    assert_eq!(Method::from_name("notifications.dismiss"), Some(Method::NotificationsDismiss));
    assert_eq!(Method::from_name("media.upload"), Some(Method::MediaUpload));
    assert_eq!(Method::from_name("instance.get"), Some(Method::InstanceGet));
    assert_eq!(Method::from_name("post.delete"), None);
    assert_eq!(Method::from_name("Ping"), None);
    assert_eq!(Method::from_name(""), None);
}

#[test]
fn session_methods_are_the_eleven() {
    for name in SESSION_METHODS {
        assert!(Method::from_name(name).unwrap().needs_session());
    }
    for name in ["ping", "shutdown", "auth.start", "auth.logout", "settings.get"] {
        assert!(!Method::from_name(name).unwrap().needs_session());
    }
}

#[test]
fn unknown_method_yields_method_not_found() {
    let mut handler = MessageHandler::new();
    let step = handler.handle_message_at(router_request("5", "post.delete", None), "t");
    assert_eq!(
        router_error(step),
        ("5".to_string(), error_codes::METHOD_NOT_FOUND, "Unknown method: post.delete".to_string())
    );
    assert!(!handler.is_authenticated());
    assert_eq!(handler.current_account_id(), None);
    assert_eq!(handler.pending_oauth(), None);
}

#[test]
fn message_without_method_calls_unknown() {
    let mut handler = MessageHandler::new();
    let step = handler.handle_message_at(IpcMessage::response_ok("8", Json::Null), "t");
    assert_eq!(
        router_error(step),
        ("8".to_string(), error_codes::METHOD_NOT_FOUND, "Unknown method: unknown".to_string())
    );
}

#[test]
fn ping_answers_with_pong_and_time() {
    let mut handler = MessageHandler::new();
    let step = handler.handle_message_at(router_request("p", "ping", None), "2000-01-12T01:02:03.004+00:00");
    assert_eq!(
        router_result(step),
        (
            "p".to_string(),
            router_object(vec![
                ("pong", Json::Bool(true)),
                ("timestamp", router_text("2000-01-12T01:02:03.004+00:00")),
            ])
        )
    );
}

#[test]
fn ping_reads_the_clock() {
    let mut handler = MessageHandler::new();
    let (id, result) = router_result(handler.handle_message(router_request("p", "ping", None)));
    assert_eq!(id, "p");
    assert_eq!(result.flag_field("pong"), Some(true));
    let stamp = result.text_field("timestamp").unwrap();
    assert!(stamp.starts_with("20"));
    assert!(stamp.ends_with("+00:00"));
    assert_eq!(stamp.as_bytes()[10], b'T');
}

#[test]
fn two_connections_get_their_own_responses() {
    let mut handler = MessageHandler::new();
    let first = router_result(handler.handle_message_at(router_request("c1-1", "ping", None), "t"));
    let second = router_result(handler.handle_message_at(router_request("c2-1", "ping", None), "t"));
    assert_eq!(first.0, "c1-1");
    assert_eq!(second.0, "c2-1");
    let malformed = mastodon_core::ipc::server::accept(&Err("expected value".to_string()));
    assert_eq!(malformed.unwrap_err().id, "unknown");
    let third = router_result(handler.handle_message_at(router_request("c2-2", "ping", None), "t"));
    assert_eq!(third.0, "c2-2");
    assert_eq!(third.1, first.1);
}

#[test]
fn shutdown_is_acknowledged() {
    let mut handler = MessageHandler::new();
    let step = handler.handle_message_at(router_request("s", "shutdown", None), "t");
    assert_eq!(
        router_result(step),
        ("s".to_string(), router_object(vec![("status", router_text("shutting_down"))]))
    );
}

#[test]
fn session_methods_are_refused_when_anonymous() {
    for name in SESSION_METHODS {
        let mut handler = MessageHandler::new();
        let params = router_object(vec![("post_id", router_text("1"))]);
        let step = handler.handle_message_at(router_request("g", name, Some(params)), "t");
        assert_eq!(
            router_error(step),
            ("g".to_string(), error_codes::NOT_AUTHENTICATED, "Not authenticated".to_string())
        );
        assert!(!handler.is_authenticated());
    }
}

#[test]
fn gate_comes_before_parameter_checks() {
    let mut handler = MessageHandler::new();
    let step = handler.handle_message_at(router_request("g", "timeline.get", None), "t");
    assert_eq!(router_error(step).1, error_codes::NOT_AUTHENTICATED);
}

#[test]
fn missing_params_are_invalid() {
    for name in [
        "auth.start",
        "auth.callback",
        "auth.switch_account",
        "auth.delete_account",
        "settings.get",
        "settings.set",
    ] {
        let mut handler = MessageHandler::new();
        let step = handler.handle_message_at(router_request("m", name, None), "t");
        assert_eq!(
            router_error(step),
            ("m".to_string(), error_codes::INVALID_PARAMS, "Missing params".to_string())
        );
    }
    for name in ["timeline.get", "post.create", "post.boost", "notifications.dismiss", "media.upload"]
    {
        let (mut handler, _) = router_signed_in();
        let step = handler.handle_message_at(router_request("m", name, None), "t");
        assert_eq!(
            router_error(step),
            ("m".to_string(), error_codes::INVALID_PARAMS, "Missing params".to_string())
        );
    }
}

#[test]
fn missing_members_are_named() {
    let cases = [
        ("auth.start", "Missing instance_url"),
        ("auth.callback", "Missing code"),
        ("auth.switch_account", "Missing account_id"),
        ("auth.delete_account", "Missing account_id"),
        ("settings.get", "Missing key"),
        ("settings.set", "Missing key"),
    ];
    for (name, message) in cases {
        let mut handler = MessageHandler::new();
        let step =
            handler.handle_message_at(router_request("m", name, Some(router_object(vec![]))), "t");
        assert_eq!(
            router_error(step),
            ("m".to_string(), error_codes::INVALID_PARAMS, message.to_string())
        );
    }
    let mut handler = MessageHandler::new();
    let only_code = router_object(vec![("code", router_text("c"))]);
    let step = handler.handle_message_at(router_request("m", "auth.callback", Some(only_code)), "t");
    assert_eq!(router_error(step).2, "Missing instance_url");
    let only_key = router_object(vec![("key", router_text("k")), ("value", Json::Integer(1))]);
    let step = handler.handle_message_at(router_request("m", "settings.set", Some(only_key)), "t");
    assert_eq!(router_error(step).2, "Missing value");
    let (mut handler, _) = router_signed_in();
    let step = handler.handle_message_at(
        router_request("m", "post.favourite", Some(router_object(vec![]))),
        "t",
    );
    assert_eq!(router_error(step).2, "Missing post_id");
    let step = handler.handle_message_at(
        router_request("m", "notifications.dismiss", Some(router_object(vec![]))),
        "t",
    );
    assert_eq!(router_error(step).2, "Missing notification_id");
}

#[test]
fn timeline_request_is_planned() {
    let (mut handler, client) = router_signed_in();
    let params = router_object(vec![
        ("timeline_type", router_text("home")),
        ("limit", Json::Integer(5)),
        ("max_id", router_text("100")),
    ]);
    let step = handler.handle_message_at(router_request("t", "timeline.get", Some(params)), "t");
    assert_eq!(
        step,
        Step::Perform {
            effect: Effect::FetchTimeline {
                client,
                fetch: TimelineFetch {
                    source: TimelineSource::Home,
                    bounds: PageBounds {
                        max_id: Some("100".to_string()),
                        since_id: None,
                        min_id: None,
                        limit: Some(5),
                    },
                },
            },
            pending: Pending { id: "t".to_string(), stage: Stage::Timeline { limit: 5 } },
        }
    );
}

#[test]
fn timeline_without_source_is_an_empty_page() {
    let (mut handler, _) = router_signed_in();
    for name in ["notifications", "direct", "trending"] {
        let params = router_object(vec![("timeline_type", router_text(name))]);
        let step = handler.handle_message_at(router_request("t", "timeline.get", Some(params)), "t");
        assert_eq!(
            router_result(step),
            (
                "t".to_string(),
                router_object(vec![
                    ("posts", Json::Array(vec![])),
                    ("max_id", Json::Null),
                    ("min_id", Json::Null),
                    ("has_more", Json::Bool(false)),
                ])
            )
        );
    }
}

#[test]
fn invalid_timeline_params_are_described() {
    let (mut handler, _) = router_signed_in();
    let step = handler.handle_message_at(
        router_request("t", "timeline.get", Some(router_object(vec![]))),
        "t",
    );
    assert_eq!(
        router_error(step),
        (
            "t".to_string(),
            error_codes::INVALID_PARAMS,
            "Invalid params: missing field: timeline_type".to_string()
        )
    );
    let params = router_object(vec![
        ("timeline_type", router_text("home")),
        ("limit", Json::Integer(-1)),
    ]);
    let step = handler.handle_message_at(router_request("t", "timeline.get", Some(params)), "t");
    assert_eq!(router_error(step).2, "Invalid params: invalid field: limit");
}

#[test]
fn timeline_page_is_cut_from_the_posts() {
    let (mut handler, _) = router_signed_in();
    let posts = vec![
        Post { id: "9".to_string(), document: router_text("nine") },
        Post { id: "7".to_string(), document: router_text("seven") },
    ];
    let step = handler.resume_with(
        Pending { id: "t".to_string(), stage: Stage::Timeline { limit: 2 } },
        Outcome::Posts(posts),
        "s".to_string(),
        0,
    );
    assert_eq!(
        router_result(step),
        (
            "t".to_string(),
            router_object(vec![
                ("posts", Json::Array(vec![router_text("nine"), router_text("seven")])),
                ("max_id", router_text("9")),
                ("min_id", router_text("7")),
                ("has_more", Json::Bool(true)),
            ])
        )
    );
}

#[test]
fn remote_failures_become_api_errors() {
    let cases = [
        (Stage::Timeline { limit: 20 }, "Failed to fetch timeline: down"),
        (Stage::CreatePost, "Failed to create post: down"),
        (Stage::ActOnPost { action: PostAction::Boost }, "Failed to boost post: down"),
        (Stage::ActOnPost { action: PostAction::Unboost }, "Failed to unboost post: down"),
        (Stage::ActOnPost { action: PostAction::Favourite }, "Failed to favourite post: down"),
        (Stage::ActOnPost { action: PostAction::Unfavourite }, "Failed to unfavourite post: down"),
        (Stage::Instance, "Failed to get instance info: down"),
        (Stage::Notifications { limit: 20 }, "Failed to fetch notifications: down"),
        (Stage::ClearNotifications, "Failed to clear notifications: down"),
        (Stage::DismissNotification, "Failed to dismiss notification: down"),
        (Stage::UploadMedia, "Failed to upload media: down"),
        (Stage::AuthStart { instance_url: "https://x".to_string() }, "Auth failed: down"),
        (Stage::AuthToken { instance_url: "https://x".to_string() }, "Auth failed: down"),
    ];
    for (stage, message) in cases {
        let (mut handler, _) = router_signed_in();
        let step = handler.resume_with(
            Pending { id: "f".to_string(), stage },
            Outcome::Failed("down".to_string()),
            "s".to_string(),
            0,
        );
        assert_eq!(
            router_error(step),
            ("f".to_string(), error_codes::API_ERROR, message.to_string())
        );
        assert!(handler.is_authenticated());
    }
}

#[test]
fn store_failures_become_internal_errors() {
    let cases = [
        (Stage::SwitchLoad { account_id: "a@x".to_string() }, "Database error: locked"),
        (
            Stage::ListAccounts { authenticated: false, current_account_id: None },
            "Database error: locked",
        ),
        (Stage::LogoutDelete, "Failed to delete account: locked"),
        (Stage::DeleteAccount, "Failed to delete account: locked"),
        (Stage::GetSetting { key: "k".to_string() }, "Database error: locked"),
        (Stage::SetSetting, "Database error: locked"),
        (Stage::ListSettings, "Database error: locked"),
    ];
    for (stage, message) in cases {
        let mut handler = MessageHandler::new();
        let step = handler.resume_with(
            Pending { id: "f".to_string(), stage },
            Outcome::Failed("locked".to_string()),
            "s".to_string(),
            0,
        );
        assert_eq!(
            router_error(step),
            ("f".to_string(), error_codes::INTERNAL_ERROR, message.to_string())
        );
    }
}

#[test]
fn outcome_of_no_use_is_an_internal_error() {
    let mut handler = MessageHandler::new();
    let step = handler.resume_with(
        Pending { id: "u".to_string(), stage: Stage::SetSetting },
        Outcome::Token("t".to_string()),
        "s".to_string(),
        0,
    );
    assert_eq!(
        router_error(step),
        ("u".to_string(), error_codes::INTERNAL_ERROR, "Unexpected outcome".to_string())
    );
}

#[test]
fn scheduled_post_is_not_supported() {
    let (mut handler, _) = router_signed_in();
    let step = handler.resume_with(
        Pending { id: "c".to_string(), stage: Stage::CreatePost },
        Outcome::Scheduled,
        "s".to_string(),
        0,
    );
    assert_eq!(
        router_error(step),
        (
            "c".to_string(),
            error_codes::API_ERROR,
            "Failed to create post: Scheduled status not supported".to_string()
        )
    );
}

#[test]
fn new_post_is_drafted_for_the_service() {
    let (mut handler, client) = router_signed_in();
    let params = router_object(vec![
        ("content", router_text("hello")),
        ("visibility", router_text("unlisted")),
        ("sensitive", Json::Bool(false)),
        ("media_ids", Json::Array(vec![])),
    ]);
    let step = handler.handle_message_at(router_request("c", "post.create", Some(params)), "t");
    assert_eq!(
        step,
        Step::Perform {
            effect: Effect::CreatePost {
                client,
                draft: StatusDraft {
                    content: "hello".to_string(),
                    in_reply_to_id: None,
                    sensitive: Some(false),
                    spoiler_text: None,
                    visibility: Some(Visibility::Unlisted),
                    language: None,
                    media_ids: None,
                    scheduled_at: None,
                },
            },
            pending: Pending { id: "c".to_string(), stage: Stage::CreatePost },
        }
    );
}

#[test]
fn new_post_without_content_is_invalid() {
    let (mut handler, _) = router_signed_in();
    let params = router_object(vec![("visibility", router_text("public"))]);
    let step = handler.handle_message_at(router_request("c", "post.create", Some(params)), "t");
    assert_eq!(
        router_error(step),
        (
            "c".to_string(),
            error_codes::INVALID_PARAMS,
            "Invalid params: missing field: content".to_string()
        )
    );
}

#[test]
fn post_actions_name_their_post() {
    let actions = [
        ("post.boost", PostAction::Boost),
        ("post.unboost", PostAction::Unboost),
        ("post.favourite", PostAction::Favourite),
        ("post.unfavourite", PostAction::Unfavourite),
    ];
    for (name, action) in actions {
        let (mut handler, client) = router_signed_in();
        let params = router_object(vec![("post_id", router_text("77"))]);
        let step = handler.handle_message_at(router_request("a", name, Some(params)), "t");
        assert_eq!(
            step,
            Step::Perform {
                effect: Effect::ActOnPost { client, action, post_id: "77".to_string() },
                pending: Pending { id: "a".to_string(), stage: Stage::ActOnPost { action } },
            }
        );
    }
}

#[test]
fn documents_of_the_service_are_relayed() {
    for stage in [Stage::CreatePost, Stage::Instance, Stage::UploadMedia] {
        let (mut handler, _) = router_signed_in();
        let step = handler.resume_with(
            Pending { id: "d".to_string(), stage },
            Outcome::Document(router_object(vec![("id", router_text("1"))])),
            "s".to_string(),
            0,
        );
        assert_eq!(
            router_result(step),
            ("d".to_string(), router_object(vec![("id", router_text("1"))]))
        );
    }
}

#[test]
fn notifications_default_to_twenty() {
    let (mut handler, client) = router_signed_in();
    let step = handler.handle_message_at(router_request("n", "notifications.get", None), "t");
    assert_eq!(
        step,
        Step::Perform {
            effect: Effect::FetchNotifications {
                client,
                bounds: PageBounds { max_id: None, since_id: None, min_id: None, limit: Some(20) },
            },
            pending: Pending { id: "n".to_string(), stage: Stage::Notifications { limit: 20 } },
        }
    );
    let step = handler.resume_with(
        Pending { id: "n".to_string(), stage: Stage::Notifications { limit: 20 } },
        Outcome::Notifications(vec![Notification {
            id: "3".to_string(),
            document: router_text("three"),
        }]),
        "s".to_string(),
        0,
    );
    assert_eq!(
        router_result(step).1,
        router_object(vec![
            ("notifications", Json::Array(vec![router_text("three")])),
            ("max_id", router_text("3")),
            ("min_id", router_text("3")),
            ("has_more", Json::Bool(false)),
        ])
    );
}

#[test]
fn clear_and_dismiss_report_success() {
    let (mut handler, client) = router_signed_in();
    let step = handler.handle_message_at(router_request("n", "notifications.clear", None), "t");
    assert_eq!(
        step,
        Step::Perform {
            effect: Effect::ClearNotifications { client: client.duplicate() },
            pending: Pending { id: "n".to_string(), stage: Stage::ClearNotifications },
        }
    );
    let params = router_object(vec![("notification_id", router_text("4"))]);
    let step =
        handler.handle_message_at(router_request("n", "notifications.dismiss", Some(params)), "t");
    assert_eq!(
        step,
        Step::Perform {
            effect: Effect::DismissNotification { client, notification_id: "4".to_string() },
            pending: Pending { id: "n".to_string(), stage: Stage::DismissNotification },
        }
    );
    for stage in [Stage::ClearNotifications, Stage::DismissNotification] {
        let step = handler.resume_with(
            Pending { id: "n".to_string(), stage },
            Outcome::Done,
            "s".to_string(),
            0,
        );
        assert_eq!(router_result(step).1, router_object(vec![("success", Json::Bool(true))]));
    }
}

#[test]
fn media_upload_reads_path_and_focus() {
    let (mut handler, client) = router_signed_in();
    let params = router_object(vec![
        ("file_path", router_text("/tmp/cat.png")),
        ("description", router_text("a cat")),
        (
            "focus",
            router_object(vec![("x", Json::Real("0.5".to_string())), ("y", Json::Integer(-1))]),
        ),
    ]);
    let step = handler.handle_message_at(router_request("u", "media.upload", Some(params)), "t");
    assert_eq!(
        step,
        Step::Perform {
            effect: Effect::UploadMedia {
                client,
                request: MediaUploadRequest {
                    file_path: "/tmp/cat.png".to_string(),
                    description: Some("a cat".to_string()),
                    focus: Some(MediaFocus {
                        x: Number::Real("0.5".to_string()),
                        y: Number::Integer(-1),
                    }),
                },
            },
            pending: Pending { id: "u".to_string(), stage: Stage::UploadMedia },
        }
    );
    let bad = router_object(vec![("description", router_text("a cat"))]);
    let step = handler.handle_message_at(router_request("u", "media.upload", Some(bad)), "t");
    assert_eq!(router_error(step).2, "Invalid params: missing field: file_path");
}

#[test]
fn instance_is_fetched_with_the_session_client() {
    let (mut handler, client) = router_signed_in();
    let step = handler.handle_message_at(router_request("i", "instance.get", None), "t");
    assert_eq!(
        step,
        Step::Perform {
            effect: Effect::FetchInstance { client },
            pending: Pending { id: "i".to_string(), stage: Stage::Instance },
        }
    );
}
