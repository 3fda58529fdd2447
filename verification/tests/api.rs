use indexer::api::calendar::{event_summary, CalendarQuery};
use indexer::api::chat::{
    error_chunk, seed_transcript, session_selection, session_tags, total_pages, ChatResponse,
    ChatSessionsQuery, SessionSelection,
};
use indexer::api::email::{newest_first, EmailThread, EmailUnreadQuery};
use indexer::api::metrics::{MetricName, MetricsQuery};
use indexer::api::notes::{default_as_false, default_as_true, default_limit, SearchRequest};
use indexer::api::push::{NotificationRequest, PushSubscriptionRequest, SubscriptionKey};
use indexer::api::web::{
    default_web_limit, WebSearchParams, WebSearchResponse, WebSearchResult,
};
use indexer::api::ApiError;
use indexer::cli::auth::{auth_url, refresh_token_form, ServiceKind};
use indexer::cli::{Command, StoragePaths};
use indexer::config::{AppConfig, Environment, RequiredVariable};
use indexer::jobs::generate_session_titles::{create_session_prompt, read_session_info};
use indexer::jobs::{DailyAgenda, GenerateSessionTitles, ProcessEmail};
use indexer::notify::{PushNotificationAction, PushNotificationPayload};
use indexer::openai::delta::CompletionChunkChoice;
use indexer::openai::{FunctionCall, FunctionCallFn, Message, Role};
use indexer::text::{split_on, str_le};

fn environment() -> Environment {
    Environment {
        storage_path: None,
        notes_deploy_key_path: Some("/keys/deploy".to_string()),
        vapid_key_path: Some("/keys/vapid".to_string()),
        note_search_api_url: None,
        searxng_api_url: None,
        gmail_client_id: Some("id".to_string()),
        gmail_client_secret: Some("secret".to_string()),
        local_llm_host: None,
        openai_api_key: None,
        local_llm_model: None,
        system_message: None,
        google_search_api_key: Some("key".to_string()),
        google_search_cx_id: Some("cx".to_string()),
    }
}

#[test]
fn chat_response_holds_its_message() {
    assert_eq!(ChatResponse::new("hello").message(), "hello");
    assert_eq!(ChatResponse::new("").message(), "");
}

#[test]
fn pages_are_planned() {
    let query = |page: Option<usize>, limit: Option<usize>| ChatSessionsQuery {
        page,
        limit,
        tags: None,
        exclude_tags: None,
    };
    let plan = query(None, None).plan().unwrap();
    assert_eq!((plan.page, plan.limit, plan.offset), (1, 20, 0));
    let plan = query(Some(3), Some(7)).plan().unwrap();
    assert_eq!((plan.page, plan.limit, plan.offset), (3, 7, 14));
    let plan = query(Some(5), Some(0)).plan().unwrap();
    assert_eq!(plan.offset, 0);
    assert!(query(Some(0), None).plan().is_none());
    assert!(query(Some(usize::MAX), Some(2)).plan().is_none());
    assert_eq!(total_pages(0, 20), Some(0));
    assert_eq!(total_pages(1, 20), Some(1));
    assert_eq!(total_pages(20, 20), Some(1));
    assert_eq!(total_pages(21, 20), Some(2));
    assert_eq!(total_pages(i64::MAX, 1), Some(i64::MAX));
    assert_eq!(total_pages(5, usize::MAX), Some(1));
    assert_eq!(total_pages(5, 0), None);
    assert_eq!(total_pages(-1, 5), None);
}

#[test]
fn new_session_begins_with_the_system_message() {
    let user = || Message::new(Role::User, "question");
    let seeded = seed_transcript(Vec::new(), "You are a helpful assistant.", user());
    let roles: Vec<Role> = seeded.iter().map(|m| m.role()).collect();
    assert_eq!(roles, vec![Role::System, Role::User]);
    assert_eq!(seeded[0].content().unwrap(), "You are a helpful assistant.");
    let stored = vec![Message::new(Role::System, "other"), Message::new(Role::Assistant, "hi")];
    let seeded = seed_transcript(stored, "You are a helpful assistant.", user());
    assert_eq!(seeded.len(), 3);
    assert_eq!(seeded[0].content().unwrap(), "other");
    assert_eq!(seeded[2].content().unwrap(), "question");
}

#[test]
fn failure_is_told_as_a_chunk() {
    let chunk = error_chunk("connection refused");
    assert_eq!(
        chunk.render(),
        r#"{"id":"error","choices":[{"finish_reason":"error","delta":{"content":"Something went wrong: connection refused"}}]}"#
    );
    // the chunk is meant for the browser: its choice has no index, so the
    // decoder of this library does not take it for a chunk of the model
    let choice = &chunk.get("choices").unwrap().as_array().unwrap()[0];
    assert!(CompletionChunkChoice::from_json(choice).is_none());
    assert_eq!(ApiError::new("boom").body(), "Something went wrong: boom");
}

#[test]
fn queries_have_defaults() {
    let calendar = CalendarQuery { email: "a@b.c".to_string(), days_ahead: None, calendar_id: None };
    assert_eq!(calendar.days(), 7);
    assert_eq!(calendar.calendar(), "primary");
    let calendar = CalendarQuery {
        email: "a@b.c".to_string(),
        days_ahead: Some(-3),
        calendar_id: Some("work".to_string()),
    };
    assert_eq!(calendar.days(), -3);
    assert_eq!(calendar.calendar(), "work");
    assert_eq!(event_summary(None), "No title");
    assert_eq!(event_summary(Some("Lunch".to_string())), "Lunch");
    assert_eq!(EmailUnreadQuery { email: "e".to_string(), limit: None }.days(), 7);
    assert_eq!(EmailUnreadQuery { email: "e".to_string(), limit: Some(2) }.days(), 2);
    assert_eq!(MetricsQuery { limit_days: None }.days(), 30);
    assert_eq!(MetricsQuery { limit_days: Some(1) }.days(), 1);
    assert_eq!(default_limit(), 20);
    assert!(default_as_true());
    assert!(!default_as_false());
    assert_eq!(default_web_limit(), 3);
    let search = SearchRequest::new("rust");
    assert_eq!((search.limit, search.include_similarity, search.truncate), (20, false, true));
    assert_eq!(WebSearchParams::new("rust").limit, 3);
    assert_eq!(Command::default_host(), "127.0.0.1");
    assert_eq!(Command::default_port(), "2222");
}

#[test]
fn metric_and_service_names() {
    assert_eq!(MetricName::TokenCount.as_str(), "token-count");
    assert_eq!(MetricName::from_name("token-count"), Some(MetricName::TokenCount));
    assert_eq!(MetricName::from_name("TokenCount"), None);
    assert_eq!(ServiceKind::Gmail.to_str(), "gmail");
    assert_eq!(ServiceKind::from_name("gmail"), Some(ServiceKind::Gmail));
    assert_eq!(ServiceKind::from_name("Gmail"), None);
    assert_eq!(
        auth_url("my id/1", None),
        "https://accounts.google.com/o/oauth2/v2/auth?client_id=my%20id%2F1&redirect_uri=urn%3Aietf%3Awg%3Aoauth%3A2.0%3Aoob&response_type=code&scope=https%3A%2F%2Fwww.googleapis.com%2Fauth%2Fgmail.modify%20https%3A%2F%2Fwww.googleapis.com%2Fauth%2Fcalendar.calendars.readonly%20https%3A%2F%2Fwww.googleapis.com%2Fauth%2Fcalendar.events.readonly&access_type=offline&prompt=consent"
    );
    assert!(auth_url("id", Some("https://example.com/back?x=\u{e9}~"))
        .contains("&redirect_uri=https%3A%2F%2Fexample.com%2Fback%3Fx%3D%C3%A9~&"));
    assert_eq!(
        refresh_token_form("id", "a&b", "1//x_y-z"),
        "client_id=id&client_secret=a%26b&refresh_token=1%2F%2Fx_y-z&grant_type=refresh_token"
    );
}

#[test]
fn subscription_keys_are_found_by_name() {
    let key = |name: &str, value: &str| SubscriptionKey {
        name: name.to_string(),
        value: value.to_string(),
    };
    let request = PushSubscriptionRequest {
        endpoint: "https://push".to_string(),
        keys: vec![key("p256dh", "k1"), key("auth", "k2"), key("auth", "k3")],
    };
    assert_eq!(request.key("p256dh").map(|v| v.as_str()), Some("k1"));
    assert_eq!(request.key("auth").map(|v| v.as_str()), Some("k2"));
    assert_eq!(request.key("other"), None);
}

#[test]
fn notification_has_defaults() {
    let payload = PushNotificationPayload::new("Title", "Body", None, None, None);
    assert_eq!(payload.title, "Title");
    assert_eq!(payload.body, "Body");
    assert!(payload.actions.is_empty());
    assert_eq!(payload.tag, None);
    assert_eq!(payload.data.url, "/");
    assert_eq!(
        payload.to_json().render(),
        r#"{"title":"Title","body":"Body","actions":[],"data":{"url":"/"}}"#
    );
    let payload = PushNotificationPayload::new(
        "T",
        "B",
        Some("/chat/1"),
        Some(vec![PushNotificationAction::new("open", "Open", "/icon.png")]),
        Some("chat"),
    );
    assert_eq!(
        payload.to_json().render(),
        r#"{"title":"T","body":"B","actions":[{"action":"open","title":"Open","icon":"/icon.png"}],"tag":"chat","data":{"url":"/chat/1"}}"#
    );
}

#[test]
fn jobs_notify_with_a_link_to_the_chat() {
    assert_eq!(DailyAgenda.interval_secs(), 86400);
    assert_eq!(ProcessEmail.interval_secs(), 7200);
    assert_eq!(GenerateSessionTitles.interval_secs(), 7200);
    let long = "x".repeat(151) + "\u{e9}";
    let payload = DailyAgenda::notification(&long, "abc");
    assert_eq!(payload.title, "Daily Agenda");
    assert_eq!(payload.body, "x".repeat(150));
    assert_eq!(payload.data.url, "/chat/abc");
    assert_eq!(DailyAgenda::preview("short \u{e9}"), "short \u{e9}");
    let payload = ProcessEmail::notification("3 new", "abc");
    assert_eq!(payload.title, "Unread Email Summary");
    assert_eq!(payload.body, "Emails processed! 3 new");
    assert_eq!(payload.data.url, "/chat?session_id=abc");
}

#[test]
fn session_prompt_lists_the_content() {
    let calls = vec![FunctionCall {
        function: FunctionCallFn { arguments: "{}".to_string(), name: "n".to_string() },
        id: "i".to_string(),
        kind: "function".to_string(),
    }];
    let transcript = vec![
        Message::new(Role::User, "Hello"),
        Message::new_tool_call_request(calls),
        Message::new_tool_call_response("result", "i"),
        Message::new(Role::Assistant, "Bye"),
    ];
    let prompt = create_session_prompt(&transcript);
    assert!(prompt.starts_with("Based on this chat conversation, generate a concise title"));
    assert!(prompt.ends_with("just the JSON object.\n\nConversation:\nHello\nresult\nBye\n"));
    assert!(create_session_prompt(&Vec::new()).ends_with("Conversation:\n"));
    assert_eq!(
        read_session_info(r#"{"title":"A title","summary":"A summary.","more":1}"#),
        Some(("A title".to_string(), "A summary.".to_string()))
    );
    assert_eq!(read_session_info(r#"{"title":"A title"}"#), None);
    assert_eq!(read_session_info(r#"{"title":"A title","summary":null}"#), None);
    assert_eq!(read_session_info("Here is the JSON: {}"), None);
}

#[test]
fn settings_come_from_the_environment() {
    let config = AppConfig::from_environment(environment()).unwrap();
    assert_eq!(config.index_path, ".//index");
    assert_eq!(config.notes_path, ".//notes");
    assert_eq!(config.vec_db_path, ".//db");
    assert_eq!(config.deploy_key_path, "/keys/deploy");
    assert_eq!(config.vapid_key_path, "/keys/vapid");
    assert_eq!(config.note_search_api_url, "http://127.0.0.1:2222");
    assert_eq!(config.searxng_api_url, "http://127.0.0.1:8080");
    assert_eq!(config.openai_api_hostname, "https://api.openai.com");
    assert_eq!(config.openai_api_key, "thiswontworkforopenai");
    assert_eq!(config.openai_model, "gpt-4.1-mini");
    assert_eq!(config.system_message, "You are a helpful assistant.");
    let mut env = environment();
    env.storage_path = Some("/data".to_string());
    env.local_llm_model = Some("local".to_string());
    let config = AppConfig::from_environment(env).unwrap();
    assert_eq!(config.vec_db_path, "/data/db");
    assert_eq!(config.openai_model, "local");
    let mut env = environment();
    env.google_search_cx_id = None;
    env.gmail_client_id = None;
    let missing = AppConfig::from_environment(env).unwrap_err();
    assert_eq!(missing, RequiredVariable::GmailClientId);
    assert_eq!(missing.name(), "HQ_GMAIL_CLIENT_ID");
    let paths = StoragePaths::under(None);
    assert_eq!(paths.index_path, ".//index");
    assert_eq!(StoragePaths::under(Some("/s")).notes_path, "/s/notes");
}

fn thread_of(id: &str, received: &str) -> EmailThread {
    EmailThread {
        id: id.to_string(),
        received: received.to_string(),
        from: String::new(),
        to: String::new(),
        subject: String::new(),
        messages: vec![],
    }
}

#[test]
fn threads_are_shown_newest_first() {
    let given = vec![
        thread_of("a", "1700000000000"),
        thread_of("b", "1800000000000"),
        thread_of("c", "1700000000000"),
        thread_of("d", "999"),
        thread_of("e", ""),
        thread_of("f", "1800000000000"),
        thread_of("g", "17"),
    ];
    let mut expected = given.clone();
    expected.sort_by_key(|thread| std::cmp::Reverse(thread.received.clone()));
    let sorted = newest_first(given);
    let ids: Vec<&str> = sorted.iter().map(|thread| thread.id.as_str()).collect();
    let expected_ids: Vec<&str> = expected.iter().map(|thread| thread.id.as_str()).collect();
    assert_eq!(ids, expected_ids);
    assert_eq!(ids, vec!["d", "b", "f", "a", "c", "g", "e"]);
    assert!(newest_first(vec![]).is_empty());
}

#[test]
fn texts_are_ordered_character_by_character() {
    let samples = ["", "a", "ab", "b", "B", "10", "9", "\u{e9}", "z", "\u{10348}", "abc", "ab"];
    for a in samples.iter() {
        for b in samples.iter() {
            assert_eq!(str_le(a, b), a <= b, "{:?} and {:?}", a, b);
        }
    }
}

#[test]
fn text_is_cut_at_every_separator() {
    let cases = ["", "a", "a,b", ",", "a,", ",a", "a,,b", "work,home,errands", ",,"];
    for text in cases.iter() {
        let expected: Vec<String> = text.split(',').map(|piece| piece.to_string()).collect();
        assert_eq!(split_on(text, ','), expected, "{:?}", text);
    }
    assert_eq!(split_on("a b", ','), vec!["a b".to_string()]);
    assert_eq!(split_on("x;y", ';'), vec!["x".to_string(), "y".to_string()]);
}

#[test]
fn sessions_are_selected_by_their_tags() {
    assert!(matches!(session_selection(&vec![], &vec![]), SessionSelection::All));
    match session_selection(&vec!["work".to_string(), "a\"b".to_string()], &vec![]) {
        SessionSelection::ByTags { wanted, wanted_count, unwanted, unwanted_count } => {
            assert_eq!(wanted, r#"["work","a\"b"]"#);
            assert_eq!(wanted_count, 2);
            assert_eq!(unwanted, "[]");
            assert_eq!(unwanted_count, 0);
        }
        SessionSelection::All => panic!("tags were given"),
    }
    match session_selection(&vec![], &vec!["background".to_string()]) {
        SessionSelection::ByTags { wanted, wanted_count, unwanted, unwanted_count } => {
            assert_eq!(wanted, "[]");
            assert_eq!(wanted_count, 0);
            assert_eq!(unwanted, r#"["background"]"#);
            assert_eq!(unwanted_count, 1);
        }
        SessionSelection::All => panic!("tags were given"),
    }
    assert_eq!(session_tags(None), Vec::<String>::new());
    assert_eq!(session_tags(Some("agenda,background")), vec!["agenda", "background"]);
    assert_eq!(session_tags(Some("")), vec![""]);
}

#[test]
fn message_is_sent_as_a_notification() {
    let request = NotificationRequest { message: "The index is new".to_string() };
    let payload = request.payload();
    assert_eq!(
        payload.to_json().render(),
        PushNotificationPayload::new(
            "Notification",
            "The index is new",
            None,
            None,
            Some("index_updated")
        )
        .to_json()
        .render()
    );
    assert_eq!(payload.title, "Notification");
    assert_eq!(payload.body, "The index is new");
    assert_eq!(payload.data.url, "/");
    assert_eq!(payload.tag.as_deref(), Some("index_updated"));
    assert!(payload.actions.is_empty());
}

#[test]
fn web_search_outcome_has_a_json_form() {
    let found = WebSearchResponse::new(
        "rust",
        vec![WebSearchResult {
            title: "Rust".to_string(),
            link: "https://www.rust-lang.org".to_string(),
            snippet: "A language".to_string(),
        }],
    );
    assert_eq!(
        found.to_json().render(),
        r#"{"query":"rust","results":[{"title":"Rust","link":"https://www.rust-lang.org","snippet":"A language"}]}"#
    );
    assert_eq!(
        WebSearchResponse::new("none", vec![]).to_json().render(),
        r#"{"query":"none","results":[]}"#
    );
}

#[test]
fn calendar_is_looked_at_for_days_ahead() {
    let query = |days_ahead: Option<i64>| CalendarQuery {
        email: "a@b.c".to_string(),
        days_ahead,
        calendar_id: None,
    };
    assert_eq!(query(None).window(1000), Some((1000, 1000 + 7 * 86400)));
    assert_eq!(query(Some(1)).window(0), Some((0, 86400)));
    assert_eq!(query(Some(-2)).window(0), Some((0, -172800)));
    assert_eq!(query(Some(i64::MAX)).window(0), None);
    assert_eq!(query(Some(1)).window(i64::MAX), None);
}
