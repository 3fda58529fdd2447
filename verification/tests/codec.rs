use indexer::api::calendar::{read_events, CalendarResponse};
use indexer::api::chat::{
    disconnected_notification, ChatRequest, ChatResponse, ChatSession, ChatSessionsResponse,
    ChatTranscriptResponse,
};
use indexer::api::email::{
    email_message, email_thread, email_threads_to_json, find_header, read_email_threads,
    EmailMessage, EmailThread,
};
use indexer::api::metrics::{MetricEvent, MetricName, MetricRequest, MetricsResponse};
use indexer::api::notes::{changed_paths, SearchResponse, SearchResult, ViewNoteResponse};
use indexer::api::push::{NotificationRequest, PushSubscriptionRequest};
use indexer::api::state::{selection_to_json, LastSelection};
use indexer::api::webhook::BlurtNotification;
use indexer::google::gmail::{
    base64_url_no_pad, ListMessagesResponse, Message, MessageHeader, MessagePartBody,
    MessagePayload, Thread,
};
use indexer::json::Json;
use indexer::members::{
    integer_to_json, optional_string_to_json, read_integer_member, read_optional_integer_member,
    read_optional_string_member, read_size_member, read_string_member, read_unsigned_member,
};
use indexer::openai::{Message as ChatMessage, Role};

fn parse(text: &str) -> Json {
    Json::parse(text).expect("a JSON document")
}

const THREAD: &str = r#"{
    "id": "thr_001",
    "messages": [
        {
            "id": "msg_001a",
            "threadId": "thr_001",
            "snippet": "Test snippet",
            "labelIds": ["INBOX"],
            "internalDate": "1731401723000",
            "payload": {
                "mimeType": "text/plain",
                "headers": [
                    {"name": "From", "value": "test@example.com"},
                    {"name": "To", "value": "me@example.org"},
                    {"name": "Subject", "value": "Test Thread"}
                ],
                "body": {
                    "attachmentId": null,
                    "size": 10,
                    "data": "SGVsbG8gV29ybGQ="
                }
            }
        }
    ]
}"#;

#[test]
fn thread_is_read_from_json() {
    let thread = Thread::from_json(&parse(THREAD)).unwrap();
    assert_eq!(thread.id, "thr_001");
    assert_eq!(thread.messages.len(), 1);
    let message = &thread.messages[0];
    assert_eq!(message.id, "msg_001a");
    assert_eq!(message.thread_id, "thr_001");
    assert_eq!(message.snippet.as_deref(), Some("Test snippet"));
    assert_eq!(message.label_ids, Some(vec!["INBOX".to_string()]));
    assert_eq!(message.internal_date, "1731401723000");
    let payload = message.payload.as_ref().unwrap();
    assert_eq!(payload.mimetype, "text/plain");
    assert_eq!(payload.headers.as_ref().unwrap().len(), 3);
    assert_eq!(payload.headers.as_ref().unwrap()[2].value, "Test Thread");
    assert!(payload.parts.is_none());
    let body = payload.body.as_ref().unwrap();
    assert_eq!(body.attachment_id, None);
    assert_eq!(body.size, 10);
    assert_eq!(body.data.as_deref(), Some("SGVsbG8gV29ybGQ="));
}

#[test]
fn thread_with_a_flaw_is_not_read() {
    let with = |from: &str, to: &str| Thread::from_json(&parse(&THREAD.replace(from, to)));
    assert!(with("\"thr_001\",\n    \"messages\"", "7,\n    \"messages\"").is_none());
    assert!(with("\"internalDate\": \"1731401723000\",", "").is_none());
    assert!(with("\"size\": 10", "\"size\": -1").is_none());
    assert!(with("[\"INBOX\"]", "[\"INBOX\", 3]").is_none());
    assert!(with("{\"name\": \"To\", \"value\": \"me@example.org\"},", "{\"name\": \"To\"},").is_none());
    assert!(with("\"mimeType\": \"text/plain\",", "").is_none());
    assert!(with("\"snippet\": \"Test snippet\",", "\"snippet\": null,").is_some());
    assert!(with("[\"INBOX\"]", "null").is_some());
    assert!(Thread::from_json(&parse(r#"{"id":"t"}"#)).is_none());
    assert_eq!(Thread::from_json(&parse(r#"{"id":"t","messages":[]}"#)).unwrap().messages.len(), 0);
    let parts = r#"{"id":"m","threadId":"t","internalDate":"0","payload":{"mimeType":"multipart/mixed","parts":[{"partId":"0","mimeType":"text/plain","body":{"size":3,"data":"YWJj"}},{"partId":"1","mimeType":"image/png"}]}}"#;
    let message = Message::from_json(&parse(parts)).unwrap();
    let parts = message.payload.unwrap().parts.unwrap();
    assert_eq!(parts.len(), 2);
    assert_eq!(parts[0].body.as_ref().unwrap().data.as_deref(), Some("YWJj"));
    assert!(parts[1].body.is_none());
}

#[test]
fn listing_is_read_from_json() {
    let listing = ListMessagesResponse::from_json(&parse(
        r#"{"messages": [{"id": "msg_001", "threadId": "thr_001"}], "nextPageToken": null}"#,
    ))
    .unwrap();
    assert_eq!(listing.messages.as_ref().unwrap().len(), 1);
    assert_eq!(listing.messages.unwrap()[0].thread_id, "thr_001");
    assert_eq!(listing.next_page_token, None);
    let listing = ListMessagesResponse::from_json(&parse(r#"{"nextPageToken":"next-page"}"#)).unwrap();
    assert!(listing.messages.is_none());
    assert_eq!(listing.next_page_token.as_deref(), Some("next-page"));
    assert!(ListMessagesResponse::from_json(&parse(r#"{"messages":[{"id":"m"}]}"#)).is_none());
    assert!(ListMessagesResponse::from_json(&parse(r#"{"messages":{}}"#)).is_none());
    assert!(ListMessagesResponse::from_json(&parse(r#"[]"#)).is_none());
}

fn mail(id: &str, headers: Option<Vec<(&str, &str)>>, body: &str) -> Message {
    Message {
        id: id.to_string(),
        thread_id: "t".to_string(),
        snippet: None,
        payload: Some(MessagePayload {
            headers: headers.map(|list| {
                list.into_iter()
                    .map(|(name, value)| MessageHeader {
                        name: name.to_string(),
                        value: value.to_string(),
                    })
                    .collect()
            }),
            mimetype: "text/plain".to_string(),
            body: Some(MessagePartBody {
                attachment_id: None,
                size: 1,
                data: Some(base64_url_no_pad(body)),
            }),
            parts: None,
        }),
        label_ids: None,
        internal_date: format!("date-{}", id),
    }
}

#[test]
fn thread_is_shown_with_its_first_message_as_head() {
    let headers = |subject: &'static str| {
        Some(vec![("Subject", subject), ("From", "a@x"), ("To", "b@x"), ("From", "later@x")])
    };
    let thread = Thread {
        id: "thr".to_string(),
        messages: vec![
            mail("1", headers("First"), "  Hello there \n\nBest regards,\nAnn"),
            mail("2", headers("Re: First"), "Reply\n> Hello there"),
        ],
    };
    let shown = email_thread(&thread).unwrap();
    assert_eq!(
        shown.to_json().render(),
        r#"{"id":"thr","received":"date-1","from":"a@x","to":"b@x","subject":"First","messages":[{"id":"1","thread_id":"t","from":"a@x","to":"b@x","received":"date-1","subject":"First","body":"Hello there"},{"id":"2","thread_id":"t","from":"a@x","to":"b@x","received":"date-2","subject":"Re: First","body":"Reply"}]}"#
    );
    // the headers are looked for by their very names
    let lower = mail("3", Some(vec![("subject", "s"), ("From", "a"), ("To", "b")]), "x");
    assert!(email_message(&lower).is_none());
    assert!(email_message(&mail("4", None, "x")).is_none());
    let mut bare = mail("5", headers("s"), "x");
    bare.payload = None;
    assert!(email_message(&bare).is_none());
    assert!(email_thread(&Thread { id: "e".to_string(), messages: vec![] }).is_none());
    let broken = Thread { id: "b".to_string(), messages: vec![mail("6", headers("s"), "x"), lower] };
    assert!(email_thread(&broken).is_none());
    let list = vec![MessageHeader { name: "A".to_string(), value: "1".to_string() }];
    assert_eq!(find_header(&list, "A"), Some("1".to_string()));
    assert_eq!(find_header(&list, "a"), None);
}

#[test]
fn search_outcome_is_read_from_json() {
    let note = r#"{"id":"n1","type":"note","title":"T","category":"c","file_name":"f.org","tags":null,"is_task":true,"task_status":"todo","body":"text"}"#;
    let response = SearchResponse::from_json(&parse(&format!(
        r#"{{"raw_query":"q","parsed_query":"p","results":[{}]}}"#,
        note
    )))
    .unwrap();
    assert_eq!(response.raw_query, "q");
    assert_eq!(response.parsed_query, "p");
    let result = &response.results[0];
    assert_eq!(result.kind, "note");
    assert!(result.is_task);
    assert_eq!(result.tags, None);
    assert_eq!(result.task_status.as_deref(), Some("todo"));
    assert_eq!(result.meeting_date, None);
    assert!(SearchResult::from_json(&parse(&note.replace("\"is_task\":true,", ""))).is_none());
    assert!(SearchResult::from_json(&parse(&note.replace("\"is_task\":true", "\"is_task\":1"))).is_none());
    assert!(SearchResult::from_json(&parse(&note.replace("\"body\":\"text\"", "\"body\":null"))).is_none());
    assert!(SearchResponse::from_json(&parse(r#"{"raw_query":"q","parsed_query":"p"}"#)).is_none());
    assert!(SearchResponse::from_json(&parse(r#"{"raw_query":"q","parsed_query":"p","results":[{}]}"#)).is_none());
}

#[test]
fn events_are_read_from_json() {
    let list = parse(
        r#"[{"id":"e1","summary":"Standup","start":"s","end":"e","attendees":[{"email":"a@x","display_name":"Ann"},{"email":"b@x"}]},{"id":"e2","summary":"Solo","start":"s","end":"e","attendees":null}]"#,
    );
    let events: Vec<CalendarResponse> = read_events(list.as_array().unwrap()).unwrap();
    assert_eq!(events.len(), 2);
    let attendees = events[0].attendees.as_ref().unwrap();
    assert_eq!(attendees[0].display_name.as_deref(), Some("Ann"));
    assert_eq!(attendees[1].display_name, None);
    assert!(events[1].attendees.is_none());
    let bad = parse(r#"[{"id":"e1","summary":"Standup","start":"s","end":"e","attendees":[{}]}]"#);
    assert!(read_events(bad.as_array().unwrap()).is_none());
    let bad = parse(r#"[{"id":"e1","summary":"Standup","start":"s","end":"e","attendees":{}}]"#);
    assert!(read_events(bad.as_array().unwrap()).is_none());
    let bad = parse(r#"[{"id":"e1","summary":null,"start":"s","end":"e"}]"#);
    assert!(read_events(bad.as_array().unwrap()).is_none());
}

#[test]
fn chat_types_have_json_forms() {
    let request = ChatRequest::from_json(&parse(r#"{"session_id":"s","message":"m"}"#)).unwrap();
    assert_eq!((request.session_id.as_str(), request.message.as_str()), ("s", "m"));
    assert!(ChatRequest::from_json(&parse(r#"{"session_id":"s"}"#)).is_none());
    assert!(ChatRequest::from_json(&parse(r#"{"session_id":1,"message":"m"}"#)).is_none());
    assert_eq!(ChatResponse::new("hi").to_json().render(), r#"{"message":"hi"}"#);
    let response = ChatSessionsResponse {
        sessions: vec![
            ChatSession {
                id: "a".to_string(),
                title: Some("Title".to_string()),
                summary: None,
                tags: vec!["x".to_string(), "y".to_string()],
            },
            ChatSession { id: "b".to_string(), title: None, summary: None, tags: vec![] },
        ],
        page: 2,
        limit: 20,
        total_sessions: 22,
        total_pages: 2,
    };
    assert_eq!(
        response.to_json().render(),
        r#"{"sessions":[{"id":"a","title":"Title","summary":null,"tags":["x","y"]},{"id":"b","title":null,"summary":null,"tags":[]}],"page":2,"limit":20,"total_sessions":22,"total_pages":2}"#
    );
    let transcript = ChatTranscriptResponse {
        transcript: vec![ChatMessage::new(Role::User, "q"), ChatMessage::new(Role::Assistant, "a")],
    };
    assert_eq!(
        transcript.to_json().render(),
        r#"{"transcript":[{"role":"user","content":"q"},{"role":"assistant","content":"a"}]}"#
    );
}

#[test]
fn metrics_have_json_forms() {
    let request = MetricRequest::from_json(&parse(r#"{"name":"token-count","value":-5}"#)).unwrap();
    assert_eq!(request.name, MetricName::TokenCount);
    assert_eq!(request.value, -5);
    assert!(MetricRequest::from_json(&parse(r#"{"name":"other","value":1}"#)).is_none());
    assert!(MetricRequest::from_json(&parse(r#"{"name":"token-count"}"#)).is_none());
    assert!(MetricRequest::from_json(&parse(r#"{"name":"token-count","value":1.5}"#)).is_none());
    assert!(MetricRequest::from_json(&parse(r#"{"value":1}"#)).is_none());
    let response = MetricsResponse {
        events: vec![
            MetricEvent { name: MetricName::TokenCount, timestamp: "2026-01-31".to_string(), value: 12 },
            MetricEvent { name: MetricName::TokenCount, timestamp: "2026-01-30".to_string(), value: -1 },
        ],
    };
    assert_eq!(
        response.to_json().render(),
        r#"{"events":[{"name":"token-count","timestamp":"2026-01-31","value":12},{"name":"token-count","timestamp":"2026-01-30","value":-1}]}"#
    );
}

#[test]
fn selection_and_notifications_are_read_from_json() {
    let selection = LastSelection::from_json(&parse(r#"{"id":"1","title":"T","file_name":"f"}"#));
    assert_eq!(
        selection_to_json(&selection).render(),
        r#"{"id":"1","file_name":"f","title":"T"}"#
    );
    assert_eq!(selection_to_json(&None).render(), "null");
    assert!(LastSelection::from_json(&parse(r#"{"id":"1","title":"T"}"#)).is_none());
    let blurt = BlurtNotification::from_json(&parse(
        r#"{"id":7,"title":"T","subtitle":null,"body":"B","date":-3,"bundle_id":"app"}"#,
    ))
    .unwrap();
    assert_eq!((blurt.id, blurt.date), (7, -3));
    assert_eq!(blurt.subtitle, None);
    assert_eq!(blurt.bundle_id.as_deref(), Some("app"));
    assert!(BlurtNotification::from_json(&parse(r#"{"id":7,"title":"T","body":"B"}"#)).is_none());
    assert!(BlurtNotification::from_json(&parse(r#"{"id":"7","title":"T","body":"B","date":1}"#))
        .is_none());
    assert!(BlurtNotification::from_json(&parse(r#"{"id":7,"title":"T","body":"B","date":1}"#))
        .is_some());
    let subscription = PushSubscriptionRequest::from_json(&parse(
        r#"{"endpoint":"https://push","keys":{"p256dh":"k1","auth":"k2"}}"#,
    ))
    .unwrap();
    assert_eq!(subscription.endpoint, "https://push");
    assert_eq!(subscription.key("auth").map(|k| k.as_str()), Some("k2"));
    assert_eq!(subscription.keys.len(), 2);
    assert!(PushSubscriptionRequest::from_json(&parse(r#"{"endpoint":"e","keys":{"a":1}}"#)).is_none());
    assert!(PushSubscriptionRequest::from_json(&parse(r#"{"endpoint":"e"}"#)).is_none());
    assert!(PushSubscriptionRequest::from_json(&parse(r#"{"keys":{}}"#)).is_none());
    assert_eq!(
        NotificationRequest::from_json(&parse(r#"{"message":"hello"}"#)).unwrap().message,
        "hello"
    );
    assert!(NotificationRequest::from_json(&parse(r#"{}"#)).is_none());
}

#[test]
fn members_are_read_by_kind() {
    let v = parse(r#"{"s":"text","n":null,"u":7,"i":-7,"big":18446744073709551615,"r":1.5,"o":{}}"#);
    assert_eq!(read_string_member(&v, "s"), Some("text".to_string()));
    assert_eq!(read_string_member(&v, "n"), None);
    assert_eq!(read_string_member(&v, "missing"), None);
    assert_eq!(read_optional_string_member(&v, "s"), Some(Some("text".to_string())));
    assert_eq!(read_optional_string_member(&v, "n"), Some(None));
    assert_eq!(read_optional_string_member(&v, "missing"), Some(None));
    assert_eq!(read_optional_string_member(&v, "u"), None);
    assert_eq!(read_size_member(&v, "u"), Some(7));
    assert_eq!(read_size_member(&v, "i"), None);
    assert_eq!(read_size_member(&v, "r"), None);
    assert_eq!(read_unsigned_member(&v, "u", 7), Some(7));
    assert_eq!(read_unsigned_member(&v, "u", 6), None);
    assert_eq!(read_integer_member(&v, "u"), Some(7));
    assert_eq!(read_integer_member(&v, "i"), Some(-7));
    assert_eq!(read_integer_member(&v, "big"), None);
    assert_eq!(read_integer_member(&v, "r"), None);
    assert_eq!(read_optional_integer_member(&v, "n"), Some(None));
    assert_eq!(read_optional_integer_member(&v, "i"), Some(Some(-7)));
    assert_eq!(read_optional_integer_member(&v, "s"), None);
    assert_eq!(read_string_member(&parse("[]"), "s"), None);
    assert_eq!(integer_to_json(-1).render(), "-1");
    assert_eq!(integer_to_json(0).render(), "0");
    assert_eq!(integer_to_json(i64::MAX).render(), "9223372036854775807");
    assert_eq!(optional_string_to_json(&None).render(), "null");
    assert_eq!(optional_string_to_json(&Some("a\"b".to_string())).render(), r#""a\"b""#);
}

#[test]
fn shown_threads_are_read_back_from_their_json() {
    let text = r#"[{"id":"thr","received":"2","from":"a@x","to":"b@x","subject":"First","messages":[{"id":"1","thread_id":"thr","from":"a@x","to":"b@x","received":"2","subject":"First","body":"Hello"}],"more":1},{"id":"other","received":"1","from":"c@x","to":"d@x","subject":"Second","messages":[]}]"#;
    let document = parse(text);
    let threads = read_email_threads(document.as_array().unwrap()).unwrap();
    assert_eq!(threads.len(), 2);
    assert_eq!(threads[0].id, "thr");
    assert_eq!(threads[0].messages.len(), 1);
    assert_eq!(threads[0].messages[0].body, "Hello");
    assert_eq!(threads[1].subject, "Second");
    assert!(threads[1].messages.is_empty());
    assert_eq!(
        email_threads_to_json(&threads).render(),
        r#"[{"id":"thr","received":"2","from":"a@x","to":"b@x","subject":"First","messages":[{"id":"1","thread_id":"thr","from":"a@x","to":"b@x","received":"2","subject":"First","body":"Hello"}]},{"id":"other","received":"1","from":"c@x","to":"d@x","subject":"Second","messages":[]}]"#
    );
    // a thread that lacks a member, or holds a message that does, is not read
    let headless = parse(r#"[{"id":"thr","from":"a","to":"b","subject":"s","messages":[]}]"#);
    assert!(read_email_threads(headless.as_array().unwrap()).is_none());
    let flawed = parse(
        r#"[{"id":"t","received":"1","from":"a","to":"b","subject":"s","messages":[{"id":"1"}]}]"#,
    );
    assert!(read_email_threads(flawed.as_array().unwrap()).is_none());
    assert!(EmailThread::from_json(&parse(r#"{"id":"t","received":"1","from":"a","to":"b","subject":"s","messages":{}}"#)).is_none());
    assert!(EmailMessage::from_json(&parse(r#"{"id":1}"#)).is_none());
    assert_eq!(read_email_threads(&vec![]).unwrap().len(), 0);
}

#[test]
fn notes_are_written_as_they_are_read() {
    let text = r#"{"raw_query":"q","parsed_query":"p","results":[{"id":"n1","type":"note","title":"T","category":"c","file_name":"f.org","tags":null,"is_task":true,"task_status":"done","task_scheduled":null,"task_deadline":"2025-01-01","task_closed":null,"meeting_date":null,"body":"text"}]}"#;
    let response = SearchResponse::from_json(&parse(text)).unwrap();
    assert_eq!(response.to_json().render(), text);
    let note = ViewNoteResponse {
        id: "n1".to_string(),
        title: "T".to_string(),
        body: "text".to_string(),
        tags: None,
    };
    assert_eq!(note.to_json().render(), r#"{"id":"n1","title":"T","body":"text","tags":null}"#);
    let tagged = ViewNoteResponse { tags: Some("a,b".to_string()), ..note };
    assert_eq!(tagged.to_json().render(), r#"{"id":"n1","title":"T","body":"text","tags":"a,b"}"#);
}

#[test]
fn changed_files_lie_under_the_notes() {
    assert_eq!(changed_paths("/notes", &vec![]), None);
    assert_eq!(
        changed_paths("/notes", &vec!["a.org".to_string(), "sub/b.org".to_string()]),
        Some(vec!["/notes/a.org".to_string(), "/notes/sub/b.org".to_string()])
    );
}

#[test]
fn a_client_that_went_away_is_notified() {
    let payload = disconnected_notification("abc");
    assert_eq!(payload.title, "New chat response");
    assert_eq!(payload.body, "New response after you disconnected.");
    assert_eq!(payload.data.url, "/chat/?session_id=abc");
    assert!(payload.actions.is_empty());
    assert!(payload.tag.is_none());
}
