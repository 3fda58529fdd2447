use indexer::ai::agents::agenda::{daily_agenda_chat, daily_agenda_request};
use indexer::ai::agents::email::{email_chat, email_chat_request};
use indexer::ai::prompt::Prompt;
use indexer::ai::tools::calendar::{format_attendees, format_event, CalendarArgs};
use indexer::ai::tools::email::EmailUnreadArgs;
use indexer::ai::tools::meeting_search::MeetingSearchArgs;
use indexer::ai::tools::memory::{
    saved_message, MemoryArgs, MemoryError, MemoryOperation, MemoryPlan, MAX_WORDS,
};
use indexer::ai::tools::tasks::{format_result, format_tasks};
use indexer::ai::tools::{
    CalendarTool, EmailUnreadTool, MeetingSearchTool, MemoryTool, TasksDueTodayTool,
    TasksScheduledTodayTool, ToolRequest,
};
use indexer::cli::chat::{chat_session, chat_settings};
use indexer::dates::{day_before_text, day_text, days_before, DayForm};
use indexer::anthropic::claude::{
    command_args, read_line, ClaudeCodeSession, ContentBlock, Delta, Line, StreamEvent, Usage,
};
use indexer::api::calendar::{CalendarAttendee, CalendarResponse};
use indexer::api::notes::SearchResult;
use indexer::json::Json;
use indexer::openai::Role;
use indexer::text::{count_words, join, signed_decimal, to_decimal, unsigned_decimal};
use uuid::Uuid;

fn parse(text: &str) -> Json {
    Json::parse(text).expect("a JSON document")
}

fn note(title: &str, id: &str, body: &str) -> SearchResult {
    SearchResult {
        id: id.to_string(),
        kind: "note".to_string(),
        title: title.to_string(),
        category: "c".to_string(),
        file_name: "f.org".to_string(),
        tags: None,
        is_task: true,
        task_status: None,
        task_scheduled: None,
        task_deadline: None,
        task_closed: None,
        meeting_date: None,
        body: body.to_string(),
    }
}

#[test]
fn test_memory_tool_default() {
    let tool = MemoryTool::default();
    assert_eq!(tool.function_name(), "memory");
}

#[test]
fn test_memory_tool_new() {
    let tool = MemoryTool::new("/tmp/test");
    assert_eq!(tool.storage_path, "/tmp/test");
    assert_eq!(tool.function_name(), "memory");
}

#[test]
fn test_tasks_due_today_default() {
    let tool = TasksDueTodayTool::default();
    assert_eq!(tool.api_base_url, "http://localhost:2222");
    assert_eq!(tool.function_name(), "tasks_due_today");
}

#[test]
fn test_tasks_scheduled_today_default() {
    let tool = TasksScheduledTodayTool::default();
    assert_eq!(tool.api_base_url, "http://localhost:2222");
    assert_eq!(tool.function_name(), "tasks_scheduled_today");
}

#[test]
fn test_default_tools() {
    let session = ClaudeCodeSession::with_default_tools(Uuid::new_v4());
    assert_eq!(session.allowed_tools(), &vec!["Read", "Edit", "Bash"]);
}

#[test]
fn test_custom_tools() {
    let session =
        ClaudeCodeSession::new(Uuid::new_v4(), vec!["Read".to_string(), "Bash".to_string()]);
    assert_eq!(session.allowed_tools(), &vec!["Read", "Bash"]);
}

#[test]
fn command_names_the_session_and_the_tools() {
    let id = Uuid::new_v4();
    let session = ClaudeCodeSession::with_default_tools(id);
    assert_eq!(session.session_id(), id);
    assert_eq!(session.session_id_text(), &id.to_string());
    assert_eq!(
        session.arguments("What is this?", false),
        vec![
            "code".to_string(),
            "--output-format".to_string(),
            "stream-json".to_string(),
            "--verbose".to_string(),
            "--include-partial-messages".to_string(),
            "--session-id".to_string(),
            id.to_string(),
            "--allowedTools".to_string(),
            "Read,Edit,Bash".to_string(),
            "-p".to_string(),
            "What is this?".to_string(),
        ]
    );
    let args = command_args("abc", &Vec::new(), "p", true);
    assert_eq!(args[5], "--resume");
    assert_eq!(args[6], "abc");
    assert_eq!(args[8], "");
}

#[test]
fn lines_of_the_assistant_are_told_apart() {
    assert!(matches!(read_line("  \t "), Line::Blank));
    assert!(matches!(read_line(""), Line::Blank));
    assert!(matches!(read_line("not json"), Line::Unreadable));
    assert!(matches!(read_line(r#"{"no":"type"}"#), Line::Unreadable));
    let line = r#"{"type":"stream_event","event":{"type":"content_block_delta","delta":{"type":"text_delta","text":"Hi"}}}"#;
    match read_line(line) {
        Line::Event { event: StreamEvent::ContentBlockDelta { delta: Delta::TextDelta { text } } } => {
            assert_eq!(text, "Hi")
        }
        other => panic!("expected a text delta, got {:?}", other),
    }
    let line = r#" {"type":"stream_event","event":{"type":"message_delta","usage":{"input_tokens":3,"output_tokens":5},"delta":{"stop_reason":"end_turn"}}} "#;
    match read_line(line) {
        Line::Event { event: StreamEvent::MessageDelta { usage, delta } } => {
            let usage = usage.unwrap();
            assert_eq!((usage.input_tokens, usage.output_tokens), (3, 5));
            assert_eq!(delta.unwrap().stop_reason.as_deref(), Some("end_turn"));
        }
        other => panic!("expected a message delta, got {:?}", other),
    }
    for kind in ["message_start", "content_block_stop", "message_stop"] {
        let line = format!(r#"{{"type":"stream_event","event":{{"type":"{}"}}}}"#, kind);
        assert!(matches!(read_line(&line), Line::Event { .. }), "{}", kind);
    }
    // a line of the stream without an event, and a line of another kind
    assert!(matches!(read_line(r#"{"type":"stream_event"}"#), Line::Other));
    assert!(matches!(read_line(r#"{"type":"stream_event","event":null}"#), Line::Other));
    assert!(matches!(
        read_line(r#"{"type":"system","event":{"type":"message_start"}}"#),
        Line::Other
    ));
    // a line with a type is a line of the stream, whatever else it holds
    assert!(matches!(
        read_line(r#"{"type":"result","session_id":"s","is_error":false,"result":"done"}"#),
        Line::Other
    ));
    // an event that cannot be read makes the line a candidate for the result
    let line = r#"{"type":"result","event":{"type":"unknown"},"session_id":"s","is_error":true}"#;
    match read_line(line) {
        Line::Result { result } => {
            assert!(result.is_error);
            assert_eq!(result.session_id, "s");
            assert_eq!(result.result_type, "result");
            assert_eq!(result.result, None);
        }
        other => panic!("expected a result, got {:?}", other),
    }
    assert!(matches!(
        read_line(r#"{"type":"stream_event","event":{"type":"content_block_delta"}}"#),
        Line::Unreadable
    ));
    let delta = Delta::from_json(&parse(r#"{"type":"input_json_delta","partial_json":"{\"a"}"#));
    assert!(matches!(delta, Some(Delta::InputJsonDelta { partial_json }) if partial_json == "{\"a"));
    assert!(Delta::from_json(&parse(r#"{"type":"text_delta"}"#)).is_none());
    assert!(Delta::from_json(&parse(r#"{"type":"other","text":"Hi"}"#)).is_none());
    let block = ContentBlock::from_json(&parse(r#"{"type":"tool_use","id":"t1","name":null}"#))
        .unwrap();
    assert_eq!(block.block_type, "tool_use");
    assert_eq!(block.id.as_deref(), Some("t1"));
    assert_eq!(block.name, None);
    assert!(ContentBlock::from_json(&parse(r#"{"id":"t1"}"#)).is_none());
    assert!(Usage::from_json(&parse(r#"{"input_tokens":1}"#)).is_none());
    assert!(Usage::from_json(&parse(r#"{"input_tokens":1,"output_tokens":4294967296}"#)).is_none());
}

#[test]
fn tool_definitions_are_written_in_full() {
    assert_eq!(
        TasksDueTodayTool::new("http://x").definition().render(),
        r#"{"type":"function","function":{"name":"tasks_due_today","description":"Get a list of tasks that are due today, excluding done and canceled tasks.","parameters":{"type":"object","properties":{},"required":[],"additionalProperties":false},"strict":true}}"#
    );
    assert_eq!(
        EmailUnreadTool::default().definition().render(),
        r#"{"type":"function","function":{"name":"get_unread_emails","description":"Fetch unread emails for a specific email address.","parameters":{"type":"object","properties":{"email":{"type":"string","description":"The email address to fetch unread emails for."}},"required":["email"],"additionalProperties":false},"strict":true}}"#
    );
    let calendar = CalendarTool::new("http://api");
    assert_eq!(calendar.api_base_url, "http://api");
    assert_eq!(calendar.function_name(), "get_calendar_events");
    assert_eq!(
        calendar.definition().get("function").unwrap().get("parameters").unwrap().render(),
        r#"{"type":"object","properties":{"days_ahead":{"type":"integer","description":"Number of days ahead to fetch events for (default is 7)."},"calendar_id":{"type":"string","description":"The calendar ID to fetch events from (default is 'primary')."}},"required":[],"additionalProperties":false}"#
    );
    let meetings = MeetingSearchTool::default();
    assert_eq!(meetings.function_name(), "search_meetings");
    assert_eq!(meetings.function.parameters.required, vec!["query"]);
    let memory = MemoryTool::default();
    assert_eq!(memory.storage_path, "./");
    assert!(!memory.function.strict);
    assert!(memory.definition().render().contains(r#""strict":false"#));
    assert_eq!(TasksScheduledTodayTool::new("u").function.description,
        "Get a list of tasks that are scheduled for today, excluding done and canceled tasks.");
}

#[test]
fn task_queries_name_the_day() {
    assert_eq!(
        TasksDueTodayTool::query("2026-01-31"),
        "deadline:<=2026-01-31 -status:done -status:canceled"
    );
    assert_eq!(
        TasksScheduledTodayTool::query("2026-01-31"),
        "scheduled:<=2026-01-31 -status:done -status:canceled"
    );
}

#[test]
fn notes_are_listed_with_blank_lines_between_them() {
    assert_eq!(format_tasks(&Vec::new()), "No results found");
    assert_eq!(MeetingSearchTool::format(&Vec::new()), "");
    let notes = vec![note("First", "id-1", "body one"), note("Second", "id-2", "")];
    assert_eq!(format_result(&notes[0]), "## First\nid-1\nbody one");
    assert_eq!(format_tasks(&notes), "## First\nid-1\nbody one\n\n## Second\nid-2\n");
    assert_eq!(MeetingSearchTool::format(&notes), "## First\nid-1\nbody one\n\n## Second\nid-2\n");
}

#[test]
fn arguments_are_read_from_json() {
    let args = CalendarArgs::from_json(&parse(r#"{"days_ahead":3,"calendar_id":"work"}"#)).unwrap();
    assert_eq!(args.days_ahead, Some(3));
    assert_eq!(args.calendar_id.as_deref(), Some("work"));
    let args = CalendarArgs::from_json(&parse(r#"{"days_ahead":null,"other":1}"#)).unwrap();
    assert_eq!(args.days_ahead, None);
    assert_eq!(args.calendar_id, None);
    assert_eq!(
        CalendarArgs::from_json(&parse(r#"{"days_ahead":-2}"#)).unwrap().days_ahead,
        Some(-2)
    );
    assert!(CalendarArgs::from_json(&parse(r#"{"days_ahead":"3"}"#)).is_none());
    assert!(CalendarArgs::from_json(&parse(r#"{"days_ahead":2.5}"#)).is_none());
    assert!(CalendarArgs::from_json(&parse(r#"{"days_ahead":9223372036854775808}"#)).is_none());
    assert!(CalendarArgs::from_json(&parse(r#"{"calendar_id":7}"#)).is_none());
    assert!(CalendarArgs::from_json(&parse(r#"[]"#)).is_none());
    assert_eq!(
        EmailUnreadArgs::from_json(&parse(r#"{"email":"a@b.c"}"#)).unwrap().email,
        "a@b.c"
    );
    assert!(EmailUnreadArgs::from_json(&parse(r#"{}"#)).is_none());
    let args = MeetingSearchArgs::from_json(&parse(r#"{"query":"budget"}"#)).unwrap();
    assert_eq!(args.search_query(), "tags:meeting budget");
    assert!(MeetingSearchArgs::from_json(&parse(r#"{"query":null}"#)).is_none());
}

#[test]
fn memory_is_read_or_written() {
    let args = MemoryArgs::from_json(&parse(r#"{"operation": "read"}"#)).unwrap();
    assert_eq!(args.operation, MemoryOperation::Read);
    assert!(matches!(args.plan(), Ok(MemoryPlan::Read)));
    let args = MemoryArgs::from_json(&parse(
        r#"{"operation": "write", "content": "User prefers concise responses"}"#,
    ))
    .unwrap();
    match args.plan() {
        Ok(MemoryPlan::Write { content, words }) => {
            assert_eq!(words, 4);
            let message = saved_message(words, &content);
            assert!(message.contains("Memory saved"));
            assert!(message.contains("4 words"));
            assert_eq!(
                message,
                "Memory saved (4 words). Current memory:\n\nUser prefers concise responses"
            );
        }
        _ => panic!("expected a write"),
    }
    assert!(MemoryArgs::from_json(&parse(r#"{"operation": "erase"}"#)).is_none());
    assert!(MemoryArgs::from_json(&parse(r#"{"content": "x"}"#)).is_none());
    assert!(MemoryArgs::from_json(&parse(r#"{"operation": "Read"}"#)).is_none());
}

#[test]
fn memory_needs_content_within_the_limit() {
    let write = |content: Option<String>| {
        MemoryArgs { operation: MemoryOperation::Write, content }.plan()
    };
    let error = write(None).unwrap_err();
    assert_eq!(error, MemoryError::ContentRequired);
    assert!(error.message().contains("Content is required"));
    let error = write(Some("word ".repeat(2001))).unwrap_err();
    assert_eq!(error, MemoryError::TooLong { words: 2001 });
    assert!(error.message().contains("exceeds 2000 words"));
    assert_eq!(
        error.message(),
        "Memory exceeds 2000 words (currently 2001). Please condense the memory."
    );
    match write(Some("word ".repeat(2000).trim().to_string())) {
        Ok(MemoryPlan::Write { words, .. }) => {
            assert_eq!(words, MAX_WORDS);
            assert!(saved_message(words, "x").contains("2000 words"));
        }
        _ => panic!("expected a write"),
    }
    assert!(matches!(write(Some(String::new())), Ok(MemoryPlan::Write { words: 0, .. })));
}

#[test]
fn words_and_numbers() {
    assert_eq!(count_words(""), 0);
    assert_eq!(count_words("   "), 0);
    assert_eq!(count_words("one"), 1);
    assert_eq!(count_words("  one\ttwo\n\nthree \u{a0}four\u{3000}"), 4);
    assert_eq!(to_decimal(0), "0");
    assert_eq!(to_decimal(7), "7");
    assert_eq!(to_decimal(10), "10");
    assert_eq!(to_decimal(2001), "2001");
    assert_eq!(to_decimal(usize::MAX), usize::MAX.to_string());
    let parts: Vec<String> = vec!["a".to_string(), "".to_string(), "c".to_string()];
    assert_eq!(join(&parts, ", "), "a, , c");
    assert_eq!(join(&parts[..1].to_vec(), ", "), "a");
    assert_eq!(join(&Vec::new(), ", "), "");
}

#[test]
fn events_are_shown_with_their_attendees() {
    let attendee = |name: Option<&str>, email: &str| CalendarAttendee {
        email: email.to_string(),
        display_name: name.map(|n| n.to_string()),
    };
    assert_eq!(format_attendees(&None), "No attendees");
    assert_eq!(format_attendees(&Some(Vec::new())), "No attendees");
    let attendees = Some(vec![attendee(Some("Ann"), "ann@x.org"), attendee(None, "bob@x.org")]);
    assert_eq!(format_attendees(&attendees), "Attendees: Ann <ann@x.org>, No name <bob@x.org>");
    let event = CalendarResponse {
        id: "e1".to_string(),
        summary: "Standup".to_string(),
        start: "2026-01-31T09:00:00+00:00".to_string(),
        end: "2026-01-31T09:15:00+00:00".to_string(),
        attendees,
    };
    assert_eq!(
        format_event(&event),
        "## Standup\nStart: 2026-01-31T09:00:00+00:00\nEnd: 2026-01-31T09:15:00+00:00\nAttendees: Ann <ann@x.org>, No name <bob@x.org>\n"
    );
}

#[test]
fn prompts_have_names_and_templates() {
    assert_eq!(Prompt::NoteSummary.as_str(), "NoteSummary");
    assert_eq!(Prompt::UnreadEmails.as_str(), "UnreadEmails");
    assert!(Prompt::NoteSummary.template_text().contains("CONTEXT:\n{{context}}"));
    assert!(Prompt::UnreadEmails.template_text().contains("### Message {{inc @index}}"));
    assert_eq!(Prompt::inc(0), Some(1));
    assert_eq!(Prompt::inc(-1), Some(0));
    assert_eq!(Prompt::inc(i64::MAX), None);
}

#[test]
fn agenda_chat_is_stored_with_its_tags() {
    let chat = daily_agenda_chat("http://localhost", "key", "model", vec![], vec![]).unwrap();
    let transcript = chat.transcript().messages();
    assert_eq!(transcript.len(), 1);
    assert_eq!(transcript[0].role(), Role::System);
    let system = transcript[0].content().unwrap();
    assert!(system.starts_with("You are a daily agenda assistant. Create an easy-to-read digest"));
    assert!(system.contains("today.\n\nUse the available tools to gather:\n1. Tasks due today\n"));
    assert!(system.contains("- Adjust time to PST time\n\nFormat the output"));
    assert!(system.ends_with("Focus on what's most important for the user to know."));
    assert_eq!(system.lines().count(), 19);
    let stored = chat.persistence().unwrap();
    assert_eq!(stored.tags, vec!["background".to_string(), "agenda".to_string()]);
    assert_eq!(stored.session_id.len(), 36);
    assert_eq!(chat.tool_names().unwrap().len(), 0);
    assert!(!chat.is_streaming());

    let request = daily_agenda_request(&vec!["a@example.com".to_string(), "b@example.com".to_string()]);
    assert_eq!(request.role(), Role::User);
    assert_eq!(
        request.content().unwrap(),
        "Create my daily agenda. My calendar emails are a@example.comand b@example.com."
    );
}

#[test]
fn email_chat_names_the_accounts() {
    let emails = vec!["a@example.com".to_string(), "b@example.com".to_string()];
    let chat = email_chat(&emails, "http://localhost", "key", "model", vec![], vec![]).unwrap();
    let transcript = chat.transcript().messages();
    assert_eq!(transcript.len(), 1);
    assert_eq!(transcript[0].role(), Role::System);
    assert_eq!(
        transcript[0].content().unwrap(),
        "You are an email assistant AI. Summarize, search, and analyze emails on behalf of the user for the following users: a@example.com, b@example.com"
    );
    assert_eq!(chat.persistence().unwrap().tags, vec!["background".to_string()]);
    let request = email_chat_request();
    assert_eq!(request.role(), Role::User);
    assert_eq!(request.content().unwrap(), "Summarize my unread emails.");
}

fn pairs_of(request: &ToolRequest) -> Vec<(&str, &str)> {
    request.pairs.iter().map(|pair| (pair.name.as_str(), pair.value.as_str())).collect()
}

#[test]
fn tools_ask_their_services() {
    let due = TasksDueTodayTool::new("http://host").request("2025-01-31");
    assert_eq!(due.url, "http://host/notes/search");
    assert_eq!(
        pairs_of(&due),
        vec![
            ("query", "deadline:<=2025-01-31 -status:done -status:canceled"),
            ("include_similarity", "false"),
        ]
    );
    let scheduled = TasksScheduledTodayTool::new("http://host").request("2025-01-31");
    assert_eq!(scheduled.url, "http://host/notes/search");
    assert_eq!(
        pairs_of(&scheduled),
        vec![
            ("query", "scheduled:<=2025-01-31 -status:done -status:canceled"),
            ("include_similarity", "false"),
        ]
    );
    let meetings = MeetingSearchTool::new("http://host")
        .request(&MeetingSearchArgs { query: "road map".to_string() });
    assert_eq!(meetings.url, "http://host/api/notes/search");
    assert_eq!(pairs_of(&meetings), vec![("query", "tags:meeting road map")]);
    let unread = EmailUnreadTool::new("http://host")
        .request(&EmailUnreadArgs { email: "a@example.com".to_string() });
    assert_eq!(unread.url, "http://host/email/unread");
    assert_eq!(pairs_of(&unread), vec![("email", "a@example.com")]);
}

#[test]
fn calendar_is_asked_for_what_the_arguments_name() {
    let tool = CalendarTool::new("http://host");
    let bare = tool.request(&CalendarArgs { days_ahead: None, calendar_id: None }, "a@example.com");
    assert_eq!(bare.url, "http://host/api/calendar");
    assert_eq!(pairs_of(&bare), vec![("email", "a@example.com")]);
    let full = tool.request(
        &CalendarArgs { days_ahead: Some(-3), calendar_id: Some("work".to_string()) },
        "a@example.com",
    );
    assert_eq!(
        pairs_of(&full),
        vec![("email", "a@example.com"), ("days_ahead", "-3"), ("calendar_id", "work")]
    );
    let days = tool.request(&CalendarArgs { days_ahead: Some(14), calendar_id: None }, "b");
    assert_eq!(pairs_of(&days), vec![("email", "b"), ("days_ahead", "14")]);
    let calendar =
        tool.request(&CalendarArgs { days_ahead: None, calendar_id: Some("c".to_string()) }, "b");
    assert_eq!(pairs_of(&calendar), vec![("email", "b"), ("calendar_id", "c")]);
}

#[test]
fn whole_numbers_are_written_in_decimal() {
    for n in [0i64, 7, 10, -1, -10, 123456789, i64::MAX, i64::MIN, i64::MIN + 1] {
        assert_eq!(signed_decimal(n), n.to_string());
    }
    for n in [0u64, 9, 10, 99, 100, u64::MAX] {
        assert_eq!(unsigned_decimal(n), n.to_string());
    }
}

#[test]
fn command_line_chat_has_its_defaults() {
    let bare = chat_settings(None, None, None, None);
    assert_eq!(bare.api_base_url, "http://localhost:2222");
    assert_eq!(bare.api_hostname, "https://api.openai.com");
    assert_eq!(bare.api_key, "thiswontworkforopenai");
    assert_eq!(bare.model, "gpt-4.1-mini");
    let set = chat_settings(Some("http://notes"), Some("http://llm"), Some("key"), Some("m"));
    assert_eq!(set.api_base_url, "http://notes");
    assert_eq!(set.api_hostname, "http://llm");
    assert_eq!(set.api_key, "key");
    assert_eq!(set.model, "m");
    let chat = chat_session(&set, vec!["t".to_string()], vec![Json::Null]).unwrap();
    assert_eq!(chat.api_hostname(), "http://llm");
    assert_eq!(chat.api_key(), "key");
    assert_eq!(chat.model(), "m");
    assert!(chat.persistence().is_none());
    assert!(!chat.is_streaming());
    assert_eq!(chat.tool_names().unwrap(), &vec!["t".to_string()]);
    let transcript = chat.transcript().messages();
    assert_eq!(transcript.len(), 1);
    assert_eq!(transcript[0].role(), Role::System);
    assert_eq!(transcript[0].content().unwrap(), "You are a helpful assistant.");
}

#[test]
fn requests_are_asked_at_encoded_addresses() {
    let due = TasksDueTodayTool::new("http://localhost:2222").request("2025-01-31");
    assert_eq!(
        due.address().unwrap(),
        "http://localhost:2222/notes/search?query=deadline%3A%3C%3D2025-01-31+-status%3Adone+-status%3Acanceled&include_similarity=false"
    );
    let meetings = MeetingSearchTool::new("http://host/base")
        .request(&MeetingSearchArgs { query: "caf\u{e9} & co".to_string() });
    assert_eq!(
        meetings.address().unwrap(),
        "http://host/base/api/notes/search?query=tags%3Ameeting+caf%C3%A9+%26+co"
    );
    let calendar = CalendarTool::new("http://host").request(
        &CalendarArgs { days_ahead: Some(3), calendar_id: Some("a b".to_string()) },
        "x@example.com",
    );
    assert_eq!(
        calendar.address().unwrap(),
        "http://host/api/calendar?email=x%40example.com&days_ahead=3&calendar_id=a+b"
    );
    // an address that is none has no encoded form
    assert_eq!(EmailUnreadTool::new("not an address")
        .request(&EmailUnreadArgs { email: "a".to_string() })
        .address(), None);
    // without a query the address stands as it is
    assert_eq!(ToolRequest::new("http://host".to_string()).address().unwrap(), "http://host");
    // the same as encoding all pairs at once
    let mut url = reqwest::Url::parse("http://host/api/calendar").unwrap();
    url.query_pairs_mut()
        .append_pair("email", "x@example.com")
        .append_pair("days_ahead", "3")
        .append_pair("calendar_id", "a b");
    assert_eq!(calendar.address().unwrap(), url.as_str());
}

#[test]
fn days_are_written_as_the_clock_gives_them() {
    assert_eq!(day_text(0, DayForm::Dashes).unwrap(), "1970-01-01");
    assert_eq!(day_text(86399, DayForm::Slashes).unwrap(), "1970/01/01");
    assert_eq!(day_text(86400, DayForm::Dashes).unwrap(), "1970-01-02");
    assert_eq!(day_text(-1, DayForm::Dashes).unwrap(), "1969-12-31");
    assert_eq!(day_text(1738281600, DayForm::Slashes).unwrap(), "2025/01/31");
    assert_eq!(day_text(i64::MAX, DayForm::Dashes), None);
    assert_eq!(days_before(1738281600, 7), Some(1738281600 - 7 * 86400));
    assert_eq!(days_before(0, -1), Some(86400));
    assert_eq!(days_before(0, i64::MAX), None);
    assert_eq!(days_before(i64::MIN, 1), None);
    assert_eq!(days_before(i64::MAX, 200_000_000_000_000), Some(-8056627963145224193));
    assert_eq!(day_before_text(1738281600, 7, DayForm::Slashes).unwrap(), "2025/01/24");
    assert_eq!(day_before_text(1738281600, 31, DayForm::Dashes).unwrap(), "2024-12-31");
    assert_eq!(day_before_text(0, i64::MIN, DayForm::Dashes), None);
    let chrono_day = (chrono::DateTime::from_timestamp(1738281600, 0).unwrap()
        - chrono::Duration::days(40))
    .format("%Y/%m/%d")
    .to_string();
    assert_eq!(day_before_text(1738281600, 40, DayForm::Slashes).unwrap(), chrono_day);

    let due = TasksDueTodayTool::new("http://host").request_at(1738281600).unwrap();
    assert_eq!(due.pairs[0].value, "deadline:<=2025-01-31 -status:done -status:canceled");
    let scheduled = TasksScheduledTodayTool::new("http://host").request_at(1738281600).unwrap();
    assert_eq!(scheduled.pairs[0].value, "scheduled:<=2025-01-31 -status:done -status:canceled");
    assert!(TasksDueTodayTool::new("http://host").request_at(i64::MIN).is_none());
}
