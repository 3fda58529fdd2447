use indexer::ai::chat::session::{normalize_tag, normalize_tags};
use indexer::ai::chat::{Action, Chat, ChatBuilder, Transcript, TurnState};
use indexer::json::Json;
use indexer::openai::chat::{
    find_tool, handle_tool_call, handle_tool_calls, names_are_unique, plan_tool_calls,
    tool_batch_messages, tool_call_messages, ChatError, PlannedCall, ToolCallRequest,
};
use indexer::openai::stream::{StreamDecoder, StreamError};
use indexer::openai::{BoxedToolCall, Message, Role, ToolCall};

struct MockTool;

impl ToolCall for MockTool {
    fn call(&self, _args: &str) -> Result<String, String> {
        Ok("mock result".to_string())
    }

    fn function_name(&self) -> String {
        "mock_tool".to_string()
    }

    fn definition(&self) -> Json {
        Json::parse(r#"{"type":"function","function":{"name":"mock_tool"}}"#).unwrap()
    }
}

struct Echo(&'static str);

impl ToolCall for Echo {
    fn call(&self, args: &str) -> Result<String, String> {
        Ok(format!("{}({})", self.0, args))
    }

    fn function_name(&self) -> String {
        self.0.to_string()
    }

    fn definition(&self) -> Json {
        Json::Null
    }
}

struct Broken;

impl ToolCall for Broken {
    fn call(&self, _args: &str) -> Result<String, String> {
        Err("out of order".to_string())
    }

    fn function_name(&self) -> String {
        "broken".to_string()
    }

    fn definition(&self) -> Json {
        Json::Null
    }
}

fn parse(text: &str) -> Json {
    Json::parse(text).expect("a JSON document")
}

fn content_response(text: &str) -> Json {
    parse(&format!(
        r#"{{"id":"chatcmpl-123","object":"chat.completion","created":1694268190,"model":"gpt-4","choices":[{{"index":0,"message":{{"role":"assistant","content":{}}},"finish_reason":"stop"}}]}}"#,
        Json::string(text).render()
    ))
}

fn tool_call(id: &str, name: &str, arguments: &str) -> String {
    format!(
        r#"{{"id":"{}","type":"function","function":{{"name":"{}","arguments":{}}}}}"#,
        id,
        name,
        Json::string(arguments).render()
    )
}

fn tool_call_response(calls: &[String]) -> Json {
    parse(&format!(
        r#"{{"choices":[{{"index":0,"message":{{"role":"assistant","tool_calls":[{}]}},"finish_reason":"tool_calls"}}]}}"#,
        calls.join(",")
    ))
}

fn rendered(messages: &[Message]) -> Vec<String> {
    messages.iter().map(|m| m.to_json().render()).collect()
}

fn transcript_of(chat: &Chat) -> Vec<String> {
    rendered(&chat.transcript().messages())
}

#[test]
fn test_builder_new() {
    let builder = ChatBuilder::new("https://api.example.com", "test-key", "gpt-4");

    assert_eq!(builder.api_hostname(), "https://api.example.com");
    assert_eq!(builder.api_key(), "test-key");
    assert_eq!(builder.model(), "gpt-4");
    assert!(builder.persistence().is_none());
    assert!(builder.tool_names().is_none());
    assert!(!builder.is_streaming());
}

#[test]
fn test_builder_build() {
    let builder = ChatBuilder::new("https://api.example.com", "test-key", "gpt-4");
    let chat = builder.build();

    assert_eq!(chat.api_hostname(), "https://api.example.com");
    assert_eq!(chat.api_key(), "test-key");
    assert_eq!(chat.model(), "gpt-4");
    assert!(chat.persistence().is_none());
    assert_eq!(chat.session_id(), None);
    assert!(chat.tool_names().is_none());
    assert!(!chat.is_streaming());
}

#[test]
fn test_builder_transcript() {
    let messages = vec![Message::new(Role::User, "Hello")];

    let builder =
        ChatBuilder::new("https://api.example.com", "test-key", "gpt-4").transcript(messages);

    assert_eq!(builder.messages().messages().len(), 1);
}

#[test]
fn test_builder_streaming() {
    let builder = ChatBuilder::new("https://api.example.com", "test-key", "gpt-4").streaming();

    assert!(builder.is_streaming());

    let chat = builder.build();
    assert!(chat.is_streaming());
}

#[test]
fn test_builder_tools() {
    let tools = vec![Box::new(MockTool) as BoxedToolCall];
    let builder =
        ChatBuilder::new("https://api.example.com", "test-key", "gpt-4").tools(&tools).unwrap();

    assert!(builder.tool_names().is_some());
    assert_eq!(builder.tool_names().unwrap().len(), 1);
}

#[test]
fn test_builder_chaining() {
    let messages = vec![Message::new(Role::User, "Hello")];
    let tools = vec![Box::new(MockTool) as BoxedToolCall];

    let chat = ChatBuilder::new("https://api.example.com", "test-key", "gpt-4")
        .transcript(messages)
        .streaming()
        .tools(&tools)
        .unwrap()
        .build();

    assert_eq!(chat.api_hostname(), "https://api.example.com");
    assert_eq!(chat.api_key(), "test-key");
    assert_eq!(chat.model(), "gpt-4");
    assert_eq!(chat.session_id(), None);
    assert_eq!(chat.transcript().messages().len(), 1);
    assert!(chat.is_streaming());
    assert!(chat.tool_names().is_some());
}

#[test]
fn test_builder_default_empty_transcript() {
    let builder = ChatBuilder::new("https://api.example.com", "test-key", "gpt-4");
    assert_eq!(builder.messages().messages().len(), 0);

    let chat = builder.build();
    assert_eq!(chat.transcript().messages().len(), 0);
}

#[test]
fn test_builder_default_streaming_disabled() {
    let builder = ChatBuilder::new("https://api.example.com", "test-key", "gpt-4");
    assert!(!builder.is_streaming());

    let chat = builder.build();
    assert!(!chat.is_streaming());
}

#[test]
fn test_builder_database() {
    let builder =
        ChatBuilder::new("https://api.example.com", "test-key", "gpt-4").database(None, None);

    // the session id and the tags are always set together
    let persistence = builder.persistence().expect("a stored session");
    assert_eq!(persistence.session_id.len(), 36);
    assert!(persistence.tags.is_empty());

    let chat = builder.build();
    assert!(chat.persistence().is_some());
    assert!(chat.session_id().is_some());
}

#[test]
fn test_builder_database_with_existing_session_id() {
    let builder = ChatBuilder::new("https://api.example.com", "test-key", "gpt-4")
        .database(Some("existing-session-id"), None);

    assert_eq!(builder.persistence().unwrap().session_id, "existing-session-id");

    let chat = builder.build();
    assert_eq!(chat.session_id(), Some(&"existing-session-id".to_string()));
}

#[test]
fn new_session_ids_differ() {
    let id = |builder: ChatBuilder| builder.persistence().unwrap().session_id.clone();
    let first = id(ChatBuilder::new("h", "k", "m").database(None, Some(vec!["a".to_string()])));
    let second = id(ChatBuilder::new("h", "k", "m").database(None, None));
    assert_ne!(first, second);
    assert_eq!(first.matches('-').count(), 4);
}

#[test]
fn test_chat_basic_response() {
    let mut chat = ChatBuilder::new("http://localhost", "test-key", "gpt-4").build();

    let msg = Message::new(Role::User, "Hi");
    let action = chat.next_msg(msg).unwrap();
    assert!(matches!(&action, Action::Complete { messages, stream: false } if messages.len() == 1));
    let result = chat.on_completion(&content_response("Hello! How can I help you today?"));

    let messages = match result {
        Ok(Action::Finish { messages }) => messages,
        _ => panic!("expected the turn to finish"),
    };
    // Should return the assistant's response
    assert_eq!(messages.len(), 1);
    let content = messages[0].content().expect("Should have content");
    assert_eq!(content, "Hello! How can I help you today?");
}

#[test]
fn tool_free_turn_answers_with_one_message() {
    let mut chat = ChatBuilder::new("http://localhost", "test-key", "gpt-4")
        .transcript(vec![Message::new(Role::System, "You are helpful")])
        .build();
    let action = chat.next_msg(Message::new(Role::User, "Hi")).unwrap();
    match action {
        Action::Complete { messages, stream } => {
            assert!(!stream);
            assert_eq!(
                rendered(&messages),
                vec![
                    r#"{"role":"system","content":"You are helpful"}"#,
                    r#"{"role":"user","content":"Hi"}"#
                ]
            );
        }
        _ => panic!("expected a completion request"),
    }
    assert_eq!(chat.state(), TurnState::ModelRequested);
    // the transcript is not touched while the turn is under way
    assert_eq!(chat.transcript().len(), 1);
    match chat.on_completion(&content_response("Hello!")).unwrap() {
        Action::Finish { messages } => {
            assert_eq!(rendered(&messages), vec![r#"{"role":"assistant","content":"Hello!"}"#]);
        }
        _ => panic!("expected the turn to finish"),
    }
    assert_eq!(chat.state(), TurnState::AwaitingUserInput);
    assert_eq!(
        transcript_of(&chat),
        vec![
            r#"{"role":"system","content":"You are helpful"}"#,
            r#"{"role":"user","content":"Hi"}"#,
            r#"{"role":"assistant","content":"Hello!"}"#
        ]
    );
}

#[test]
fn stored_session_stores_the_user_message_and_the_answer() {
    let mut chat = ChatBuilder::new("http://localhost", "test-key", "gpt-4")
        .transcript(vec![Message::new(Role::System, "You are helpful")])
        .database(Some("session-1"), Some(vec!["background".to_string(), "agenda".to_string()]))
        .build();
    chat.next_msg(Message::new(Role::User, "Hi")).unwrap();
    match chat.on_completion(&content_response("Hello!")).unwrap() {
        Action::Persist { session_id, tags, messages } => {
            assert_eq!(session_id, "session-1");
            assert_eq!(tags, vec!["background", "agenda"]);
            // exactly two new rows: the user message, then the answer
            assert_eq!(
                rendered(&messages),
                vec![
                    r#"{"role":"user","content":"Hi"}"#,
                    r#"{"role":"assistant","content":"Hello!"}"#
                ]
            );
        }
        _ => panic!("expected the messages to be stored"),
    }
    assert_eq!(chat.state(), TurnState::Persisting);
    assert_eq!(chat.transcript().len(), 1);
    match chat.on_persisted().unwrap() {
        Action::Finish { messages } => {
            assert_eq!(rendered(&messages), vec![r#"{"role":"assistant","content":"Hello!"}"#]);
        }
        _ => panic!("expected the turn to finish"),
    }
    assert_eq!(chat.transcript().len(), 3);
    assert_eq!(chat.state(), TurnState::AwaitingUserInput);
}

#[test]
fn test_chat_with_tool_calls() {
    let tools = vec![Box::new(MockTool) as BoxedToolCall];
    let mut chat = ChatBuilder::new("http://localhost", "test-key", "gpt-4").tools(&tools).unwrap().build();

    chat.next_msg(Message::new(Role::User, "Search for test")).unwrap();
    let first = tool_call_response(&[tool_call("call_abc123", "mock_tool", r#"{"query":"test"}"#)]);
    let calls = match chat.on_completion(&first).unwrap() {
        Action::Invoke { calls } => calls,
        _ => panic!("expected tool calls"),
    };
    assert_eq!(chat.state(), TurnState::ToolsExecuting);
    assert_eq!(calls.len(), 1);
    assert_eq!(calls[0].tool, 0);
    assert_eq!(calls[0].request.arguments, r#"{"query":"test"}"#);
    let results: Vec<Result<String, String>> =
        calls.iter().map(|c| tools[c.tool].call(&c.request.arguments)).collect();
    match chat.on_tool_results(&results).unwrap() {
        Action::Complete { messages, .. } => assert_eq!(messages.len(), 3),
        _ => panic!("expected a completion request"),
    }
    let messages = match chat.on_completion(&content_response("Found it")).unwrap() {
        Action::Finish { messages } => messages,
        _ => panic!("expected the turn to finish"),
    };
    // Should return 3 messages:
    // 1. Tool call request
    // 2. Tool call response
    // 3. Assistant's final content
    assert_eq!(messages.len(), 3);
    assert_eq!(
        rendered(&messages),
        vec![
            r#"{"role":"assistant","tool_calls":[{"function":{"arguments":"{\"query\":\"test\"}","name":"mock_tool"},"id":"call_abc123","type":"function"}]}"#,
            r#"{"role":"tool","content":"mock result","tool_call_id":"call_abc123"}"#,
            r#"{"role":"assistant","content":"Found it"}"#
        ]
    );
    assert_eq!(chat.transcript().len(), 4);
}

#[test]
fn model_may_ask_for_tools_more_than_once() {
    let tools: Vec<BoxedToolCall> = vec![Box::new(Echo("a")), Box::new(Echo("b"))];
    let mut chat = ChatBuilder::new("h", "k", "m").streaming().tools(&tools).unwrap().build();
    chat.next_msg(Message::new(Role::User, "go")).unwrap();
    let mut rounds = 0;
    let mut action = chat
        .on_completion(&tool_call_response(&[tool_call("1", "b", "x"), tool_call("2", "a", "y")]))
        .unwrap();
    loop {
        match action {
            Action::Invoke { calls } => {
                let results: Vec<Result<String, String>> =
                    calls.iter().map(|c| tools[c.tool].call(&c.request.arguments)).collect();
                action = chat.on_tool_results(&results).unwrap();
            }
            Action::Complete { messages, stream } => {
                assert!(stream);
                rounds += 1;
                assert_eq!(messages.len(), 1 + 4 * rounds.min(2) - if rounds == 2 { 2 } else { 0 });
                action = if rounds == 1 {
                    chat.on_completion(&tool_call_response(&[tool_call("3", "a", "z")])).unwrap()
                } else {
                    chat.on_completion(&content_response("done")).unwrap()
                };
            }
            Action::Finish { messages } => {
                let contents: Vec<Option<&str>> =
                    messages.iter().map(|m| m.content().map(|c| c.as_str())).collect();
                assert_eq!(
                    contents,
                    vec![None, Some("b(x)"), None, Some("a(y)"), None, Some("a(z)"), Some("done")]
                );
                break;
            }
            Action::Persist { .. } => panic!("the session is not stored"),
        }
    }
    assert_eq!(chat.transcript().len(), 8);
}

#[test]
fn failed_turn_leaves_the_transcript_as_it_was() {
    let tools: Vec<BoxedToolCall> = vec![Box::new(Broken), Box::new(MockTool)];
    let start = vec![Message::new(Role::System, "s"), Message::new(Role::User, "earlier")];
    let before = rendered(&start);
    let mut chat = ChatBuilder::new("h", "k", "m").transcript(start).tools(&tools).unwrap().build();

    // neither content nor tool calls
    chat.next_msg(Message::new(Role::User, "one")).unwrap();
    let result = chat.on_completion(&parse(r#"{"choices":[{"message":{"role":"assistant"}}]}"#));
    assert!(matches!(result, Err(ChatError::NoFinalMessage)));
    assert_eq!(chat.state(), TurnState::AwaitingUserInput);
    assert_eq!(transcript_of(&chat), before);

    // a capability that is not registered
    chat.next_msg(Message::new(Role::User, "two")).unwrap();
    let response = tool_call_response(&[tool_call("1", "mock_tool", "{}"), tool_call("2", "nope", "{}")]);
    let result = chat.on_completion(&response);
    assert!(matches!(result, Err(ChatError::UnknownTool { name }) if name == "nope"));
    assert_eq!(transcript_of(&chat), before);

    // a capability that fails, after another one has answered
    chat.next_msg(Message::new(Role::User, "three")).unwrap();
    let response = tool_call_response(&[tool_call("1", "mock_tool", "{}"), tool_call("2", "broken", "{}")]);
    let calls = match chat.on_completion(&response).unwrap() {
        Action::Invoke { calls } => calls,
        _ => panic!("expected tool calls"),
    };
    let results: Vec<Result<String, String>> =
        calls.iter().map(|c| tools[c.tool].call(&c.request.arguments)).collect();
    let result = chat.on_tool_results(&results);
    assert!(matches!(result, Err(ChatError::ToolFailed { detail }) if detail == "out of order"));
    assert_eq!(chat.state(), TurnState::AwaitingUserInput);
    assert_eq!(transcript_of(&chat), before);

    // the exchange with the service fails
    chat.next_msg(Message::new(Role::User, "four")).unwrap();
    chat.abort();
    assert_eq!(chat.state(), TurnState::AwaitingUserInput);
    assert_eq!(transcript_of(&chat), before);

    // and the session still works
    chat.next_msg(Message::new(Role::User, "five")).unwrap();
    chat.on_completion(&content_response("fine")).unwrap();
    assert_eq!(chat.transcript().len(), 4);
}

#[test]
fn failures_of_the_exchange_fail_the_turn() {
    let start = vec![Message::new(Role::System, "s")];
    let before = rendered(&start);
    let mut chat = ChatBuilder::new("h", "k", "m").transcript(start).build();

    chat.next_msg(Message::new(Role::User, "one")).unwrap();
    let result = chat.on_transport_failure("connection refused");
    assert!(matches!(result, Err(ChatError::Transport { detail }) if detail == "connection refused"));
    assert_eq!(chat.state(), TurnState::AwaitingUserInput);
    assert_eq!(transcript_of(&chat), before);
    // no turn is under way any more
    assert!(matches!(chat.on_transport_failure("again"), Err(ChatError::UnexpectedEvent)));

    chat.next_msg(Message::new(Role::User, "two")).unwrap();
    let result = chat.on_completion_text("<html>Bad Gateway</html>");
    assert!(matches!(result, Err(ChatError::MalformedResponse)));
    assert_eq!(transcript_of(&chat), before);

    chat.next_msg(Message::new(Role::User, "three")).unwrap();
    let mut decoder = StreamDecoder::new();
    decoder.feed("data: {\"id\":1}\n\n");
    let result = chat.on_stream(&decoder);
    assert!(matches!(result, Err(ChatError::Stream { error: StreamError::Malformed })));
    assert_eq!(transcript_of(&chat), before);

    chat.next_msg(Message::new(Role::User, "four")).unwrap();
    let text = content_response("from text").render();
    assert!(matches!(chat.on_completion_text(&text), Ok(Action::Finish { .. })));
    assert_eq!(chat.transcript().len(), 3);
}

#[test]
fn streamed_turn_takes_what_the_stream_added_up_to() {
    let tools = vec![Box::new(MockTool) as BoxedToolCall];
    let mut chat = ChatBuilder::new("h", "k", "m").streaming().tools(&tools).unwrap().build();
    let action = chat.next_msg(Message::new(Role::User, "Search for test")).unwrap();
    assert!(matches!(action, Action::Complete { stream: true, .. }));
    let chunk = |delta: &str, finish: &str| {
        format!(
            "data: {{\"id\":\"c\",\"created\":1,\"model\":\"m\",\"system_fingerprint\":\"f\",\"choices\":[{{\"index\":0,\"delta\":{},\"finish_reason\":{}}}]}}\n\n",
            delta, finish
        )
    };
    let mut decoder = StreamDecoder::new();
    decoder.feed(&chunk(
        r#"{"tool_calls":[{"id":"call_abc123","index":0,"function":{"name":"mock_tool","arguments":"{\"query\":"},"type":"function"}]}"#,
        "null",
    ));
    decoder.feed(&chunk(r#"{"tool_calls":[{"index":0,"function":{"arguments":"\"test\"}"}}]}"#, "null"));
    decoder.feed(&chunk(r#"{"tool_calls":[{"index":0,"function":{"arguments":""}}]}"#, "\"stop\""));
    let calls = match chat.on_stream(&decoder).unwrap() {
        Action::Invoke { calls } => calls,
        _ => panic!("expected tool calls"),
    };
    assert_eq!(calls[0].request.id, "call_abc123");
    assert_eq!(calls[0].request.arguments, r#"{"query":"test"}"#);
    chat.on_tool_results(&vec![Ok("mock result".to_string())]).unwrap();
    let mut decoder = StreamDecoder::new();
    decoder.feed(&chunk(r#"{"content":"Found results!"}"#, "null"));
    decoder.feed("data: [DONE]\n\n");
    let messages = match chat.on_stream(&decoder).unwrap() {
        Action::Finish { messages } => messages,
        _ => panic!("expected the turn to finish"),
    };
    assert_eq!(messages.len(), 3);
    assert_eq!(messages[2].content().unwrap(), "Found results!");
}

#[test]
fn one_tool_call_leaves_two_messages() {
    let tools: Vec<BoxedToolCall> = vec![Box::new(Echo("one")), Box::new(Broken)];
    let messages = handle_tool_call(&tools, &parse(&tool_call("id", "one", "args"))).unwrap();
    assert_eq!(
        rendered(&messages),
        vec![
            r#"{"role":"assistant","tool_calls":[{"function":{"arguments":"args","name":"one"},"id":"id","type":"function"}]}"#,
            r#"{"role":"tool","content":"one(args)","tool_call_id":"id"}"#
        ]
    );
    assert!(matches!(
        handle_tool_call(&tools, &parse(&tool_call("id", "two", "args"))),
        Err(ChatError::UnknownTool { name }) if name == "two"
    ));
    assert!(matches!(
        handle_tool_call(&tools, &parse(&tool_call("id", "broken", "args"))),
        Err(ChatError::ToolFailed { .. })
    ));
    assert!(matches!(
        handle_tool_call(&tools, &parse(r#"{"function":{}}"#)),
        Err(ChatError::MissingToolCallId)
    ));
}

#[test]
fn tool_calls_without_capabilities_fail_the_turn() {
    let mut chat = ChatBuilder::new("h", "k", "m").build();
    chat.next_msg(Message::new(Role::User, "hi")).unwrap();
    let result = chat.on_completion(&tool_call_response(&[tool_call("1", "mock_tool", "{}")]));
    assert!(matches!(result, Err(ChatError::NoTools)));
    assert_eq!(chat.transcript().len(), 0);
}

#[test]
fn events_out_of_turn_are_refused() {
    let tools = vec![Box::new(MockTool) as BoxedToolCall];
    let mut chat = ChatBuilder::new("h", "k", "m").tools(&tools).unwrap().build();
    assert!(matches!(chat.on_completion(&content_response("x")), Err(ChatError::UnexpectedEvent)));
    assert!(matches!(chat.on_tool_results(&Vec::new()), Err(ChatError::UnexpectedEvent)));
    assert!(matches!(chat.on_persisted(), Err(ChatError::UnexpectedEvent)));
    chat.next_msg(Message::new(Role::User, "hi")).unwrap();
    assert!(matches!(chat.next_msg(Message::new(Role::User, "again")), Err(ChatError::UnexpectedEvent)));
    assert_eq!(chat.state(), TurnState::ModelRequested);
    // a report for each call is owed
    chat.on_completion(&tool_call_response(&[tool_call("1", "mock_tool", "{}")])).unwrap();
    assert!(matches!(chat.on_tool_results(&Vec::new()), Err(ChatError::UnexpectedEvent)));
    assert_eq!(chat.state(), TurnState::AwaitingUserInput);
}

#[test]
fn malformed_tool_calls_are_named() {
    let request = |text: &str| ToolCallRequest::from_json(&parse(text));
    assert!(matches!(
        request(r#"{"function":{"name":"n","arguments":"a"}}"#),
        Err(ChatError::MissingToolCallId)
    ));
    assert!(matches!(
        request(r#"{"id":7,"function":{"name":"n","arguments":"a"}}"#),
        Err(ChatError::MissingToolCallId)
    ));
    assert!(matches!(
        request(r#"{"id":"i","function":{"name":"n"}}"#),
        Err(ChatError::MissingToolCallArguments)
    ));
    assert!(matches!(
        request(r#"{"id":"i","function":{"arguments":"a"}}"#),
        Err(ChatError::MissingToolCallName)
    ));
    assert!(matches!(request(r#"{"id":"i"}"#), Err(ChatError::MissingToolCallArguments)));
    assert!(matches!(request(r#"{}"#), Err(ChatError::MissingToolCallId)));
    let ok = request(r#"{"id":"i","function":{"name":"n","arguments":"a"}}"#).unwrap();
    assert_eq!((ok.id.as_str(), ok.name.as_str(), ok.arguments.as_str()), ("i", "n", "a"));
}

#[test]
fn dispatch_gives_two_messages_for_each_call_in_order() {
    let tools: Vec<BoxedToolCall> = vec![Box::new(Echo("one")), Box::new(Echo("two"))];
    let calls: Vec<Json> = ["two", "one", "two", "two"]
        .iter()
        .enumerate()
        .map(|(i, name)| parse(&tool_call(&format!("id{}", i), name, &format!("arg{}", i))))
        .collect();
    let messages = handle_tool_calls(&tools, &calls).unwrap();
    assert_eq!(messages.len(), 8);
    for (i, name) in ["two", "one", "two", "two"].iter().enumerate() {
        let echo = &messages[2 * i];
        assert_eq!(echo.role(), Role::Assistant);
        let requested = &echo.tool_calls().unwrap()[0];
        assert_eq!(requested.id, format!("id{}", i));
        assert_eq!(requested.function.name, *name);
        assert_eq!(requested.function.arguments, format!("arg{}", i));
        assert_eq!(requested.kind, "function");
        let answer = &messages[2 * i + 1];
        assert_eq!(answer.role(), Role::Tool);
        assert_eq!(answer.content().unwrap(), &format!("{}(arg{})", name, i));
        assert_eq!(answer.tool_call_id().unwrap(), &format!("id{}", i));
    }
    assert!(handle_tool_calls(&tools, &Vec::new()).unwrap().is_empty());
}

#[test]
fn dispatch_of_an_unregistered_capability_gives_nothing() {
    let tools: Vec<BoxedToolCall> = vec![Box::new(Echo("one"))];
    let calls = vec![parse(&tool_call("a", "one", "{}")), parse(&tool_call("b", "missing", "{}"))];
    let result = handle_tool_calls(&tools, &calls);
    assert!(matches!(result, Err(ChatError::UnknownTool { name }) if name == "missing"));
    let calls = vec![parse(&tool_call("a", "one", "{}")), parse(r#"{"id":"b"}"#)];
    assert!(matches!(handle_tool_calls(&tools, &calls), Err(ChatError::MissingToolCallArguments)));
    let tools: Vec<BoxedToolCall> = vec![Box::new(Echo("one")), Box::new(Broken)];
    let calls = vec![parse(&tool_call("a", "one", "{}")), parse(&tool_call("b", "broken", "{}"))];
    assert!(matches!(
        handle_tool_calls(&tools, &calls),
        Err(ChatError::ToolFailed { detail }) if detail == "out of order"
    ));
}

#[test]
fn capabilities_are_found_by_their_exact_name() {
    let names: Vec<String> = ["search", "Search", "search ", "search"].iter().map(|s| s.to_string()).collect();
    assert_eq!(find_tool(&names, "search"), Some(0));
    assert_eq!(find_tool(&names, "Search"), Some(1));
    assert_eq!(find_tool(&names, "search "), Some(2));
    assert_eq!(find_tool(&names, "sear"), None);
    assert_eq!(find_tool(&Vec::new(), "search"), None);
    let planned = plan_tool_calls(&names, &vec![parse(&tool_call("x", "Search", "{}"))]).unwrap();
    assert_eq!(planned[0].tool, 1);
}

#[test]
fn batch_messages_follow_the_calls() {
    let planned = |id: &str| PlannedCall {
        request: ToolCallRequest {
            id: id.to_string(),
            name: "n".to_string(),
            arguments: "{}".to_string(),
        },
        tool: 0,
    };
    let calls = vec![planned("first"), planned("second")];
    let results = vec!["r1".to_string(), "r2".to_string()];
    let messages = tool_batch_messages(&calls, &results);
    assert_eq!(
        rendered(&messages),
        vec![
            r#"{"role":"assistant","tool_calls":[{"function":{"arguments":"{}","name":"n"},"id":"first","type":"function"}]}"#,
            r#"{"role":"tool","content":"r1","tool_call_id":"first"}"#,
            r#"{"role":"assistant","tool_calls":[{"function":{"arguments":"{}","name":"n"},"id":"second","type":"function"}]}"#,
            r#"{"role":"tool","content":"r2","tool_call_id":"second"}"#
        ]
    );
    let (echo, answer) = tool_call_messages(&calls[0].request, "text");
    assert!(echo.content().is_none());
    assert_eq!(answer.content().unwrap(), "text");
    // a call without a result leaves no message
    assert_eq!(tool_batch_messages(&calls, &results[..1].to_vec()).len(), 2);
    assert!(tool_batch_messages(&calls, &Vec::new()).is_empty());
}

#[test]
fn transcript_only_grows() {
    let mut transcript = Transcript::new();
    assert_eq!(transcript.len(), 0);
    assert!(transcript.messages().is_empty());
    transcript.push(Message::new(Role::User, "one"));
    transcript.push(Message::new(Role::Assistant, "two"));
    assert_eq!(transcript.len(), 2);
    let contents: Vec<&str> = transcript.iter().map(|m| m.content().unwrap().as_str()).collect();
    assert_eq!(contents, vec!["one", "two"]);
    let copy = transcript.messages();
    transcript.push(Message::new(Role::User, "three"));
    assert_eq!(copy.len(), 2);
    let seeded = Transcript::new_with_messages(copy);
    assert_eq!(seeded.len(), 2);
    assert_eq!(Transcript::default().len(), 0);
}

#[test]
fn test_chat_stream_basic() {
    let sse_response = r#"data: {"id":"chunk1","created":1234567890,"model":"gpt-4","system_fingerprint":"fp1","choices":[{"index":0,"delta":{"content":"Hello"},"finish_reason":null}]}

data: {"id":"chunk2","created":1234567890,"model":"gpt-4","system_fingerprint":"fp1","choices":[{"index":0,"delta":{"content":" World"},"finish_reason":null}]}

data: {"id":"chunk3","created":1234567890,"model":"gpt-4","system_fingerprint":"fp1","choices":[{"index":0,"delta":{"content":"!"},"finish_reason":"stop"}]}

data: [DONE]

"#;
    // No tools provided - streaming should work without tools when no tool calls needed
    let mut chat = ChatBuilder::new("http://localhost", "test-key", "gpt-4").streaming().build();

    let msg = Message::new(Role::User, "Say hello");
    chat.next_msg(msg).unwrap();
    let mut decoder = StreamDecoder::new();
    let report = decoder.feed_bytes(sse_response.as_bytes());
    let result = chat.on_stream(&decoder);

    assert!(result.is_ok());
    let messages = match result.unwrap() {
        Action::Finish { messages } => messages,
        _ => panic!("expected the turn to finish"),
    };

    // Should return the assistant's response (assembled from streamed chunks)
    // Note: The last chunk with finish_reason="stop" doesn't add content,
    // so only "Hello World" (not the "!") is assembled
    assert_eq!(messages.len(), 1);
    let content = messages[0].content().expect("Should have content");
    assert_eq!(content, "Hello World");

    // Verify the raw chunks were also handed on for the streaming channel
    let chunk_count = report.forwarded.len();
    assert!(chunk_count >= 3, "Expected at least 3 chunks, got {}", chunk_count);
}

#[test]
fn test_chat_stream_with_tool_calls() {
    // First response: streaming tool call chunks
    let sse_tool_call = r#"data: {"id":"chunk1","created":1234567890,"model":"gpt-4","system_fingerprint":"fp1","choices":[{"index":0,"delta":{"tool_calls":[{"id":"call_abc123","index":0,"function":{"name":"mock_tool","arguments":"{\"query\":"},"type":"function"}]},"finish_reason":null}]}

data: {"id":"chunk2","created":1234567890,"model":"gpt-4","system_fingerprint":"fp1","choices":[{"index":0,"delta":{"tool_calls":[{"index":0,"function":{"arguments":"test\"}"}}]},"finish_reason":null}]}

data: {"id":"chunk3","created":1234567890,"model":"gpt-4","system_fingerprint":"fp1","choices":[{"index":0,"delta":{"tool_calls":[{"index":0,"function":{"arguments":""}}]},"finish_reason":"stop"}]}

data: [DONE]

"#;

    // Second response: final content after tool result
    let sse_final = r#"data: {"id":"chunk4","created":1234567890,"model":"gpt-4","system_fingerprint":"fp1","choices":[{"index":0,"delta":{"content":"Found results!"},"finish_reason":"stop"}]}

data: [DONE]

"#;
    let tools = vec![Box::new(MockTool) as BoxedToolCall];

    let mut chat = ChatBuilder::new("http://localhost", "test-key", "gpt-4")
        .streaming()
        .tools(&tools)
        .unwrap()
        .build();

    let msg = Message::new(Role::User, "Search for test");
    chat.next_msg(msg).unwrap();
    let mut decoder = StreamDecoder::new();
    decoder.feed_bytes(sse_tool_call.as_bytes());
    let calls = match chat.on_stream(&decoder).unwrap() {
        Action::Invoke { calls } => calls,
        _ => panic!("expected tool calls"),
    };
    let results: Vec<Result<String, String>> =
        calls.iter().map(|c| tools[c.tool].call(&c.request.arguments)).collect();
    chat.on_tool_results(&results).unwrap();
    let mut decoder = StreamDecoder::new();
    decoder.feed_bytes(sse_final.as_bytes());
    let result = chat.on_stream(&decoder);

    assert!(result.is_ok());
    let messages = match result.unwrap() {
        Action::Finish { messages } => messages,
        _ => panic!("expected the turn to finish"),
    };
    // Should return 3 messages:
    // 1. Tool call request
    // 2. Tool call response
    // 3. Assistant's final content
    assert_eq!(messages.len(), 3);
}

#[test]
fn names_of_capabilities_should_differ() {
    let names = |list: &[&str]| list.iter().map(|s| s.to_string()).collect::<Vec<String>>();
    assert!(names_are_unique(&names(&[])));
    assert!(names_are_unique(&names(&["a"])));
    assert!(names_are_unique(&names(&["a", "b", "A", "a "])));
    assert!(!names_are_unique(&names(&["a", "b", "a"])));
    assert!(!names_are_unique(&names(&["a", "b", "c", "d", "d"])));
    assert_eq!(normalize_tag("  Background\u{a0}\n"), "background");
    assert_eq!(normalize_tag("\u{c9}T\u{c9}"), "\u{e9}t\u{e9}");
    assert_eq!(normalize_tags(&names(&["Agenda ", "x"])), names(&["agenda", "x"]));
}

#[test]
fn dispatch_without_capabilities_fails_with_the_error_of_the_first_call() {
    let tools: Vec<BoxedToolCall> = Vec::new();
    assert!(handle_tool_calls(&tools, &Vec::new()).unwrap().is_empty());
    let calls = vec![parse(&tool_call("a", "one", "{}")), parse(r#"{"id":"b"}"#)];
    assert!(matches!(
        handle_tool_calls(&tools, &calls),
        Err(ChatError::UnknownTool { name }) if name == "one"
    ));
    let calls = vec![parse(r#"{"function":{"name":"n","arguments":"a"}}"#), parse(&tool_call("a", "one", "{}"))];
    assert!(matches!(handle_tool_calls(&tools, &calls), Err(ChatError::MissingToolCallId)));
}

#[test]
fn capabilities_that_do_not_fit_are_refused() {
    let names = |list: &[&str]| list.iter().map(|name| name.to_string()).collect::<Vec<String>>();
    let builder = || ChatBuilder::new("h", "k", "m");
    assert!(matches!(
        builder().capabilities(names(&["a", "b", "a"]), vec![Json::Null, Json::Null, Json::Null]),
        Err(ChatError::InvalidCapabilities)
    ));
    assert!(matches!(
        builder().capabilities(names(&["a", "b"]), vec![Json::Null]),
        Err(ChatError::InvalidCapabilities)
    ));
    assert!(matches!(
        builder().capabilities(names(&[]), vec![Json::Null]),
        Err(ChatError::InvalidCapabilities)
    ));
    let fitting = builder().capabilities(names(&["a", "A"]), vec![Json::Null, Json::Null]).unwrap();
    assert_eq!(fitting.tool_names().unwrap(), &names(&["a", "A"]));
    assert!(builder().capabilities(names(&[]), vec![]).unwrap().tool_names().unwrap().is_empty());

    let twice: Vec<BoxedToolCall> = vec![Box::new(Echo("one")), Box::new(Echo("one"))];
    assert!(matches!(builder().tools(&twice), Err(ChatError::InvalidCapabilities)));
    let apart: Vec<BoxedToolCall> = vec![Box::new(Echo("one")), Box::new(Echo("two"))];
    assert_eq!(builder().tools(&apart).unwrap().tool_names().unwrap(), &names(&["one", "two"]));
    assert!(builder().tools(&Vec::new()).unwrap().tool_names().unwrap().is_empty());
}
