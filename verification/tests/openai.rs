use indexer::json::Json;
use indexer::openai::delta::{CompletionChunk, CompletionChunkChoice, Delta, ToolCallChunk};
use indexer::openai::request::{completion_payload, completion_url};
use indexer::openai::response::{read_completion, Completion};
use indexer::openai::{
    Function, FunctionCall, FunctionCallFn, Message, NamedProperty, Parameters, Property,
    PropertyList, PropertySet, Role, ToolType,
};

fn parse(text: &str) -> Json {
    Json::parse(text).expect("a JSON document")
}

fn text_at<'a>(json: &'a Json, key: &str) -> &'a str {
    json.get(key).expect("a member").as_str().expect("a string").as_str()
}

#[test]
fn test_role_serialization() {
    assert_eq!(Json::string(Role::System.as_str()).render(), r#""system""#);
    assert_eq!(Json::string(Role::Assistant.as_str()).render(), r#""assistant""#);
    assert_eq!(Json::string(Role::User.as_str()).render(), r#""user""#);
    assert_eq!(Json::string(Role::Tool.as_str()).render(), r#""tool""#);
}

#[test]
fn test_role_deserialization() {
    let role = |json: &str| Role::from_wire(parse(json).as_str().unwrap()).unwrap();
    let json = r#""system""#;
    assert_eq!(role(json), Role::System);

    let json = r#""assistant""#;
    assert_eq!(role(json), Role::Assistant);

    let json = r#""user""#;
    assert_eq!(role(json), Role::User);

    let json = r#""tool""#;
    assert_eq!(role(json), Role::Tool);
}

#[test]
fn test_message_new() {
    let msg = Message::new(Role::User, "Hello world");
    assert_eq!(msg.to_json().render(), r#"{"role":"user","content":"Hello world"}"#);

    let msg = Message::new(Role::Assistant, "I can help!");
    assert_eq!(msg.to_json().render(), r#"{"role":"assistant","content":"I can help!"}"#);
}

#[test]
fn test_message_new_tool_call_request() {
    let tool_calls = vec![FunctionCall {
        function: FunctionCallFn {
            arguments: r#"{"query":"books"}"#.to_string(),
            name: "search_notes".to_string(),
        },
        id: "call_test123".to_string(),
        kind: "function".to_string(),
    }];

    let msg = Message::new_tool_call_request(tool_calls);
    assert_eq!(
        msg.to_json().render(),
        r#"{"role":"assistant","tool_calls":[{"function":{"arguments":"{\"query\":\"books\"}","name":"search_notes"},"id":"call_test123","type":"function"}]}"#
    );
}

#[test]
fn test_message_new_tool_call_response() {
    let msg = Message::new_tool_call_response("Found 3 books", "call_test123");
    assert_eq!(
        msg.to_json().render(),
        r#"{"role":"tool","content":"Found 3 books","tool_call_id":"call_test123"}"#
    );
}

#[test]
fn test_function_call_serialization() {
    let fc = FunctionCallFn {
        arguments: r#"{"query":"test"}"#.to_string(),
        name: "my_function".to_string(),
    };
    assert_eq!(
        fc.to_json().render(),
        r#"{"arguments":"{\"query\":\"test\"}","name":"my_function"}"#
    );
}

#[test]
fn test_function_call_deserialization() {
    let json = r#"{"arguments":"{\"query\":\"test\"}","name":"my_function"}"#;
    let fc: FunctionCallFn = FunctionCallFn::from_json(&parse(json)).unwrap();
    assert_eq!(fc.name, "my_function");
    assert_eq!(fc.arguments, r#"{"query":"test"}"#);
}

#[test]
fn test_function_call_full_serialization() {
    let fc = FunctionCall {
        function: FunctionCallFn {
            arguments: r#"{"query":"books"}"#.to_string(),
            name: "search_notes".to_string(),
        },
        id: "call_test123".to_string(),
        kind: "function".to_string(),
    };
    let json = fc.to_json().render();
    assert!(json.contains(r#""arguments":"{\"query\":\"books\"}"#));
    assert!(json.contains(r#""name":"search_notes""#));
    assert!(json.contains(r#""id":"call_test123""#));
    assert!(json.contains(r#""type":"function""#));
}

#[test]
fn test_function_call_full_deserialization() {
    let json = r#"{
            "function": {"arguments":"{\"query\":\"books\"}","name":"search_notes"},
            "id":"call_test123",
            "type":"function"
        }"#;
    let fc: FunctionCall = FunctionCall::from_json(&parse(json)).unwrap();
    assert_eq!(fc.id, "call_test123");
    assert_eq!(fc.kind, "function");
    assert_eq!(fc.function.name, "search_notes");
    assert_eq!(fc.function.arguments, r#"{"query":"books"}"#);
}

#[test]
fn test_tool_type_serialization() {
    assert_eq!(Json::string(ToolType::Function.as_str()).render(), r#""function""#);
}

#[test]
fn test_property_serialization() {
    let prop = Property {
        kind: "string".to_string(),
        description: "The search query".to_string(),
        allowed: None,
    };
    assert_eq!(
        prop.to_json().render(),
        r#"{"type":"string","description":"The search query"}"#
    );
}

fn query_props() -> PropertyList {
    PropertyList {
        entries: vec![NamedProperty {
            name: "query".to_string(),
            property: Property::new("string", "Search query"),
        }],
    }
}

#[test]
fn test_parameters_serialization() {
    let params = Parameters {
        kind: "object".to_string(),
        properties: query_props(),
        required: vec!["query".to_string()],
        additional_properties: false,
    };
    let json = params.to_json();
    assert_eq!(text_at(&json, "type"), "object");
    assert_eq!(json.get("required").unwrap().as_array().unwrap()[0].as_str().unwrap(), "query");
    assert!(matches!(json.get("additionalProperties"), Some(Json::Bool(false))));
}

#[test]
fn test_function_serialization() {
    let params = Parameters {
        kind: "object".to_string(),
        properties: query_props(),
        required: vec!["query".to_string()],
        additional_properties: false,
    };
    let func = Function {
        name: "search_notes".to_string(),
        description: "Search through notes".to_string(),
        parameters: params,
        strict: true,
    };
    let json = func.to_json();
    assert_eq!(text_at(&json, "name"), "search_notes");
    assert_eq!(text_at(&json, "description"), "Search through notes");
}

#[test]
fn test_delta_content_deserialization() {
    let json = r#"{"content":"Hello"}"#;
    let delta: Delta = Delta::from_json(&parse(json)).unwrap();
    match delta {
        Delta::Content { content } => assert_eq!(content, "Hello"),
        _ => panic!("Expected Content variant"),
    }
}

#[test]
fn test_delta_reasoning_deserialization() {
    let json = r#"{"reasoning":"Thinking..."}"#;
    let delta: Delta = Delta::from_json(&parse(json)).unwrap();
    match delta {
        Delta::Reasoning { reasoning } => assert_eq!(reasoning, "Thinking..."),
        _ => panic!("Expected Reasoning variant"),
    }
}

#[test]
fn test_delta_stop_deserialization() {
    let json = r#"{}"#;
    let delta: Delta = Delta::from_json(&parse(json)).unwrap();
    match delta {
        Delta::Stop => {}
        _ => panic!("Expected Stop variant"),
    }
}

#[test]
fn test_delta_tool_call_deserialization() {
    let json = r#"{
            "tool_calls": [{
                "id":"call_abc",
                "index":0,
                "function":{"name":"search","arguments":"{\"q\":\"test\"}"},
                "type":"function"
            }]
        }"#;
    let delta: Delta = Delta::from_json(&parse(json)).unwrap();
    match delta {
        Delta::ToolCall { tool_calls } => {
            assert_eq!(tool_calls.len(), 1);
        }
        _ => panic!("Expected ToolCall variant"),
    }
}

#[test]
fn test_tool_call_chunk_init_deserialization() {
    let json = r#"{
            "id":"call_abc",
            "index":0,
            "function":{"name":"search","arguments":"{"},
            "type":"function"
        }"#;
    let chunk: ToolCallChunk = ToolCallChunk::from_json(&parse(json)).unwrap();
    match chunk {
        ToolCallChunk::Init { id, index, name, arguments, kind } => {
            assert_eq!(id, "call_abc");
            assert_eq!(index, 0);
            assert_eq!(name, "search");
            assert_eq!(arguments, "{");
            assert_eq!(kind, "function");
        }
        _ => panic!("Expected Init variant"),
    }
}

#[test]
fn test_tool_call_chunk_args_delta_deserialization() {
    let json = r#"{
            "index":0,
            "function":{"arguments":"\"q\":\"test\"}"},
            "type":"function"
        }"#;
    let chunk: ToolCallChunk = ToolCallChunk::from_json(&parse(json)).unwrap();
    match chunk {
        ToolCallChunk::ArgsDelta { index, arguments } => {
            assert_eq!(index, 0);
            assert_eq!(arguments, r#""q":"test"}"#);
        }
        _ => panic!("Expected ArgsDelta variant"),
    }
}

#[test]
fn test_completion_chunk_deserialization() {
    let json = r#"{
            "id":"chunk_123",
            "created":1234567890,
            "model":"gpt-4",
            "system_fingerprint":"fp_abc123",
            "choices":[{
                "index":0,
                "delta":{"content":"Hello"},
                "finish_reason":null
            }]
        }"#;
    let chunk: CompletionChunk = CompletionChunk::from_json(&parse(json)).unwrap();
    assert_eq!(chunk.id, "chunk_123");
    assert_eq!(chunk.created, 1234567890);
    assert_eq!(chunk.model, "gpt-4");
}

#[test]
fn delta_takes_the_first_shape_that_fits() {
    let delta = |json: &str| Delta::from_json(&parse(json));
    // content wins over reasoning and tool calls
    assert!(matches!(
        delta(r#"{"content":"a","reasoning":"b","tool_calls":[]}"#),
        Some(Delta::Content { .. })
    ));
    // content that is null is no content
    assert!(matches!(
        delta(r#"{"role":"assistant","content":null,"reasoning":"b"}"#),
        Some(Delta::Reasoning { .. })
    ));
    assert!(matches!(
        delta(r#"{"content":null,"tool_calls":[]}"#),
        Some(Delta::ToolCall { tool_calls }) if tool_calls.is_empty()
    ));
    // an object of no other shape is a stop
    assert!(matches!(delta(r#"{"role":"assistant"}"#), Some(Delta::Stop)));
    assert!(matches!(delta(r#"{"content":5}"#), Some(Delta::Stop)));
    // so is one whose tool calls cannot all be read
    assert!(matches!(delta(r#"{"tool_calls":[{"index":0}]}"#), Some(Delta::Stop)));
    assert!(matches!(delta(r#"{"tool_calls":"none"}"#), Some(Delta::Stop)));
    // anything but an object is no delta
    assert!(delta(r#""content""#).is_none());
    assert!(delta(r#"["Hello"]"#).is_none());
    assert!(delta("null").is_none());
}

#[test]
fn argument_fragments_need_no_type() {
    let chunk = ToolCallChunk::from_json(&parse(r#"{"index":2,"function":{"arguments":"x"}}"#));
    assert!(matches!(
        chunk,
        Some(ToolCallChunk::ArgsDelta { index: 2, arguments }) if arguments == "x"
    ));
    // an id without a name opens nothing
    let chunk = ToolCallChunk::from_json(&parse(
        r#"{"id":"c","index":1,"function":{"arguments":""},"type":"function"}"#,
    ));
    assert!(matches!(chunk, Some(ToolCallChunk::ArgsDelta { index: 1, .. })));
    // a type that is no text fits neither shape
    assert!(ToolCallChunk::from_json(&parse(r#"{"index":0,"function":{"arguments":"x"},"type":1}"#))
        .is_none());
    // the index must be a whole number that is not negative
    assert!(ToolCallChunk::from_json(&parse(r#"{"index":-1,"function":{"arguments":"x"}}"#))
        .is_none());
    assert!(ToolCallChunk::from_json(&parse(r#"{"index":1.5,"function":{"arguments":"x"}}"#))
        .is_none());
    assert!(ToolCallChunk::from_json(&parse(r#"{"function":{"arguments":"x"}}"#)).is_none());
    assert!(ToolCallChunk::from_json(&parse(r#"{"index":0,"function":{}}"#)).is_none());
}

#[test]
fn chunk_needs_all_its_members() {
    let full = r#"{"id":"c","created":1,"model":"m","system_fingerprint":"f","choices":[]}"#;
    assert!(CompletionChunk::from_json(&parse(full)).is_some());
    for missing in ["id", "created", "model", "system_fingerprint", "choices"] {
        let mut members = match parse(full) {
            Json::Object(members) => members,
            _ => unreachable!(),
        };
        members.retain(|m| m.name != missing);
        assert!(CompletionChunk::from_json(&Json::Object(members)).is_none(), "{}", missing);
    }
    let bad_choice =
        r#"{"id":"c","created":1,"model":"m","system_fingerprint":"f","choices":[{"index":0}]}"#;
    assert!(CompletionChunk::from_json(&parse(bad_choice)).is_none());
}

#[test]
fn choice_reads_optional_members() {
    let choice = CompletionChunkChoice::from_json(&parse(
        r#"{"index":3,"delta":{},"finish_reason":"length","extra":true}"#,
    ))
    .unwrap();
    assert_eq!(choice.index, 3);
    assert_eq!(choice.finish_reason.as_deref(), Some("length"));
    assert_eq!(choice.logprobs, None);
    assert!(CompletionChunkChoice::from_json(&parse(r#"{"index":0,"delta":{},"logprobs":{}}"#))
        .is_none());
    assert!(CompletionChunkChoice::from_json(&parse(r#"{"index":0,"finish_reason":null}"#))
        .is_none());
}

#[test]
fn json_is_read_and_written() {
    let text = r#"{"b":[1,-2,3.5,"x",null,true],"a":{"nested":"é\n"}}"#;
    let json = parse(text);
    assert_eq!(json.render(), "{\"b\":[1,-2,3.5,\"x\",null,true],\"a\":{\"nested\":\"\u{e9}\\n\"}}");
    let items = json.get("b").unwrap().as_array().unwrap();
    assert_eq!(items[0].as_u64(), Some(1));
    assert!(matches!(items[1], Json::Int(-2)));
    assert!(matches!(&items[2], Json::Real(t) if t == "3.5"));
    assert!(json.get("missing").is_none());
    assert!(parse("[1]").get("a").is_none());
    assert!(Json::parse("{not json").is_none());
    assert!(Json::parse("").is_none());
    assert_eq!(parse("18446744073709551615").as_u64(), Some(u64::MAX));
}

#[test]
fn messages_survive_a_round_trip() {
    let request = Message::new_tool_call_request(vec![FunctionCall {
        function: FunctionCallFn { arguments: "{}".to_string(), name: "n".to_string() },
        id: "i".to_string(),
        kind: "function".to_string(),
    }]);
    for msg in [
        Message::new(Role::System, "be brief"),
        Message::new(Role::User, ""),
        Message::new_tool_call_response("result", "call_1"),
        request,
    ] {
        let text = msg.to_json().render();
        let back = Message::from_json(&parse(&text)).expect("a message");
        assert_eq!(back.to_json().render(), text);
        assert_eq!(back.role(), msg.role());
        assert_eq!(back.content(), msg.content());
        assert_eq!(back.tool_call_id(), msg.tool_call_id());
    }
    // null stands for a part that is missing
    let msg = Message::from_json(&parse(
        r#"{"role":"assistant","content":"hi","refusal":null,"tool_calls":null}"#,
    ))
    .unwrap();
    assert_eq!(msg.content().map(|c| c.as_str()), Some("hi"));
    // a message bears content or tool calls, never both and never neither
    assert!(Message::from_json(&parse(r#"{"role":"assistant","content":"a","tool_calls":[]}"#))
        .is_none());
    assert!(Message::from_json(&parse(r#"{"role":"assistant"}"#)).is_none());
    assert!(Message::from_json(&parse(r#"{"role":"user","tool_calls":[]}"#)).is_none());
    assert!(Message::from_json(&parse(r#"{"role":"user","content":"a","tool_call_id":"c"}"#))
        .is_none());
    assert!(Message::from_json(&parse(r#"{"role":"robot","content":"a"}"#)).is_none());
}

#[test]
fn tool_response_has_no_tool_calls_member() {
    let json = Message::new_tool_call_response("mock result", "call_abc123").to_json();
    assert_eq!(text_at(&json, "role"), "tool");
    assert_eq!(text_at(&json, "content"), "mock result");
    assert_eq!(text_at(&json, "tool_call_id"), "call_abc123");
    assert!(json.get("tool_calls").is_none());
}

#[test]
fn endpoint_is_joined_to_the_host() {
    assert_eq!(completion_url("https://api.openai.com"), "https://api.openai.com/v1/chat/completions");
    assert_eq!(completion_url("http://localhost:8080///"), "http://localhost:8080/v1/chat/completions");
    assert_eq!(completion_url(""), "/v1/chat/completions");
    assert_eq!(completion_url("/"), "/v1/chat/completions");
}

#[test]
fn request_leaves_out_what_is_not_configured() {
    let messages = vec![Message::new(Role::User, "Hi")];
    assert_eq!(
        completion_payload("gpt-4", &messages, None, false).render(),
        r#"{"model":"gpt-4","messages":[{"role":"user","content":"Hi"}]}"#
    );
    assert_eq!(
        completion_payload("gpt-4", &messages, Some(&vec![]), true).render(),
        r#"{"model":"gpt-4","messages":[{"role":"user","content":"Hi"}],"stream":true,"stream_options":{"include_usage":true},"tools":[]}"#
    );
    let tool = parse(r#"{"type":"function","function":{"name":"t"}}"#);
    assert_eq!(
        completion_payload("m", &Vec::new(), Some(&vec![tool]), false).render(),
        r#"{"model":"m","messages":[],"tools":[{"type":"function","function":{"name":"t"}}]}"#
    );
}

#[test]
fn completion_is_tool_calls_or_content() {
    let response = parse(
        r#"{"choices":[{"index":0,"message":{"role":"assistant","content":"Hello!"},"finish_reason":"stop"}]}"#,
    );
    assert!(matches!(read_completion(&response), Completion::Content(text) if text == "Hello!"));
    let response = parse(
        r#"{"choices":[{"message":{"content":"ignored","tool_calls":[{"id":"a"},{"id":"b"}]}}]}"#,
    );
    assert!(matches!(read_completion(&response), Completion::ToolCalls(calls) if calls.len() == 2));
    // an empty list of tool calls asks for nothing
    let response = parse(r#"{"choices":[{"message":{"content":"text","tool_calls":[]}}]}"#);
    assert!(matches!(read_completion(&response), Completion::Content(text) if text == "text"));
    for text in [
        r#"{"choices":[{"message":{"content":null}}]}"#,
        r#"{"choices":[{"message":{}}]}"#,
        r#"{"choices":[]}"#,
        r#"{"error":"nope"}"#,
        r#"[]"#,
    ] {
        assert!(matches!(read_completion(&parse(text)), Completion::Nothing), "{}", text);
    }
}

#[test]
fn schema_lists_allowed_values() {
    let prop = Property {
        kind: "string".to_string(),
        description: "d".to_string(),
        allowed: Some(vec!["a".to_string(), "b".to_string()]),
    };
    assert_eq!(prop.to_json().render(), r#"{"type":"string","description":"d","enum":["a","b"]}"#);
    assert_eq!(
        query_props().to_json().render(),
        r#"{"query":{"type":"string","description":"Search query"}}"#
    );
}

#[test]
fn real_numbers_are_written_as_they_were_read() {
    let document = Json::parse(r#"{"a":[1.5,-2,3,1e3,0.25]}"#).unwrap();
    assert_eq!(document.render(), r#"{"a":[1.5,-2,3,1000.0,0.25]}"#);
    assert_eq!(document.try_render().as_deref(), Some(r#"{"a":[1.5,-2,3,1000.0,0.25]}"#));
    assert_eq!(Json::Real("2.5".to_string()).render(), "2.5");
    // a text that is no number cannot be written
    let broken = Json::array(vec![Json::UInt(1), Json::Real("abc".to_string())]);
    assert_eq!(broken.try_render(), None);
    assert_eq!(broken.render(), "null");
    assert_eq!(Json::Real("\"text\"".to_string()).try_render(), None);
}
