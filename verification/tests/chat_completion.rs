use llm_sdk::{
    AssistantMessage, BuildError, ChatCompletionMessage, ChatCompletionRequestBuilder,
    IntoRequest, JsonValue, Method, SystemMessage, ToolCall, ToolCallType, ToolMessage,
    UserMessage, CHAT_COMPLETIONS_URL,
};

fn text(value: &JsonValue) -> String {
    String::from_utf8(value.to_bytes()).unwrap()
}

fn system(content: &str) -> ChatCompletionMessage {
    ChatCompletionMessage::System(SystemMessage {
        content: content.to_string(),
        name: None,
    })
}

fn user(content: &str, name: Option<&str>) -> ChatCompletionMessage {
    ChatCompletionMessage::User(UserMessage {
        content: content.to_string(),
        name: name.map(str::to_string),
    })
}

fn assistant(tool_calls: Vec<ToolCall>) -> ChatCompletionMessage {
    ChatCompletionMessage::Assistant(AssistantMessage {
        content: "it is sunny".to_string(),
        name: Some("bot".to_string()),
        tool_calls,
        function: "weather".to_string(),
    })
}

fn call(id: &str) -> ToolCall {
    ToolCall {
        id: id.to_string(),
        kind: ToolCallType::Function,
    }
}

fn object(members: Vec<(&str, JsonValue)>) -> JsonValue {
    JsonValue::Object(
        members
            .into_iter()
            .map(|(key, value)| (key.to_string(), value))
            .collect(),
    )
}

fn string(text: &str) -> JsonValue {
    JsonValue::String(text.to_string())
}

#[test]
fn empty_message_list_is_rejected() {
    let result = ChatCompletionRequestBuilder::default()
        .messages(Vec::new())
        .model("gpt-4".to_string())
        .build();
    assert_eq!(result, Err(BuildError::EmptyMessages));
}

#[test]
fn missing_chat_fields_are_named_in_order() {
    let mut builder = ChatCompletionRequestBuilder::default();
    assert_eq!(builder.build(), Err(BuildError::MissingField("messages")));
    builder.model("gpt-4".to_string());
    assert_eq!(builder.build(), Err(BuildError::MissingField("messages")));
    let mut other = ChatCompletionRequestBuilder::default();
    other.messages(vec![system("be brief")]);
    assert_eq!(other.build(), Err(BuildError::MissingField("model")));
    other.model("gpt-4".to_string());
    assert!(other.build().is_ok());
}

#[test]
fn chat_setters_commute_and_the_last_write_wins() {
    let one = ChatCompletionRequestBuilder::default()
        .messages(vec![system("be brief"), user("hello", None)])
        .model("gpt-4".to_string())
        .build()
        .unwrap();
    let other = ChatCompletionRequestBuilder::default()
        .model("gpt-4".to_string())
        .messages(vec![system("be brief"), user("hello", None)])
        .build()
        .unwrap();
    assert_eq!(one, other);
    assert_eq!(one.to_json().to_bytes(), other.to_json().to_bytes());
    let rewritten = ChatCompletionRequestBuilder::default()
        .model("gpt-3.5".to_string())
        .messages(vec![user("draft", None)])
        .messages(vec![system("be brief"), user("hello", None)])
        .model("gpt-4".to_string())
        .build()
        .unwrap();
    assert_eq!(rewritten, one);
}

#[test]
fn finished_chat_request_shows_what_was_set() {
    let request = ChatCompletionRequestBuilder::default()
        .messages(vec![system("be brief"), user("hello", Some("ann"))])
        .model("gpt-4".to_string())
        .build()
        .unwrap();
    assert_eq!(request.model(), "gpt-4");
    assert_eq!(
        request.messages(),
        &vec![system("be brief"), user("hello", Some("ann"))]
    );
}

#[test]
fn chat_request_serializes_messages_in_order() {
    let request = ChatCompletionRequestBuilder::default()
        .messages(vec![system("be brief"), user("hello", Some("ann"))])
        .model("gpt-4".to_string())
        .build()
        .unwrap();
    assert_eq!(
        text(&request.to_json()),
        r#"{"messages":[{"role":"system","content":"be brief"},{"role":"user","content":"hello","name":"ann"}],"model":"gpt-4"}"#
    );
}

#[test]
fn chat_request_is_posted_to_the_chat_endpoint() {
    let request = ChatCompletionRequestBuilder::default()
        .messages(vec![user("hi", None)])
        .model("gpt-4".to_string())
        .build()
        .unwrap();
    let sent = request.into_request();
    assert_eq!(sent.method, Method::Post);
    assert_eq!(sent.url, "https://api.openai.com/v1/chat/completions");
    assert_eq!(sent.url, CHAT_COMPLETIONS_URL);
    assert_eq!(
        String::from_utf8(sent.body).unwrap(),
        r#"{"messages":[{"role":"user","content":"hi"}],"model":"gpt-4"}"#
    );
}

#[test]
fn assistant_without_tool_calls_has_no_tool_calls_key() {
    let message = assistant(Vec::new());
    let json = message.to_json();
    assert!(json.get("tool_calls").is_none());
    assert_eq!(
        text(&json),
        r#"{"role":"assistant","content":"it is sunny","name":"bot","function":"weather"}"#
    );
    let parsed: serde_json::Value = serde_json::from_slice(&json.to_bytes()).unwrap();
    assert!(parsed.as_object().unwrap().get("tool_calls").is_none());
}

#[test]
fn assistant_with_tool_calls_lists_them() {
    let message = assistant(vec![call("call_1"), call("call_2")]);
    assert_eq!(
        text(&message.to_json()),
        r#"{"role":"assistant","content":"it is sunny","name":"bot","tool_calls":[{"id":"call_1","type":"function"},{"id":"call_2","type":"function"}],"function":"weather"}"#
    );
}

#[test]
fn a_message_without_a_name_has_no_name_key() {
    let json = user("hello", None).to_json();
    assert!(json.get("name").is_none());
    assert_eq!(text(&json), r#"{"role":"user","content":"hello"}"#);
}

#[test]
fn the_role_tag_is_that_of_the_variant() {
    let tool = ChatCompletionMessage::Tool(ToolMessage {
        content: "42".to_string(),
        name: None,
    });
    let cases = [
        (system("s"), "system"),
        (user("u", None), "user"),
        (assistant(Vec::new()), "assistant"),
        (tool, "tool"),
    ];
    for (message, tag) in cases {
        assert_eq!(message.role(), tag);
        assert_eq!(message.to_json().get("role"), Some(&string(tag)));
        assert_eq!(message.to_json().text("role"), Some(tag));
    }
}

#[test]
fn every_variant_survives_writing_and_reading() {
    let messages = vec![
        system("be \"brief\""),
        ChatCompletionMessage::System(SystemMessage {
            content: String::new(),
            name: Some("root".to_string()),
        }),
        user("hello\nworld", None),
        user("héllo ✓", Some("ann")),
        assistant(Vec::new()),
        assistant(vec![call("call_1"), call("")]),
        ChatCompletionMessage::Tool(ToolMessage {
            content: "42".to_string(),
            name: Some("calc".to_string()),
        }),
        ChatCompletionMessage::Tool(ToolMessage {
            content: "\\".to_string(),
            name: None,
        }),
    ];
    for message in messages {
        let back = ChatCompletionMessage::from_json(&message.to_json());
        assert_eq!(back, Some(message.clone()));
        assert_eq!(back.unwrap().role(), message.role());
    }
}

#[test]
fn tool_call_survives_writing_and_reading() {
    let original = call("call_7");
    assert_eq!(
        text(&original.to_json()),
        r#"{"id":"call_7","type":"function"}"#
    );
    assert_eq!(ToolCall::from_json(&original.to_json()), Some(original));
    assert_eq!(ToolCallType::from_token("function"), Some(ToolCallType::Function));
    assert_eq!(ToolCallType::from_token("Function"), None);
    assert_eq!(ToolCallType::default(), ToolCallType::Function);
    assert_eq!(ToolCallType::Function.as_str(), "function");
}

#[test]
fn reading_a_message_takes_null_for_no_name_and_skips_unknown_members() {
    let value = object(vec![
        ("extra", JsonValue::Bool(true)),
        ("name", JsonValue::Null),
        ("content", string("hello")),
        ("role", string("user")),
    ]);
    assert_eq!(
        ChatCompletionMessage::from_json(&value),
        Some(user("hello", None))
    );
    let bare = object(vec![
        ("role", string("assistant")),
        ("content", string("c")),
        ("function", string("f")),
    ]);
    assert_eq!(
        ChatCompletionMessage::from_json(&bare),
        Some(ChatCompletionMessage::Assistant(AssistantMessage {
            content: "c".to_string(),
            name: None,
            tool_calls: Vec::new(),
            function: "f".to_string(),
        }))
    );
}

#[test]
fn reading_a_message_rejects_what_is_not_one() {
    let rejected = vec![
        JsonValue::Null,
        string("user"),
        JsonValue::Array(Vec::new()),
        object(vec![("content", string("no role"))]),
        object(vec![("role", string("wizard")), ("content", string("x"))]),
        object(vec![("role", string("User")), ("content", string("x"))]),
        object(vec![("role", JsonValue::Number(1)), ("content", string("x"))]),
        object(vec![("role", string("user"))]),
        object(vec![("role", string("user")), ("content", JsonValue::Number(3))]),
        object(vec![
            ("role", string("user")),
            ("content", string("x")),
            ("name", JsonValue::Number(3)),
        ]),
        object(vec![("role", string("assistant")), ("content", string("x"))]),
        object(vec![
            ("role", string("assistant")),
            ("content", string("x")),
            ("function", string("f")),
            ("tool_calls", string("none")),
        ]),
        object(vec![
            ("role", string("assistant")),
            ("content", string("x")),
            ("function", string("f")),
            (
                "tool_calls",
                JsonValue::Array(vec![object(vec![
                    ("id", string("a")),
                    ("type", string("retrieval")),
                ])]),
            ),
        ]),
    ];
    for value in rejected {
        assert_eq!(ChatCompletionMessage::from_json(&value), None, "{value:?}");
    }
}

#[test]
fn clones_of_chat_values_are_equal_to_them() {
    let mut builder = ChatCompletionRequestBuilder::default();
    builder
        .messages(vec![system("be brief"), assistant(vec![call("c1")])])
        .model("gpt-4".to_string());
    assert_eq!(builder.clone(), builder);
    let request = builder.build().unwrap();
    assert_eq!(request.clone(), request);
    assert_eq!(request.clone().to_json(), request.to_json());
}
