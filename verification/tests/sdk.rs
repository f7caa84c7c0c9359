use llm_sdk::{
    BuildError, ChatCompletionMessage, ChatCompletionRequestBuilder, CreateImageRequest,
    LlmSdk, Method, UserMessage, TIMEOUT,
};

#[test]
fn an_empty_token_sends_no_authorization() {
    let sdk = LlmSdk::new(String::new());
    let prepared = sdk.prepare_request(CreateImageRequest::new("a kite"));
    assert_eq!(prepared.bearer_token, None);
    assert_eq!(prepared.timeout_secs, 30);
}

#[test]
fn a_token_is_sent_as_bearer() {
    let sdk = LlmSdk::new("secret-token".to_string());
    let prepared = sdk.prepare_request(CreateImageRequest::new("a kite"));
    assert_eq!(prepared.bearer_token.as_deref(), Some("secret-token"));
    assert_eq!(prepared.timeout_secs, TIMEOUT);
    assert_eq!(TIMEOUT, 30);
}

#[test]
fn preparing_keeps_the_converted_request() {
    let sdk = LlmSdk::new("t".to_string());
    let prepared = sdk.prepare_request(CreateImageRequest::new("a kite"));
    assert_eq!(prepared.request.method, Method::Post);
    assert_eq!(
        prepared.request.url,
        "https://api.openai.com/v1/images/generations"
    );
    assert_eq!(
        String::from_utf8(prepared.request.body).unwrap(),
        r#"{"prompt":"a kite","model":"dall-e-3"}"#
    );
    let chat = ChatCompletionRequestBuilder::default()
        .messages(vec![ChatCompletionMessage::User(UserMessage {
            content: "hi".to_string(),
            name: None,
        })])
        .model("gpt-4".to_string())
        .build()
        .unwrap();
    let prepared = sdk.prepare_request(chat);
    assert_eq!(
        prepared.request.url,
        "https://api.openai.com/v1/chat/completions"
    );
    assert_eq!(prepared.bearer_token.as_deref(), Some("t"));
}

#[test]
fn a_build_error_names_its_field() {
    assert_eq!(BuildError::MissingField("prompt").field(), "prompt");
    assert_eq!(BuildError::MissingField("model").field(), "model");
    assert_eq!(BuildError::EmptyMessages.field(), "messages");
}
