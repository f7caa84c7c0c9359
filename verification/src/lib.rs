//! Typed requests for a generative-AI HTTP API: payload types, validating
//! builders, the exact JSON that goes on the wire, and what the transport has
//! to attach to each request.

pub mod api;
pub mod error;
pub mod json;
pub mod request;

pub use api::chat_completion::{
    message_models, messages_json, tool_call_models, tool_calls_json, tool_calls_value,
    AssistantMessage, AssistantMessageModel, ChatCompletionMessage, ChatCompletionRequest,
    ChatCompletionRequestBuilder, ChatCompletionRequestBuilderModel, ChatCompletionRequestModel,
    ChatCompletionResponse, ChatSetting, MessageModel, SystemMessage, TextMessageModel, ToolCall,
    ToolCallModel, ToolCallType, ToolMessage, UserMessage, CHAT_COMPLETIONS_URL,
};
pub use api::create_image::{
    CreateImageRequest, CreateImageRequestBuilder, CreateImageRequestBuilderModel,
    CreateImageRequestModel, CreateImageResponse, ImageModel, ImageQuality, ImageResponseFormat,
    ImageSetting, ImageSize, ImageStyle, IMAGE_GENERATIONS_URL,
};
pub use error::{BuildError, BuildErrorModel};
pub use json::{JsonModel, JsonValue};
pub use request::{IntoRequest, Method, Request, RequestModel};

use vstd::prelude::*;

verus! {

/// Seconds that the transport allows a request before it gives up.
pub const TIMEOUT: u64 = 30;

/// The client's settings that shape every request.
pub struct LlmSdk {
    pub(crate) token: String,
}

/// A request together with what the transport must attach to it.
#[derive(Debug, PartialEq, Eq)]
pub struct PreparedRequest {
    pub request: Request,
    /// The bearer token of the `Authorization` header; `None` sends no such header.
    pub bearer_token: Option<String>,
    /// Seconds until the transport gives the request up.
    pub timeout_secs: u64,
}

impl LlmSdk {
    /// The API token that this client was made with.
    pub closed spec fn token_text(&self) -> Seq<char> {
        self.token@
    }

    /// A client that authenticates with `token`; an empty token means no
    /// authentication.
    pub fn new(token: String) -> (sdk: Self)
        ensures
            sdk.token_text() == token@,
    {
        Self { token }
    }

    /// Converts a payload and says how to send it: with the token as bearer
    /// authentication unless the token is empty, and with the fixed timeout.
    pub fn prepare_request<R: IntoRequest>(&self, req: R) -> (prepared: PreparedRequest)
        ensures
            prepared.request@ == req.request(),
            prepared.timeout_secs == TIMEOUT,
            match prepared.bearer_token {
                Some(token) => self.token_text().len() > 0 && token@ == self.token_text(),
                None => self.token_text().len() == 0,
            },
    {
        let request = req.into_request();
        let bearer_token = if self.token.as_str().is_empty() {
            None
        } else {
            Some(self.token.clone())
        };
        PreparedRequest { request, bearer_token, timeout_secs: TIMEOUT }
    }
}

} // verus!
