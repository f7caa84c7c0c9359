//! The chat-completion endpoint: messages, the request that carries a
//! conversation, the builder that finishes one, and the endpoint's answer.

use crate::error::{BuildError, BuildErrorModel};
use crate::json::{
    lemma_models_of, member, members_with, members_with_text, models_of, one_member,
    option_model, option_text, optional_member, optional_text, push_optional_member,
    push_optional_text, push_text, render, required_text, text_eq, text_token, text_value,
    JsonModel, JsonValue,
};
use crate::request::{IntoRequest, Method, Request, RequestModel};
use vstd::prelude::*;

verus! {

/// Where chat requests go.
pub const CHAT_COMPLETIONS_URL: &'static str = "https://api.openai.com/v1/chat/completions";

/// What the system tells the model.
#[derive(Debug, PartialEq, Eq)]
pub struct SystemMessage {
    pub content: String,
    /// Tells participants of the same role apart.
    pub name: Option<String>,
}

/// What a human says.
#[derive(Debug, PartialEq, Eq)]
pub struct UserMessage {
    pub content: String,
    /// Tells participants of the same role apart.
    pub name: Option<String>,
}

/// What the model said, with the tools it called.
#[derive(Debug, PartialEq, Eq)]
pub struct AssistantMessage {
    pub content: String,
    /// Tells participants of the same role apart.
    pub name: Option<String>,
    pub tool_calls: Vec<ToolCall>,
    /// The function that the model called.
    pub function: String,
}

/// One call of a tool by the model.
#[derive(Debug, PartialEq, Eq)]
pub struct ToolCall {
    pub id: String,
    pub kind: ToolCallType,
}

/// The kind of a tool. More kinds may follow; each keeps its token.
#[derive(Debug, Clone, Copy, PartialEq, Eq, Structural)]
pub enum ToolCallType {
    Function,
}

/// What a tool answered.
#[derive(Debug, PartialEq, Eq)]
pub struct ToolMessage {
    pub content: String,
    /// Tells participants of the same role apart.
    pub name: Option<String>,
}

/// One message of a conversation. The role is the variant; it is stored
/// nowhere else.
#[derive(Debug, PartialEq, Eq)]
pub enum ChatCompletionMessage {
    System(SystemMessage),
    User(UserMessage),
    Assistant(AssistantMessage),
    Tool(ToolMessage),
}

/// The model of a message that holds a text and an optional name.
pub struct TextMessageModel {
    pub content: Seq<char>,
    pub name: Option<Seq<char>>,
}

/// The mathematical model of a [`ToolCall`].
pub struct ToolCallModel {
    pub id: Seq<char>,
    pub kind: ToolCallType,
}

/// The mathematical model of an [`AssistantMessage`].
pub struct AssistantMessageModel {
    pub content: Seq<char>,
    pub name: Option<Seq<char>>,
    pub tool_calls: Seq<ToolCallModel>,
    pub function: Seq<char>,
}

/// The mathematical model of a [`ChatCompletionMessage`].
pub enum MessageModel {
    System(TextMessageModel),
    User(TextMessageModel),
    Assistant(AssistantMessageModel),
    Tool(TextMessageModel),
}

impl View for SystemMessage {
    type V = TextMessageModel;

    open spec fn view(&self) -> TextMessageModel {
        TextMessageModel { content: self.content@, name: option_text(self.name) }
    }
}

impl View for UserMessage {
    type V = TextMessageModel;

    open spec fn view(&self) -> TextMessageModel {
        TextMessageModel { content: self.content@, name: option_text(self.name) }
    }
}

impl View for ToolMessage {
    type V = TextMessageModel;

    open spec fn view(&self) -> TextMessageModel {
        TextMessageModel { content: self.content@, name: option_text(self.name) }
    }
}

impl View for ToolCall {
    type V = ToolCallModel;

    open spec fn view(&self) -> ToolCallModel {
        ToolCallModel { id: self.id@, kind: self.kind }
    }
}

/// The model of each tool call, in order.
pub open spec fn tool_call_models(calls: Seq<ToolCall>) -> Seq<ToolCallModel> {
    calls.map_values(|call: ToolCall| call@)
}

impl View for AssistantMessage {
    type V = AssistantMessageModel;

    open spec fn view(&self) -> AssistantMessageModel {
        AssistantMessageModel {
            content: self.content@,
            name: option_text(self.name),
            tool_calls: tool_call_models(self.tool_calls@),
            function: self.function@,
        }
    }
}

impl View for ChatCompletionMessage {
    type V = MessageModel;

    open spec fn view(&self) -> MessageModel {
        match self {
            ChatCompletionMessage::System(message) => MessageModel::System(message@),
            ChatCompletionMessage::User(message) => MessageModel::User(message@),
            ChatCompletionMessage::Assistant(message) => MessageModel::Assistant(message@),
            ChatCompletionMessage::Tool(message) => MessageModel::Tool(message@),
        }
    }
}

/// The model of each message, in conversation order.
pub open spec fn message_models(messages: Seq<ChatCompletionMessage>) -> Seq<MessageModel> {
    messages.map_values(|message: ChatCompletionMessage| message@)
}

impl ToolCallType {
    /// The wire token of the variant.
    pub open spec fn token(self) -> Seq<char> {
        match self {
            ToolCallType::Function => "function"@,
        }
    }

    pub fn as_str(&self) -> (token: &'static str)
        ensures
            token@ == self.token(),
    {
        match self {
            ToolCallType::Function => "function",
        }
    }

    /// The variant that `token` stands for.
    pub open spec fn of_token(token: Seq<char>) -> Option<ToolCallType> {
        if token == "function"@ {
            Some(ToolCallType::Function)
        } else {
            None
        }
    }

    pub fn from_token(token: &str) -> (kind: Option<ToolCallType>)
        ensures
            kind == ToolCallType::of_token(token@),
    {
        if text_eq(token, "function") {
            Some(ToolCallType::Function)
        } else {
            None
        }
    }
}

impl Default for ToolCallType {
    fn default() -> (kind: Self)
        ensures
            kind == ToolCallType::Function,
    {
        ToolCallType::Function
    }
}

impl ToolCallModel {
    /// The tool call as a JSON object.
    pub open spec fn json(self) -> JsonModel {
        JsonModel::Object(
            one_member("id"@, JsonModel::String(self.id)) + one_member(
                "type"@,
                JsonModel::String(self.kind.token()),
            ),
        )
    }

    /// The tool call that a JSON value stands for: an object with a string
    /// `id` and a known `type`.
    pub open spec fn decode(v: JsonModel) -> Option<ToolCallModel> {
        match (required_text(v, "id"@), required_text(v, "type"@)) {
            (Some(id), Some(token)) => match ToolCallType::of_token(token) {
                Some(kind) => Some(ToolCallModel { id, kind }),
                None => None,
            },
            _ => None,
        }
    }
}

/// The JSON object of each tool call, in order.
pub open spec fn tool_calls_json(calls: Seq<ToolCallModel>) -> Seq<JsonModel> {
    calls.map_values(|call: ToolCallModel| call.json())
}

/// The tool calls that an array's items stand for, if each of them stands
/// for one.
pub open spec fn decode_tool_calls(items: Seq<JsonModel>) -> Option<Seq<ToolCallModel>> {
    if forall|i: int| 0 <= i < items.len() ==> (#[trigger] ToolCallModel::decode(items[i])) is Some {
        Some(items.map_values(|item: JsonModel| ToolCallModel::decode(item).unwrap()))
    } else {
        None
    }
}

impl TextMessageModel {
    /// The members of the message's JSON object: the role, the content, and
    /// the name where there is one.
    pub open spec fn members(self, role: Seq<char>) -> Seq<(Seq<char>, JsonModel)> {
        one_member("role"@, JsonModel::String(role)) + one_member(
            "content"@,
            JsonModel::String(self.content),
        ) + optional_member("name"@, text_value(self.name))
    }

    /// The message that a JSON object stands for, whatever its role.
    pub open spec fn decode(v: JsonModel) -> Option<TextMessageModel> {
        match (required_text(v, "content"@), optional_text(v, "name"@)) {
            (Some(content), Some(name)) => Some(TextMessageModel { content, name }),
            _ => None,
        }
    }
}

/// A list of tool calls as it goes on the wire: an array where there are any,
/// and nothing at all where there are none.
pub open spec fn tool_calls_value(calls: Seq<ToolCallModel>) -> Option<JsonModel> {
    if calls.len() == 0 {
        None
    } else {
        Some(JsonModel::Array(tool_calls_json(calls)))
    }
}

impl AssistantMessageModel {
    /// The members of the message's JSON object, in wire order.
    pub open spec fn members(self) -> Seq<(Seq<char>, JsonModel)> {
        one_member("role"@, JsonModel::String("assistant"@)) + one_member(
            "content"@,
            JsonModel::String(self.content),
        ) + optional_member("name"@, text_value(self.name)) + optional_member(
            "tool_calls"@,
            tool_calls_value(self.tool_calls),
        ) + one_member("function"@, JsonModel::String(self.function))
    }

    /// The assistant message that a JSON object stands for. A missing list
    /// of tool calls is an empty one.
    pub open spec fn decode(v: JsonModel) -> Option<AssistantMessageModel> {
        let tool_calls = match member(v, "tool_calls"@) {
            None => Some(Seq::<ToolCallModel>::empty()),
            Some(JsonModel::Array(items)) => decode_tool_calls(items),
            Some(_) => None,
        };
        match (
            required_text(v, "content"@),
            optional_text(v, "name"@),
            tool_calls,
            required_text(v, "function"@),
        ) {
            (Some(content), Some(name), Some(tool_calls), Some(function)) => Some(
                AssistantMessageModel { content, name, tool_calls, function },
            ),
            _ => None,
        }
    }
}

impl MessageModel {
    /// The wire tag of the message's role.
    pub open spec fn role(self) -> Seq<char> {
        match self {
            MessageModel::System(_) => "system"@,
            MessageModel::User(_) => "user"@,
            MessageModel::Assistant(_) => "assistant"@,
            MessageModel::Tool(_) => "tool"@,
        }
    }

    /// The message as a JSON object, tagged with its role.
    pub open spec fn json(self) -> JsonModel {
        match self {
            MessageModel::System(message) => JsonModel::Object(message.members("system"@)),
            MessageModel::User(message) => JsonModel::Object(message.members("user"@)),
            MessageModel::Assistant(message) => JsonModel::Object(message.members()),
            MessageModel::Tool(message) => JsonModel::Object(message.members("tool"@)),
        }
    }

    /// The message that a JSON value stands for: the `role` member picks the
    /// variant, the other members fill it. Members that no variant knows are
    /// passed over.
    pub open spec fn decode(v: JsonModel) -> Option<MessageModel> {
        match required_text(v, "role"@) {
            None => None,
            Some(role) => if role == "system"@ {
                match TextMessageModel::decode(v) {
                    Some(message) => Some(MessageModel::System(message)),
                    None => None,
                }
            } else if role == "user"@ {
                match TextMessageModel::decode(v) {
                    Some(message) => Some(MessageModel::User(message)),
                    None => None,
                }
            } else if role == "assistant"@ {
                match AssistantMessageModel::decode(v) {
                    Some(message) => Some(MessageModel::Assistant(message)),
                    None => None,
                }
            } else if role == "tool"@ {
                match TextMessageModel::decode(v) {
                    Some(message) => Some(MessageModel::Tool(message)),
                    None => None,
                }
            } else {
                None
            },
        }
    }
}

/// The JSON object of each message, in conversation order.
pub open spec fn messages_json(messages: Seq<MessageModel>) -> Seq<JsonModel> {
    messages.map_values(|message: MessageModel| message.json())
}

fn clone_text(text: &Option<String>) -> (copy: Option<String>)
    ensures
        copy == *text,
{
    match text {
        Some(t) => Some(t.clone()),
        None => None,
    }
}

fn as_text(text: &Option<String>) -> (borrowed: Option<&str>)
    ensures
        text_token(borrowed) == text_value(option_text(*text)),
{
    match text {
        Some(t) => Some(t.as_str()),
        None => None,
    }
}

fn owned_text(text: Option<&str>) -> (owned: Option<String>)
    ensures
        match text {
            Some(t) => option_text(owned) == Some(t@),
            None => option_text(owned) is None,
        },
{
    match text {
        Some(t) => Some(t.to_owned()),
        None => None,
    }
}

fn text_message_json(role: &str, content: &String, name: &Option<String>) -> (value: JsonValue)
    ensures
        value@ == JsonModel::Object(
            (TextMessageModel { content: content@, name: option_text(*name) }).members(role@),
        ),
{
    let mut members = members_with_text("role", role);
    push_text(&mut members, "content", content.as_str());
    push_optional_text(&mut members, "name", as_text(name));
    JsonValue::Object(members)
}

impl Clone for ToolCall {
    fn clone(&self) -> (copy: Self)
        ensures
            copy@ == self@,
    {
        ToolCall { id: self.id.clone(), kind: self.kind }
    }
}

impl Clone for SystemMessage {
    fn clone(&self) -> (copy: Self)
        ensures
            copy@ == self@,
    {
        SystemMessage { content: self.content.clone(), name: clone_text(&self.name) }
    }
}

impl Clone for UserMessage {
    fn clone(&self) -> (copy: Self)
        ensures
            copy@ == self@,
    {
        UserMessage { content: self.content.clone(), name: clone_text(&self.name) }
    }
}

impl Clone for ToolMessage {
    fn clone(&self) -> (copy: Self)
        ensures
            copy@ == self@,
    {
        ToolMessage { content: self.content.clone(), name: clone_text(&self.name) }
    }
}

impl Clone for AssistantMessage {
    fn clone(&self) -> (copy: Self)
        ensures
            copy@ == self@,
    {
        let mut tool_calls: Vec<ToolCall> = Vec::new();
        let mut i: usize = 0;
        while i < self.tool_calls.len()
            invariant
                i <= self.tool_calls.len(),
                tool_calls.len() == i,
                forall|j: int| 0 <= j < i ==> (#[trigger] tool_calls@[j])@ == self.tool_calls@[j]@,
            decreases self.tool_calls.len() - i,
        {
            tool_calls.push(self.tool_calls[i].clone());
            i += 1;
        }
        assert(tool_call_models(tool_calls@) =~= tool_call_models(self.tool_calls@));
        AssistantMessage {
            content: self.content.clone(),
            name: clone_text(&self.name),
            tool_calls,
            function: self.function.clone(),
        }
    }
}

impl Clone for ChatCompletionMessage {
    fn clone(&self) -> (copy: Self)
        ensures
            copy@ == self@,
    {
        match self {
            ChatCompletionMessage::System(message) => ChatCompletionMessage::System(
                message.clone(),
            ),
            ChatCompletionMessage::User(message) => ChatCompletionMessage::User(message.clone()),
            ChatCompletionMessage::Assistant(message) => ChatCompletionMessage::Assistant(
                message.clone(),
            ),
            ChatCompletionMessage::Tool(message) => ChatCompletionMessage::Tool(message.clone()),
        }
    }
}

impl ToolCall {
    /// The tool call as a JSON object: `id`, then `type`.
    pub fn to_json(&self) -> (value: JsonValue)
        ensures
            value@ == self@.json(),
    {
        let mut members = members_with_text("id", self.id.as_str());
        push_text(&mut members, "type", self.kind.as_str());
        JsonValue::Object(members)
    }

    /// Reads a tool call from a JSON value; `None` where the value is not
    /// an object with a string `id` and a known `type`.
    pub fn from_json(value: &JsonValue) -> (call: Option<ToolCall>)
        ensures
            match call {
                Some(c) => ToolCallModel::decode(value@) == Some(c@),
                None => ToolCallModel::decode(value@) is None,
            },
    {
        let id = match value.text("id") {
            Some(id) => id,
            None => {
                return None;
            },
        };
        let token = match value.text("type") {
            Some(token) => token,
            None => {
                return None;
            },
        };
        match ToolCallType::from_token(token) {
            Some(kind) => Some(ToolCall { id: id.to_owned(), kind }),
            None => None,
        }
    }
}

fn tool_calls_to_json(calls: &Vec<ToolCall>) -> (value: Option<JsonValue>)
    ensures
        option_model(value) == tool_calls_value(tool_call_models(calls@)),
{
    if calls.len() == 0 {
        return None;
    }
    let mut items: Vec<JsonValue> = Vec::new();
    let mut i: usize = 0;
    while i < calls.len()
        invariant
            i <= calls.len(),
            items.len() == i,
            forall|j: int| 0 <= j < i ==> (#[trigger] items@[j])@ == calls@[j]@.json(),
        decreases calls.len() - i,
    {
        items.push(calls[i].to_json());
        i += 1;
    }
    proof {
        lemma_models_of(items@);
        assert(models_of(items@) =~= tool_calls_json(tool_call_models(calls@)));
    }
    Some(JsonValue::Array(items))
}

fn tool_calls_from_json(items: &Vec<JsonValue>) -> (calls: Option<Vec<ToolCall>>)
    ensures
        match calls {
            Some(c) => decode_tool_calls(models_of(items@)) == Some(tool_call_models(c@)),
            None => decode_tool_calls(models_of(items@)) is None,
        },
{
    let mut calls: Vec<ToolCall> = Vec::new();
    let mut i: usize = 0;
    proof {
        lemma_models_of(items@);
    }
    while i < items.len()
        invariant
            i <= items.len(),
            calls.len() == i,
            models_of(items@).len() == items.len(),
            forall|j: int| 0 <= j < items.len() ==> (#[trigger] models_of(items@)[j]) == items@[j]@,
            forall|j: int|
                0 <= j < i ==> ToolCallModel::decode(items@[j]@) == Some((#[trigger] calls@[j])@),
        decreases items.len() - i,
    {
        match ToolCall::from_json(&items[i]) {
            Some(call) => {
                calls.push(call);
            },
            None => {
                assert(ToolCallModel::decode(models_of(items@)[i as int]) is None);
                return None;
            },
        }
        i += 1;
    }
    proof {
        let models = models_of(items@);
        assert forall|j: int| 0 <= j < models.len() implies (#[trigger] ToolCallModel::decode(
            models[j],
        )) is Some by {
            assert(ToolCallModel::decode(items@[j]@) == Some(calls@[j]@));
        }
        assert(models.map_values(|item: JsonModel| ToolCallModel::decode(item).unwrap())
            =~= tool_call_models(calls@)) by {
            assert forall|j: int| 0 <= j < models.len() implies ToolCallModel::decode(
                models[j],
            ).unwrap() == calls@[j]@ by {
                assert(ToolCallModel::decode(items@[j]@) == Some(calls@[j]@));
            }
        }
    }
    Some(calls)
}

impl AssistantMessage {
    fn to_json(&self) -> (value: JsonValue)
        ensures
            value@ == JsonModel::Object(self@.members()),
    {
        let mut members = members_with_text("role", "assistant");
        push_text(&mut members, "content", self.content.as_str());
        push_optional_text(&mut members, "name", as_text(&self.name));
        push_optional_member(&mut members, "tool_calls", tool_calls_to_json(&self.tool_calls));
        push_text(&mut members, "function", self.function.as_str());
        JsonValue::Object(members)
    }

    fn from_json(value: &JsonValue) -> (message: Option<AssistantMessage>)
        ensures
            match message {
                Some(m) => AssistantMessageModel::decode(value@) == Some(m@),
                None => AssistantMessageModel::decode(value@) is None,
            },
    {
        let content = match value.text("content") {
            Some(content) => content,
            None => {
                return None;
            },
        };
        let name = match value.optional_text("name") {
            Some(name) => name,
            None => {
                return None;
            },
        };
        let tool_calls = match value.get("tool_calls") {
            None => Vec::new(),
            Some(JsonValue::Array(items)) => match tool_calls_from_json(items) {
                Some(calls) => calls,
                None => {
                    return None;
                },
            },
            Some(_) => {
                return None;
            },
        };
        let function = match value.text("function") {
            Some(function) => function,
            None => {
                return None;
            },
        };
        assert(member(value@, "tool_calls"@) is None ==> tool_call_models(tool_calls@)
            =~= Seq::<ToolCallModel>::empty());
        Some(
            AssistantMessage {
                content: content.to_owned(),
                name: owned_text(name),
                tool_calls,
                function: function.to_owned(),
            },
        )
    }
}

fn text_message_from_json(value: &JsonValue) -> (fields: Option<(String, Option<String>)>)
    ensures
        match fields {
            Some((content, name)) => TextMessageModel::decode(value@) == Some(
                TextMessageModel { content: content@, name: option_text(name) },
            ),
            None => TextMessageModel::decode(value@) is None,
        },
{
    let content = match value.text("content") {
        Some(content) => content,
        None => {
            return None;
        },
    };
    match value.optional_text("name") {
        Some(name) => Some((content.to_owned(), owned_text(name))),
        None => None,
    }
}

impl ChatCompletionMessage {
    /// The wire tag of the message's role.
    pub fn role(&self) -> (tag: &'static str)
        ensures
            tag@ == self@.role(),
    {
        match self {
            ChatCompletionMessage::System(_) => "system",
            ChatCompletionMessage::User(_) => "user",
            ChatCompletionMessage::Assistant(_) => "assistant",
            ChatCompletionMessage::Tool(_) => "tool",
        }
    }

    /// The message as a JSON object: the role first, then the fields of the
    /// variant. A name that is not set and a list of tool calls that is
    /// empty leave no member.
    pub fn to_json(&self) -> (value: JsonValue)
        ensures
            value@ == self@.json(),
    {
        match self {
            ChatCompletionMessage::System(message) => text_message_json(
                "system",
                &message.content,
                &message.name,
            ),
            ChatCompletionMessage::User(message) => text_message_json(
                "user",
                &message.content,
                &message.name,
            ),
            ChatCompletionMessage::Assistant(message) => message.to_json(),
            ChatCompletionMessage::Tool(message) => text_message_json(
                "tool",
                &message.content,
                &message.name,
            ),
        }
    }

    /// Reads a message from a JSON value; `None` where the value is no
    /// object, names no known role, or lacks a field of that role.
    pub fn from_json(value: &JsonValue) -> (message: Option<ChatCompletionMessage>)
        ensures
            match message {
                Some(m) => MessageModel::decode(value@) == Some(m@),
                None => MessageModel::decode(value@) is None,
            },
    {
        let role = match value.text("role") {
            Some(role) => role,
            None => {
                return None;
            },
        };
        if text_eq(role, "system") {
            match text_message_from_json(value) {
                Some((content, name)) => Some(
                    ChatCompletionMessage::System(SystemMessage { content, name }),
                ),
                None => None,
            }
        } else if text_eq(role, "user") {
            match text_message_from_json(value) {
                Some((content, name)) => Some(
                    ChatCompletionMessage::User(UserMessage { content, name }),
                ),
                None => None,
            }
        } else if text_eq(role, "assistant") {
            match AssistantMessage::from_json(value) {
                Some(message) => Some(ChatCompletionMessage::Assistant(message)),
                None => None,
            }
        } else if text_eq(role, "tool") {
            match text_message_from_json(value) {
                Some((content, name)) => Some(
                    ChatCompletionMessage::Tool(ToolMessage { content, name }),
                ),
                None => None,
            }
        } else {
            None
        }
    }
}

fn clone_messages(messages: &Vec<ChatCompletionMessage>) -> (copy: Vec<ChatCompletionMessage>)
    ensures
        message_models(copy@) == message_models(messages@),
{
    let mut copy: Vec<ChatCompletionMessage> = Vec::new();
    let mut i: usize = 0;
    while i < messages.len()
        invariant
            i <= messages.len(),
            copy.len() == i,
            forall|j: int| 0 <= j < i ==> (#[trigger] copy@[j])@ == messages@[j]@,
        decreases messages.len() - i,
    {
        copy.push(messages[i].clone());
        i += 1;
    }
    assert(message_models(copy@) =~= message_models(messages@));
    copy
}

/// A conversation for the model to continue. It holds at least one message.
#[derive(Debug, PartialEq, Eq)]
pub struct ChatCompletionRequest {
    messages: Vec<ChatCompletionMessage>,
    model: String,
}

/// The mathematical model of a [`ChatCompletionRequest`].
pub struct ChatCompletionRequestModel {
    pub messages: Seq<MessageModel>,
    pub model: Seq<char>,
}

impl ChatCompletionRequestModel {
    /// The request as a JSON object: the messages in conversation order, then
    /// the model.
    pub open spec fn json(self) -> JsonModel {
        JsonModel::Object(
            one_member("messages"@, JsonModel::Array(messages_json(self.messages))) + one_member(
                "model"@,
                JsonModel::String(self.model),
            ),
        )
    }
}

impl View for ChatCompletionRequest {
    type V = ChatCompletionRequestModel;

    closed spec fn view(&self) -> ChatCompletionRequestModel {
        ChatCompletionRequestModel {
            messages: message_models(self.messages@),
            model: self.model@,
        }
    }
}

impl Clone for ChatCompletionRequest {
    fn clone(&self) -> (copy: Self)
        ensures
            copy@ == self@,
    {
        proof {
            use_type_invariant(self);
        }
        let messages = clone_messages(&self.messages);
        assert(messages@.len() == message_models(messages@).len());
        ChatCompletionRequest { messages, model: self.model.clone() }
    }
}

impl ChatCompletionRequest {
    #[verifier::type_invariant]
    spec fn has_messages(&self) -> bool {
        self.messages@.len() > 0
    }

    /// The messages, in conversation order.
    pub fn messages(&self) -> (messages: &Vec<ChatCompletionMessage>)
        ensures
            messages.len() > 0,
            message_models(messages@) == self@.messages,
    {
        proof {
            use_type_invariant(self);
        }
        &self.messages
    }

    /// The identifier of the model to ask.
    pub fn model(&self) -> (model: &str)
        ensures
            model@ == self@.model,
    {
        self.model.as_str()
    }

    /// The request as a JSON value.
    pub fn to_json(&self) -> (value: JsonValue)
        ensures
            self@.messages.len() > 0,
            value@ == self@.json(),
    {
        proof {
            use_type_invariant(self);
        }
        let mut items: Vec<JsonValue> = Vec::new();
        let mut i: usize = 0;
        while i < self.messages.len()
            invariant
                i <= self.messages.len(),
                items.len() == i,
                forall|j: int| 0 <= j < i ==> (#[trigger] items@[j])@ == self.messages@[j]@.json(),
            decreases self.messages.len() - i,
        {
            items.push(self.messages[i].to_json());
            i += 1;
        }
        proof {
            lemma_models_of(items@);
            assert(models_of(items@) =~= messages_json(self@.messages));
        }
        let mut members = members_with(
            "messages",
            JsonValue::Array(items),
        );
        push_text(&mut members, "model", self.model.as_str());
        JsonValue::Object(members)
    }
}

impl IntoRequest for ChatCompletionRequest {
    /// A `POST` to the chat endpoint with the request's JSON text as body.
    open spec fn request(&self) -> RequestModel {
        RequestModel {
            method: Method::Post,
            url: CHAT_COMPLETIONS_URL@,
            body: render(self@.json()),
        }
    }

    fn into_request(self) -> (request: Request) {
        Request {
            method: Method::Post,
            url: CHAT_COMPLETIONS_URL.to_owned(),
            body: self.to_json().to_bytes(),
        }
    }
}

/// One call of a setter of [`ChatCompletionRequestBuilder`].
pub enum ChatSetting {
    Messages(Seq<MessageModel>),
    Model(Seq<char>),
}

/// Collects the fields of a [`ChatCompletionRequest`] one by one.
#[derive(Debug, PartialEq, Eq)]
pub struct ChatCompletionRequestBuilder {
    messages: Option<Vec<ChatCompletionMessage>>,
    model: Option<String>,
}

/// The mathematical model of a [`ChatCompletionRequestBuilder`]: for each
/// field, the value last given to it, if any.
pub struct ChatCompletionRequestBuilderModel {
    pub messages: Option<Seq<MessageModel>>,
    pub model: Option<Seq<char>>,
}

impl ChatCompletionRequestBuilderModel {
    /// The builder with no field set.
    pub open spec fn empty() -> Self {
        ChatCompletionRequestBuilderModel { messages: None, model: None }
    }

    /// The builder after one setter call: that field holds the new value, the
    /// other is as before.
    pub open spec fn set(self, setting: ChatSetting) -> Self {
        match setting {
            ChatSetting::Messages(messages) => ChatCompletionRequestBuilderModel {
                messages: Some(messages),
                ..self
            },
            ChatSetting::Model(model) => ChatCompletionRequestBuilderModel {
                model: Some(model),
                ..self
            },
        }
    }

    /// What finishing yields: an error that names the first required field
    /// that was never set, `messages` before `model`; an error where the
    /// message list is empty; otherwise the request with both fields as set.
    pub open spec fn build(self) -> Result<ChatCompletionRequestModel, BuildErrorModel> {
        match (self.messages, self.model) {
            (None, _) => Err(BuildErrorModel::MissingField("messages"@)),
            (Some(_), None) => Err(BuildErrorModel::MissingField("model"@)),
            (Some(messages), Some(model)) => if messages.len() == 0 {
                Err(BuildErrorModel::EmptyMessages)
            } else {
                Ok(ChatCompletionRequestModel { messages, model })
            },
        }
    }
}

impl View for ChatCompletionRequestBuilder {
    type V = ChatCompletionRequestBuilderModel;

    closed spec fn view(&self) -> ChatCompletionRequestBuilderModel {
        ChatCompletionRequestBuilderModel {
            messages: match self.messages {
                Some(messages) => Some(message_models(messages@)),
                None => None,
            },
            model: option_text(self.model),
        }
    }
}

impl Clone for ChatCompletionRequestBuilder {
    fn clone(&self) -> (copy: Self)
        ensures
            copy@ == self@,
    {
        ChatCompletionRequestBuilder {
            messages: match &self.messages {
                Some(messages) => Some(clone_messages(messages)),
                None => None,
            },
            model: clone_text(&self.model),
        }
    }
}

impl Default for ChatCompletionRequestBuilder {
    fn default() -> (builder: Self)
        ensures
            builder@ == ChatCompletionRequestBuilderModel::empty(),
    {
        ChatCompletionRequestBuilder { messages: None, model: None }
    }
}

impl ChatCompletionRequestBuilder {
    /// Sets the conversation so far. Required, and not empty.
    pub fn messages(&mut self, value: Vec<ChatCompletionMessage>) -> (ret: &mut Self)
        ensures
            (*ret)@ == old(self)@.set(ChatSetting::Messages(message_models(value@))),
            *final(self) == *final(ret),
    {
        self.messages = Some(value);
        self
    }

    /// Sets the identifier of the model to ask. Required.
    pub fn model(&mut self, value: String) -> (ret: &mut Self)
        ensures
            (*ret)@ == old(self)@.set(ChatSetting::Model(value@)),
            *final(self) == *final(ret),
    {
        self.model = Some(value);
        self
    }

    /// Finishes the request. This is the one point of validation: it fails
    /// where a field was never set or the conversation is empty, and the
    /// builder can be used again.
    pub fn build(&self) -> (result: Result<ChatCompletionRequest, BuildError>)
        ensures
            match result {
                Ok(request) => self@.build() == Ok::<ChatCompletionRequestModel, BuildErrorModel>(
                    request@,
                ),
                Err(error) => self@.build() == Err::<ChatCompletionRequestModel, BuildErrorModel>(
                    error@,
                ),
            },
    {
        let messages = match &self.messages {
            Some(messages) => messages,
            None => {
                return Err(BuildError::MissingField("messages"));
            },
        };
        let model = match &self.model {
            Some(model) => model,
            None => {
                return Err(BuildError::MissingField("model"));
            },
        };
        if messages.len() == 0 {
            return Err(BuildError::EmptyMessages);
        }
        let copy = clone_messages(messages);
        assert(copy@.len() == message_models(copy@).len());
        Ok(ChatCompletionRequest { messages: copy, model: model.clone() })
    }
}

/// The answer of the chat endpoint. None of its fields is read yet.
#[derive(Debug, PartialEq, Eq)]
pub struct ChatCompletionResponse {}

impl Clone for ChatCompletionResponse {
    fn clone(&self) -> (copy: Self)
        ensures
            copy == *self,
    {
        ChatCompletionResponse {  }
    }
}

} // verus!
