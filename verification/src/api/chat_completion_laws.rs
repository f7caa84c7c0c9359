//! What holds of every message and of every run of the chat builder.

use crate::api::chat_completion::{
    decode_tool_calls, tool_calls_json, tool_calls_value, AssistantMessageModel,
    ChatCompletionRequestBuilderModel, ChatCompletionRequestModel, ChatSetting, MessageModel,
    TextMessageModel, ToolCallModel,
};
use crate::error::BuildErrorModel;
use crate::json::{
    following_member_text, has_key, lemma_lookup_one, lemma_lookup_then_one,
    lemma_lookup_then_optional, lemma_render_following, lemma_render_then_one, lookup, member,
    member_text, one_member, optional_member, render, render_members, required_text, text_value,
    JsonModel, CLOSE_BRACE, COMMA, OPEN_BRACE,
};
use vstd::prelude::*;

verus! {

/// The builder's fields.
#[derive(PartialEq, Eq, Structural)]
pub enum ChatField {
    Messages,
    Model,
}

impl ChatSetting {
    /// The field that the setter writes.
    pub open spec fn field(self) -> ChatField {
        match self {
            ChatSetting::Messages(_) => ChatField::Messages,
            ChatSetting::Model(_) => ChatField::Model,
        }
    }
}

/// The last of `settings` that writes `field`, if any does.
pub open spec fn last_chat_setting(settings: Seq<ChatSetting>, field: ChatField) -> Option<
    ChatSetting,
>
    decreases settings.len(),
{
    if settings.len() == 0 {
        None
    } else if settings.last().field() == field {
        Some(settings.last())
    } else {
        last_chat_setting(settings.drop_last(), field)
    }
}

/// No two of `settings` write the same field.
pub open spec fn no_chat_field_twice(settings: Seq<ChatSetting>) -> bool {
    forall|i: int, j: int|
        0 <= i < j < settings.len() ==> (#[trigger] settings[i]).field() != (
        #[trigger] settings[j]).field()
}

impl ChatCompletionRequestBuilderModel {
    /// The builder after a run of setter calls, made in order.
    pub open spec fn set_all(self, settings: Seq<ChatSetting>) -> Self
        decreases settings.len(),
    {
        if settings.len() == 0 {
            self
        } else {
            self.set_all(settings.drop_last()).set(settings.last())
        }
    }
}

impl TextMessageModel {
    /// What the message's object holds under each name.
    pub open spec fn field(self, role: Seq<char>, key: Seq<char>) -> Option<JsonModel> {
        if key == "role"@ {
            Some(JsonModel::String(role))
        } else if key == "content"@ {
            Some(JsonModel::String(self.content))
        } else if key == "name"@ {
            text_value(self.name)
        } else {
            None
        }
    }
}

impl AssistantMessageModel {
    /// What the message's object holds under each name.
    pub open spec fn field(self, key: Seq<char>) -> Option<JsonModel> {
        if key == "role"@ {
            Some(JsonModel::String("assistant"@))
        } else if key == "content"@ {
            Some(JsonModel::String(self.content))
        } else if key == "name"@ {
            text_value(self.name)
        } else if key == "tool_calls"@ {
            tool_calls_value(self.tool_calls)
        } else if key == "function"@ {
            Some(JsonModel::String(self.function))
        } else {
            None
        }
    }
}

impl MessageModel {
    /// What the message's object holds under each name: the role tag, the
    /// fields of the variant that are set, and nothing else.
    pub open spec fn field(self, key: Seq<char>) -> Option<JsonModel> {
        match self {
            MessageModel::System(message) => message.field("system"@, key),
            MessageModel::User(message) => message.field("user"@, key),
            MessageModel::Assistant(message) => message.field(key),
            MessageModel::Tool(message) => message.field("tool"@, key),
        }
    }
}

proof fn lemma_chat_names()
    ensures
        "role"@.len() == 4 && "role"@[0] == 'r',
        "content"@.len() == 7,
        "name"@.len() == 4 && "name"@[0] == 'n',
        "tool_calls"@.len() == 10,
        "function"@.len() == 8,
        "id"@.len() == 2,
        "type"@.len() == 4,
        "system"@.len() == 6,
        "user"@.len() == 4 && "user"@[0] == 'u',
        "assistant"@.len() == 9,
        "tool"@.len() == 4 && "tool"@[0] == 't',
        "messages"@.len() == 8,
        "model"@.len() == 5,
{
    reveal_strlit("role");
    reveal_strlit("content");
    reveal_strlit("name");
    reveal_strlit("tool_calls");
    reveal_strlit("function");
    reveal_strlit("id");
    reveal_strlit("type");
    reveal_strlit("system");
    reveal_strlit("user");
    reveal_strlit("assistant");
    reveal_strlit("tool");
    reveal_strlit("messages");
    reveal_strlit("model");
}

proof fn lemma_text_message_fields(message: TextMessageModel, role: Seq<char>, key: Seq<char>)
    ensures
        lookup(message.members(role), key) == message.field(role, key),
{
    lemma_chat_names();
    let m1 = one_member("role"@, JsonModel::String(role));
    let m2 = m1 + one_member("content"@, JsonModel::String(message.content));
    lemma_lookup_one("role"@, JsonModel::String(role), key);
    lemma_lookup_then_one(m1, "content"@, JsonModel::String(message.content), key);
    lemma_lookup_then_optional(m2, "name"@, text_value(message.name), key);
}

proof fn lemma_assistant_fields(message: AssistantMessageModel, key: Seq<char>)
    ensures
        lookup(message.members(), key) == message.field(key),
{
    lemma_chat_names();
    let m1 = one_member("role"@, JsonModel::String("assistant"@));
    let m2 = m1 + one_member("content"@, JsonModel::String(message.content));
    let m3 = m2 + optional_member("name"@, text_value(message.name));
    let m4 = m3 + optional_member("tool_calls"@, tool_calls_value(message.tool_calls));
    lemma_lookup_one("role"@, JsonModel::String("assistant"@), key);
    lemma_lookup_then_one(m1, "content"@, JsonModel::String(message.content), key);
    lemma_lookup_then_optional(m2, "name"@, text_value(message.name), key);
    lemma_lookup_then_optional(m3, "tool_calls"@, tool_calls_value(message.tool_calls), key);
    lemma_lookup_then_one(m4, "function"@, JsonModel::String(message.function), key);
}

/// The object of a message holds under each name what `field` says.
pub proof fn lemma_message_fields(message: MessageModel, key: Seq<char>)
    ensures
        member(message.json(), key) == message.field(key),
{
    match message {
        MessageModel::System(m) => lemma_text_message_fields(m, "system"@, key),
        MessageModel::User(m) => lemma_text_message_fields(m, "user"@, key),
        MessageModel::Assistant(m) => lemma_assistant_fields(m, key),
        MessageModel::Tool(m) => lemma_text_message_fields(m, "tool"@, key),
    }
}

/// The object of a message, name by name: the role tag of the variant and
/// the content are always there; the name is there exactly when the message
/// has one; the tool calls and the function are there only in the
/// assistant's message, the tool calls exactly when there is at least one.
pub proof fn lemma_message_members(message: MessageModel)
    ensures
        member(message.json(), "role"@) == Some(JsonModel::String(message.role())),
        member(message.json(), "content"@) == Some(
            JsonModel::String(
                match message {
                    MessageModel::System(m) => m.content,
                    MessageModel::User(m) => m.content,
                    MessageModel::Assistant(m) => m.content,
                    MessageModel::Tool(m) => m.content,
                },
            ),
        ),
        member(message.json(), "name"@) == text_value(
            match message {
                MessageModel::System(m) => m.name,
                MessageModel::User(m) => m.name,
                MessageModel::Assistant(m) => m.name,
                MessageModel::Tool(m) => m.name,
            },
        ),
        member(message.json(), "tool_calls"@) == match message {
            MessageModel::Assistant(m) => tool_calls_value(m.tool_calls),
            _ => None,
        },
        member(message.json(), "function"@) == match message {
            MessageModel::Assistant(m) => Some(JsonModel::String(m.function)),
            _ => None,
        },
        has_key(message.json(), "tool_calls"@) <==> (message matches MessageModel::Assistant(m)
            && m.tool_calls.len() > 0),
{
    lemma_chat_names();
    lemma_message_fields(message, "role"@);
    lemma_message_fields(message, "content"@);
    lemma_message_fields(message, "name"@);
    lemma_message_fields(message, "tool_calls"@);
    lemma_message_fields(message, "function"@);
}

proof fn lemma_text_message_text(message: TextMessageModel, role: Seq<char>)
    ensures
        render(JsonModel::Object(message.members(role))) == seq![OPEN_BRACE] + member_text(
            "role"@,
            JsonModel::String(role),
        ) + seq![COMMA] + member_text("content"@, JsonModel::String(message.content))
            + following_member_text("name"@, text_value(message.name)) + seq![CLOSE_BRACE],
{
    let tag = JsonModel::String(role);
    let content = JsonModel::String(message.content);
    let m0 = Seq::<(Seq<char>, JsonModel)>::empty();
    let m1 = one_member("role"@, tag);
    let m2 = m1 + one_member("content"@, content);
    let m3 = m2 + optional_member("name"@, text_value(message.name));
    assert(m0 + seq![("role"@, tag)] =~= m1);
    lemma_render_then_one(m0, "role"@, tag);
    lemma_render_then_one(m1, "content"@, content);
    lemma_render_following(m2, "name"@, text_value(message.name));
    let t3 = member_text("role"@, tag) + seq![COMMA] + member_text("content"@, content)
        + following_member_text("name"@, text_value(message.name));
    assert(render_members(m3) == t3);
    assert(render(JsonModel::Object(m3)) =~= seq![OPEN_BRACE] + t3 + seq![CLOSE_BRACE]);
    assert(seq![OPEN_BRACE] + t3 =~= seq![OPEN_BRACE] + member_text("role"@, tag) + seq![COMMA]
        + member_text("content"@, content) + following_member_text(
        "name"@,
        text_value(message.name),
    ));
}

/// The text of a message: between the braces the role tag and the content,
/// then the name where the message has one; in the assistant's message
/// then the tool calls where there are any, and the function. What is not
/// set adds not a byte.
pub proof fn lemma_message_text(message: MessageModel)
    ensures
        render(message.json()) == match message {
            MessageModel::Assistant(m) => seq![OPEN_BRACE] + member_text(
                "role"@,
                JsonModel::String("assistant"@),
            ) + seq![COMMA] + member_text("content"@, JsonModel::String(m.content))
                + following_member_text("name"@, text_value(m.name)) + following_member_text(
                "tool_calls"@,
                tool_calls_value(m.tool_calls),
            ) + seq![COMMA] + member_text("function"@, JsonModel::String(m.function)) + seq![
                CLOSE_BRACE,
            ],
            MessageModel::System(m) => seq![OPEN_BRACE] + member_text(
                "role"@,
                JsonModel::String("system"@),
            ) + seq![COMMA] + member_text("content"@, JsonModel::String(m.content))
                + following_member_text("name"@, text_value(m.name)) + seq![CLOSE_BRACE],
            MessageModel::User(m) => seq![OPEN_BRACE] + member_text(
                "role"@,
                JsonModel::String("user"@),
            ) + seq![COMMA] + member_text("content"@, JsonModel::String(m.content))
                + following_member_text("name"@, text_value(m.name)) + seq![CLOSE_BRACE],
            MessageModel::Tool(m) => seq![OPEN_BRACE] + member_text(
                "role"@,
                JsonModel::String("tool"@),
            ) + seq![COMMA] + member_text("content"@, JsonModel::String(m.content))
                + following_member_text("name"@, text_value(m.name)) + seq![CLOSE_BRACE],
        },
{
    match message {
        MessageModel::System(m) => lemma_text_message_text(m, "system"@),
        MessageModel::User(m) => lemma_text_message_text(m, "user"@),
        MessageModel::Tool(m) => lemma_text_message_text(m, "tool"@),
        MessageModel::Assistant(m) => {
            let tag = JsonModel::String("assistant"@);
            let content = JsonModel::String(m.content);
            let function = JsonModel::String(m.function);
            let m0 = Seq::<(Seq<char>, JsonModel)>::empty();
            let m1 = one_member("role"@, tag);
            let m2 = m1 + one_member("content"@, content);
            let m3 = m2 + optional_member("name"@, text_value(m.name));
            let m4 = m3 + optional_member("tool_calls"@, tool_calls_value(m.tool_calls));
            let m5 = m4 + one_member("function"@, function);
            assert(m0 + seq![("role"@, tag)] =~= m1);
            lemma_render_then_one(m0, "role"@, tag);
            lemma_render_then_one(m1, "content"@, content);
            lemma_render_following(m2, "name"@, text_value(m.name));
            lemma_render_following(m3, "tool_calls"@, tool_calls_value(m.tool_calls));
            lemma_render_then_one(m4, "function"@, function);
            let t4 = member_text("role"@, tag) + seq![COMMA] + member_text("content"@, content)
                + following_member_text("name"@, text_value(m.name)) + following_member_text(
                "tool_calls"@,
                tool_calls_value(m.tool_calls),
            );
            assert(render_members(m4) == t4);
            let t5 = t4 + seq![COMMA] + member_text("function"@, function);
            assert(render_members(m5) == t5);
            assert(render(JsonModel::Object(m5)) =~= seq![OPEN_BRACE] + t5 + seq![CLOSE_BRACE]);
            assert(seq![OPEN_BRACE] + t5 =~= seq![OPEN_BRACE] + member_text("role"@, tag) + seq![
                COMMA,
            ] + member_text("content"@, content) + following_member_text(
                "name"@,
                text_value(m.name),
            ) + following_member_text("tool_calls"@, tool_calls_value(m.tool_calls)) + seq![COMMA]
                + member_text("function"@, function));
        },
    }
}

/// A tool call that is written and read back is the same tool call.
pub proof fn lemma_tool_call_round_trip(call: ToolCallModel)
    ensures
        ToolCallModel::decode(call.json()) == Some(call),
{
    lemma_chat_names();
    let m1 = one_member("id"@, JsonModel::String(call.id));
    lemma_lookup_one("id"@, JsonModel::String(call.id), "id"@);
    lemma_lookup_one("id"@, JsonModel::String(call.id), "type"@);
    lemma_lookup_then_one(m1, "type"@, JsonModel::String(call.kind.token()), "id"@);
    lemma_lookup_then_one(m1, "type"@, JsonModel::String(call.kind.token()), "type"@);
}

/// A list of tool calls that is written and read back is the same list.
pub proof fn lemma_tool_calls_round_trip(calls: Seq<ToolCallModel>)
    ensures
        decode_tool_calls(tool_calls_json(calls)) == Some(calls),
{
    let items = tool_calls_json(calls);
    assert forall|i: int| 0 <= i < items.len() implies (#[trigger] ToolCallModel::decode(
        items[i],
    )) == Some(calls[i]) by {
        lemma_tool_call_round_trip(calls[i]);
    }
    assert(items.map_values(|item: JsonModel| ToolCallModel::decode(item).unwrap()) =~= calls);
}

/// A message that is written as JSON and read back is the same message: the
/// same variant with the same fields. The `role` member of what was written
/// is the tag of the variant.
pub proof fn lemma_message_round_trip(message: MessageModel)
    ensures
        MessageModel::decode(message.json()) == Some(message),
        required_text(message.json(), "role"@) == Some(message.role()),
{
    lemma_chat_names();
    lemma_message_fields(message, "role"@);
    lemma_message_fields(message, "content"@);
    lemma_message_fields(message, "name"@);
    lemma_message_fields(message, "tool_calls"@);
    lemma_message_fields(message, "function"@);
    match message {
        MessageModel::Assistant(m) => {
            lemma_tool_calls_round_trip(m.tool_calls);
            if m.tool_calls.len() == 0 {
                assert(m.tool_calls =~= Seq::<ToolCallModel>::empty());
            }
            assert(AssistantMessageModel::decode(message.json()) == Some(m));
        },
        MessageModel::System(m) => {
            assert(TextMessageModel::decode(message.json()) == Some(m));
        },
        MessageModel::User(m) => {
            assert(TextMessageModel::decode(message.json()) == Some(m));
        },
        MessageModel::Tool(m) => {
            assert(TextMessageModel::decode(message.json()) == Some(m));
        },
    }
}

/// When finishing fails and when it succeeds: it names `messages` exactly
/// when no message list was set; it names `model` exactly when a list was
/// set and no model; it reports an empty conversation exactly when both were
/// set and the list holds no message; and in every other case it yields the
/// request with the list and the model as set.
pub proof fn lemma_chat_build(builder: ChatCompletionRequestBuilderModel)
    ensures
        builder.messages is None <==> builder.build() == Err::<
            ChatCompletionRequestModel,
            BuildErrorModel,
        >(BuildErrorModel::MissingField("messages"@)),
        (builder.messages is Some && builder.model is None) <==> builder.build() == Err::<
            ChatCompletionRequestModel,
            BuildErrorModel,
        >(BuildErrorModel::MissingField("model"@)),
        (builder.messages matches Some(messages) && builder.model is Some && messages.len() == 0)
            <==> builder.build() == Err::<ChatCompletionRequestModel, BuildErrorModel>(
            BuildErrorModel::EmptyMessages,
        ),
        (builder.messages matches Some(messages) && builder.model is Some && messages.len() > 0)
            <==> builder.build() is Ok,
        builder.build() matches Ok(request) ==> Some(request.messages) == builder.messages && Some(
            request.model,
        ) == builder.model,
{
    lemma_chat_names();
}

/// Two setters of different fields can be called in either order.
pub proof fn lemma_chat_setters_commute(
    builder: ChatCompletionRequestBuilderModel,
    first: ChatSetting,
    second: ChatSetting,
)
    requires
        first.field() != second.field(),
    ensures
        builder.set(first).set(second) == builder.set(second).set(first),
{
}

/// Of two calls of the same setter the later one counts.
pub proof fn lemma_chat_last_write_wins(
    builder: ChatCompletionRequestBuilderModel,
    first: ChatSetting,
    second: ChatSetting,
)
    requires
        first.field() == second.field(),
    ensures
        builder.set(first).set(second) == builder.set(second),
{
}

/// After a run of setter calls each field holds what the last call for that
/// field gave it, and what it held before where there was no such call.
pub proof fn lemma_chat_set_all(
    builder: ChatCompletionRequestBuilderModel,
    settings: Seq<ChatSetting>,
)
    ensures
        ({
            let after = builder.set_all(settings);
            &&& after.messages == match last_chat_setting(settings, ChatField::Messages) {
                Some(ChatSetting::Messages(messages)) => Some(messages),
                _ => builder.messages,
            }
            &&& after.model == match last_chat_setting(settings, ChatField::Model) {
                Some(ChatSetting::Model(model)) => Some(model),
                _ => builder.model,
            }
        }),
    decreases settings.len(),
{
    if settings.len() > 0 {
        lemma_chat_set_all(builder, settings.drop_last());
    }
}

/// What `last_chat_setting` finds is one of the settings and writes the field
/// asked for; it finds nothing exactly when no setting writes that field.
pub proof fn lemma_last_chat_setting(settings: Seq<ChatSetting>, field: ChatField)
    ensures
        match last_chat_setting(settings, field) {
            Some(setting) => setting.field() == field && exists|i: int|
                0 <= i < settings.len() && settings[i] == setting,
            None => forall|i: int| 0 <= i < settings.len() ==> (#[trigger] settings[i]).field() != field,
        },
    decreases settings.len(),
{
    if settings.len() > 0 {
        let head = settings.drop_last();
        lemma_last_chat_setting(head, field);
        if settings.last().field() == field {
            assert(settings[settings.len() - 1] == settings.last());
        } else {
            match last_chat_setting(head, field) {
                Some(setting) => {
                    let i = choose|i: int| 0 <= i < head.len() && head[i] == setting;
                    assert(settings[i] == setting);
                },
                None => {
                    assert forall|i: int| 0 <= i < settings.len() implies (
                    #[trigger] settings[i]).field() != field by {
                        if i < head.len() {
                            assert(head[i] == settings[i]);
                        }
                    }
                },
            }
        }
    }
}

/// Two runs of setter calls that agree, for each field, on the last call for
/// that field leave the builder in the same state.
pub proof fn lemma_last_chat_settings_decide(
    builder: ChatCompletionRequestBuilderModel,
    one: Seq<ChatSetting>,
    other: Seq<ChatSetting>,
)
    requires
        forall|field: ChatField| last_chat_setting(one, field) == last_chat_setting(other, field),
    ensures
        builder.set_all(one) == builder.set_all(other),
{
    lemma_chat_set_all(builder, one);
    lemma_chat_set_all(builder, other);
}

/// The order of setter calls does not matter: where no field is set twice,
/// the same calls made in any other order leave the same builder, which
/// finishes to the same request or the same error, and so to the same
/// payload.
pub proof fn lemma_chat_order_independent(
    builder: ChatCompletionRequestBuilderModel,
    one: Seq<ChatSetting>,
    other: Seq<ChatSetting>,
)
    requires
        one.to_multiset() == other.to_multiset(),
        no_chat_field_twice(one),
    ensures
        builder.set_all(one) == builder.set_all(other),
        builder.set_all(one).build() == builder.set_all(other).build(),
{
    assert forall|field: ChatField| last_chat_setting(one, field) == last_chat_setting(
        other,
        field,
    ) by {
        lemma_last_chat_setting(one, field);
        lemma_last_chat_setting(other, field);
        one.to_multiset_ensures();
        other.to_multiset_ensures();
        match last_chat_setting(other, field) {
            Some(setting) => {
                assert(other.contains(setting));
                assert(one.to_multiset().count(setting) > 0);
                assert(one.contains(setting));
                let i = choose|i: int| 0 <= i < one.len() && one[i] == setting;
                match last_chat_setting(one, field) {
                    Some(found) => {
                        let j = choose|j: int| 0 <= j < one.len() && one[j] == found;
                        if i != j {
                            if i < j {
                                assert(one[i].field() != one[j].field());
                            } else {
                                assert(one[j].field() != one[i].field());
                            }
                        }
                    },
                    None => {
                        assert(one[i].field() != field);
                    },
                }
            },
            None => {
                match last_chat_setting(one, field) {
                    Some(found) => {
                        assert(one.contains(found));
                        assert(other.to_multiset().count(found) > 0);
                        assert(other.contains(found));
                        let j = choose|j: int| 0 <= j < other.len() && other[j] == found;
                        assert(other[j].field() != field);
                    },
                    None => {},
                }
            },
        }
    }
    lemma_last_chat_settings_decide(builder, one, other);
}

/// A builder on which a required field is never set cannot be finished,
/// whatever else is set on it: the error names the message list where that
/// was never set, and the model where only that was never set.
pub proof fn lemma_chat_field_never_set(settings: Seq<ChatSetting>)
    ensures
        (forall|i: int| 0 <= i < settings.len() ==> (#[trigger] settings[i]).field()
            != ChatField::Messages) ==> ChatCompletionRequestBuilderModel::empty().set_all(
            settings,
        ).build() == Err::<ChatCompletionRequestModel, BuildErrorModel>(
            BuildErrorModel::MissingField("messages"@),
        ),
        (forall|i: int| 0 <= i < settings.len() ==> (#[trigger] settings[i]).field()
            != ChatField::Model) ==> ChatCompletionRequestBuilderModel::empty().set_all(
            settings,
        ).build() is Err,
{
    lemma_chat_set_all(ChatCompletionRequestBuilderModel::empty(), settings);
    lemma_last_chat_setting(settings, ChatField::Messages);
    lemma_last_chat_setting(settings, ChatField::Model);
}

} // verus!
