//! What holds of every image request and of every run of its builder.

use crate::api::create_image::{
    CreateImageRequestBuilderModel, CreateImageRequestModel, ImageModel, ImageQuality,
    ImageResponseFormat, ImageSetting, ImageSize, ImageStyle,
};
use crate::error::BuildErrorModel;
use crate::json::{
    following_member_text, has_key, lemma_lookup_one, lemma_lookup_then_one,
    lemma_lookup_then_optional, lemma_render_following, lemma_render_then_one, member,
    member_text, number_value, one_member, optional_member, render, render_members, text_value,
    JsonModel, CLOSE_BRACE, COMMA, OPEN_BRACE,
};
use vstd::prelude::*;

verus! {

/// The builder's fields.
#[derive(PartialEq, Eq, Structural)]
pub enum ImageField {
    Prompt,
    Model,
    N,
    ResponseFormat,
    Size,
    Style,
    Quality,
    User,
}

impl ImageSetting {
    /// The field that the setter writes.
    pub open spec fn field(self) -> ImageField {
        match self {
            ImageSetting::Prompt(_) => ImageField::Prompt,
            ImageSetting::Model(_) => ImageField::Model,
            ImageSetting::N(_) => ImageField::N,
            ImageSetting::ResponseFormat(_) => ImageField::ResponseFormat,
            ImageSetting::Size(_) => ImageField::Size,
            ImageSetting::Style(_) => ImageField::Style,
            ImageSetting::Quality(_) => ImageField::Quality,
            ImageSetting::User(_) => ImageField::User,
        }
    }
}

/// The last of `settings` that writes `field`, if any does.
pub open spec fn last_setting(settings: Seq<ImageSetting>, field: ImageField) -> Option<
    ImageSetting,
>
    decreases settings.len(),
{
    if settings.len() == 0 {
        None
    } else if settings.last().field() == field {
        Some(settings.last())
    } else {
        last_setting(settings.drop_last(), field)
    }
}

/// No two of `settings` write the same field.
pub open spec fn no_field_twice(settings: Seq<ImageSetting>) -> bool {
    forall|i: int, j: int|
        0 <= i < j < settings.len() ==> (#[trigger] settings[i]).field() != (
        #[trigger] settings[j]).field()
}

impl CreateImageRequestBuilderModel {
    /// The builder after a run of setter calls, made in order.
    pub open spec fn set_all(self, settings: Seq<ImageSetting>) -> Self
        decreases settings.len(),
    {
        if settings.len() == 0 {
            self
        } else {
            self.set_all(settings.drop_last()).set(settings.last())
        }
    }
}

proof fn lemma_image_names()
    ensures
        "prompt"@.len() == 6 && "prompt"@[0] == 'p',
        "model"@.len() == 5 && "model"@[0] == 'm',
        "n"@.len() == 1,
        "response_format"@.len() == 15,
        "size"@.len() == 4 && "size"@[0] == 's',
        "style"@.len() == 5 && "style"@[0] == 's',
        "quality"@.len() == 7,
        "user"@.len() == 4 && "user"@[0] == 'u',
{
    reveal_strlit("prompt");
    reveal_strlit("model");
    reveal_strlit("n");
    reveal_strlit("response_format");
    reveal_strlit("size");
    reveal_strlit("style");
    reveal_strlit("quality");
    reveal_strlit("user");
}

/// The payload of a request holds under each name what `field` says: the
/// prompt and the model always, an optional field exactly when it is set, and
/// no member under any other name.
pub proof fn lemma_payload_fields(request: CreateImageRequestModel, key: Seq<char>)
    ensures
        member(request.json(), key) == request.field(key),
{
    lemma_image_names();
    let m1 = one_member("prompt"@, JsonModel::String(request.prompt));
    let m2 = m1 + one_member("model"@, JsonModel::String(request.model.token()));
    let m3 = m2 + optional_member("n"@, number_value(request.n));
    let m4 = m3 + optional_member("response_format"@, request.response_format_value());
    let m5 = m4 + optional_member("size"@, request.size_value());
    let m6 = m5 + optional_member("style"@, request.style_value());
    let m7 = m6 + optional_member("quality"@, request.quality_value());
    let m8 = m7 + optional_member("user"@, text_value(request.user));
    lemma_lookup_one("prompt"@, JsonModel::String(request.prompt), key);
    lemma_lookup_then_one(m1, "model"@, JsonModel::String(request.model.token()), key);
    lemma_lookup_then_optional(m2, "n"@, number_value(request.n), key);
    lemma_lookup_then_optional(m3, "response_format"@, request.response_format_value(), key);
    lemma_lookup_then_optional(m4, "size"@, request.size_value(), key);
    lemma_lookup_then_optional(m5, "style"@, request.style_value(), key);
    lemma_lookup_then_optional(m6, "quality"@, request.quality_value(), key);
    lemma_lookup_then_optional(m7, "user"@, text_value(request.user), key);
    assert(m8 == request.members());
}

/// The payload of a request, name by name: the prompt and the model are
/// always there, the model by its wire token; each optional field is there
/// with its value or token when it is set, and not there at all when it is
/// not.
pub proof fn lemma_payload_members(request: CreateImageRequestModel)
    ensures
        member(request.json(), "prompt"@) == Some(JsonModel::String(request.prompt)),
        member(request.json(), "model"@) == Some(JsonModel::String(request.model.token())),
        member(request.json(), "n"@) == number_value(request.n),
        member(request.json(), "response_format"@) == request.response_format_value(),
        member(request.json(), "size"@) == request.size_value(),
        member(request.json(), "style"@) == request.style_value(),
        member(request.json(), "quality"@) == request.quality_value(),
        member(request.json(), "user"@) == text_value(request.user),
{
    lemma_image_names();
    lemma_payload_fields(request, "prompt"@);
    lemma_payload_fields(request, "model"@);
    lemma_payload_fields(request, "n"@);
    lemma_payload_fields(request, "response_format"@);
    lemma_payload_fields(request, "size"@);
    lemma_payload_fields(request, "style"@);
    lemma_payload_fields(request, "quality"@);
    lemma_payload_fields(request, "user"@);
}

/// The text of a payload: between the braces the prompt and the model, and
/// after them, each with a comma before it and in this order, the count, the
/// response format, the size, the style, the quality and the user, as far as
/// they are set. A field that is not set adds not a byte.
pub proof fn lemma_payload_text(request: CreateImageRequestModel)
    ensures
        render(request.json()) == seq![OPEN_BRACE] + member_text(
            "prompt"@,
            JsonModel::String(request.prompt),
        ) + seq![COMMA] + member_text("model"@, JsonModel::String(request.model.token()))
            + following_member_text("n"@, number_value(request.n)) + following_member_text(
            "response_format"@,
            request.response_format_value(),
        ) + following_member_text("size"@, request.size_value()) + following_member_text(
            "style"@,
            request.style_value(),
        ) + following_member_text("quality"@, request.quality_value()) + following_member_text(
            "user"@,
            text_value(request.user),
        ) + seq![CLOSE_BRACE],
{
    let prompt = JsonModel::String(request.prompt);
    let model = JsonModel::String(request.model.token());
    let m0 = Seq::<(Seq<char>, JsonModel)>::empty();
    let m1 = one_member("prompt"@, prompt);
    let m2 = m1 + one_member("model"@, model);
    let m3 = m2 + optional_member("n"@, number_value(request.n));
    let m4 = m3 + optional_member("response_format"@, request.response_format_value());
    let m5 = m4 + optional_member("size"@, request.size_value());
    let m6 = m5 + optional_member("style"@, request.style_value());
    let m7 = m6 + optional_member("quality"@, request.quality_value());
    let m8 = m7 + optional_member("user"@, text_value(request.user));
    assert(m0 + seq![("prompt"@, prompt)] =~= m1);
    lemma_render_then_one(m0, "prompt"@, prompt);
    lemma_render_then_one(m1, "model"@, model);
    lemma_render_following(m2, "n"@, number_value(request.n));
    lemma_render_following(m3, "response_format"@, request.response_format_value());
    lemma_render_following(m4, "size"@, request.size_value());
    lemma_render_following(m5, "style"@, request.style_value());
    lemma_render_following(m6, "quality"@, request.quality_value());
    lemma_render_following(m7, "user"@, text_value(request.user));
    let t2 = member_text("prompt"@, prompt) + seq![COMMA] + member_text("model"@, model);
    let t3 = t2 + following_member_text("n"@, number_value(request.n));
    let t4 = t3 + following_member_text("response_format"@, request.response_format_value());
    let t5 = t4 + following_member_text("size"@, request.size_value());
    let t6 = t5 + following_member_text("style"@, request.style_value());
    let t7 = t6 + following_member_text("quality"@, request.quality_value());
    let t8 = t7 + following_member_text("user"@, text_value(request.user));
    assert(render_members(m8) == t8);
    assert(render(request.json()) =~= seq![OPEN_BRACE] + t8 + seq![CLOSE_BRACE]);
    assert(seq![OPEN_BRACE] + t8 =~= seq![OPEN_BRACE] + member_text("prompt"@, prompt) + seq![
        COMMA,
    ] + member_text("model"@, model) + following_member_text("n"@, number_value(request.n))
        + following_member_text("response_format"@, request.response_format_value())
        + following_member_text("size"@, request.size_value()) + following_member_text(
        "style"@,
        request.style_value(),
    ) + following_member_text("quality"@, request.quality_value()) + following_member_text(
        "user"@,
        text_value(request.user),
    ));
}

/// A field that was left unset on the builder is absent from the payload of
/// the finished request, and a field that was set is present: for each
/// optional field, the payload has the field's name exactly when the builder
/// holds a value for it.
pub proof fn lemma_unset_fields_are_absent(builder: CreateImageRequestBuilderModel)
    ensures
        builder.build() matches Ok(request) ==> {
            &&& has_key(request.json(), "n"@) <==> builder.n is Some
            &&& has_key(request.json(), "response_format"@) <==> builder.response_format is Some
            &&& has_key(request.json(), "size"@) <==> builder.size is Some
            &&& has_key(request.json(), "style"@) <==> builder.style is Some
            &&& has_key(request.json(), "quality"@) <==> builder.quality is Some
            &&& has_key(request.json(), "user"@) <==> builder.user is Some
        },
{
    if let Ok(request) = builder.build() {
        lemma_image_names();
        lemma_payload_fields(request, "n"@);
        lemma_payload_fields(request, "response_format"@);
        lemma_payload_fields(request, "size"@);
        lemma_payload_fields(request, "style"@);
        lemma_payload_fields(request, "quality"@);
        lemma_payload_fields(request, "user"@);
    }
}

/// Where no model is chosen, the finished request holds the default model,
/// and its payload names that model by its wire token.
pub proof fn lemma_unset_model_is_default(builder: CreateImageRequestBuilderModel)
    requires
        builder.model is None,
    ensures
        builder.build() matches Ok(request) ==> {
            &&& request.model == ImageModel::default_variant()
            &&& member(request.json(), "model"@) == Some(JsonModel::String("dall-e-3"@))
        },
{
    if let Ok(request) = builder.build() {
        lemma_image_names();
        lemma_payload_fields(request, "model"@);
    }
}

/// The default variant of each enumeration goes on the wire as the token
/// that the service documents as its default.
pub proof fn lemma_default_tokens()
    ensures
        ImageModel::default_variant().token() == "dall-e-3"@,
        ImageQuality::default_variant().token() == "standard"@,
        ImageResponseFormat::default_variant().token() == "url"@,
        ImageSize::default_variant().token() == "1024x1024"@,
        ImageStyle::default_variant().token() == "vivid"@,
{
}

/// Finishing fails, and names `prompt`, exactly when the prompt was not set.
pub proof fn lemma_missing_prompt(builder: CreateImageRequestBuilderModel)
    ensures
        builder.prompt is None <==> builder.build() == Err::<
            CreateImageRequestModel,
            BuildErrorModel,
        >(BuildErrorModel::MissingField("prompt"@)),
        builder.prompt is Some <==> builder.build() is Ok,
{
}

/// Two setters of different fields can be called in either order.
pub proof fn lemma_setters_commute(
    builder: CreateImageRequestBuilderModel,
    first: ImageSetting,
    second: ImageSetting,
)
    requires
        first.field() != second.field(),
    ensures
        builder.set(first).set(second) == builder.set(second).set(first),
{
}

/// Of two calls of the same setter the later one counts.
pub proof fn lemma_last_write_wins(
    builder: CreateImageRequestBuilderModel,
    first: ImageSetting,
    second: ImageSetting,
)
    requires
        first.field() == second.field(),
    ensures
        builder.set(first).set(second) == builder.set(second),
{
}

/// After a run of setter calls each field holds what the last call for that
/// field gave it, and what it held before where there was no such call.
pub proof fn lemma_set_all(builder: CreateImageRequestBuilderModel, settings: Seq<ImageSetting>)
    ensures
        ({
            let after = builder.set_all(settings);
            &&& after.prompt == match last_setting(settings, ImageField::Prompt) {
                Some(ImageSetting::Prompt(prompt)) => Some(prompt),
                _ => builder.prompt,
            }
            &&& after.model == match last_setting(settings, ImageField::Model) {
                Some(ImageSetting::Model(model)) => Some(model),
                _ => builder.model,
            }
            &&& after.n == match last_setting(settings, ImageField::N) {
                Some(ImageSetting::N(n)) => Some(n),
                _ => builder.n,
            }
            &&& after.response_format == match last_setting(settings, ImageField::ResponseFormat) {
                Some(ImageSetting::ResponseFormat(format)) => Some(format),
                _ => builder.response_format,
            }
            &&& after.size == match last_setting(settings, ImageField::Size) {
                Some(ImageSetting::Size(size)) => Some(size),
                _ => builder.size,
            }
            &&& after.style == match last_setting(settings, ImageField::Style) {
                Some(ImageSetting::Style(style)) => Some(style),
                _ => builder.style,
            }
            &&& after.quality == match last_setting(settings, ImageField::Quality) {
                Some(ImageSetting::Quality(quality)) => Some(quality),
                _ => builder.quality,
            }
            &&& after.user == match last_setting(settings, ImageField::User) {
                Some(ImageSetting::User(user)) => Some(user),
                _ => builder.user,
            }
        }),
    decreases settings.len(),
{
    if settings.len() > 0 {
        lemma_set_all(builder, settings.drop_last());
    }
}

/// What `last_setting` finds is one of the settings and writes the field
/// asked for; it finds nothing exactly when no setting writes that field.
pub proof fn lemma_last_setting(settings: Seq<ImageSetting>, field: ImageField)
    ensures
        match last_setting(settings, field) {
            Some(setting) => setting.field() == field && exists|i: int|
                0 <= i < settings.len() && settings[i] == setting,
            None => forall|i: int| 0 <= i < settings.len() ==> (#[trigger] settings[i]).field() != field,
        },
    decreases settings.len(),
{
    if settings.len() > 0 {
        let head = settings.drop_last();
        lemma_last_setting(head, field);
        if settings.last().field() == field {
            assert(settings[settings.len() - 1] == settings.last());
        } else {
            match last_setting(head, field) {
                Some(setting) => {
                    let i = choose|i: int| 0 <= i < head.len() && head[i] == setting;
                    assert(settings[i] == setting);
                },
                None => {
                    assert forall|i: int| 0 <= i < settings.len() implies (
                    #[trigger] settings[i]).field() != field by {
                        if i < head.len() {
                            assert(head[i] == settings[i]);
                        }
                    }
                },
            }
        }
    }
}

/// Two runs of setter calls that agree, for each field, on the last call for
/// that field leave the builder in the same state.
pub proof fn lemma_last_settings_decide(
    builder: CreateImageRequestBuilderModel,
    one: Seq<ImageSetting>,
    other: Seq<ImageSetting>,
)
    requires
        forall|field: ImageField| last_setting(one, field) == last_setting(other, field),
    ensures
        builder.set_all(one) == builder.set_all(other),
{
    lemma_set_all(builder, one);
    lemma_set_all(builder, other);
}

/// The order of setter calls does not matter: where no field is set twice,
/// the same calls made in any other order leave the same builder, which
/// finishes to the same request or the same error, and so to the same
/// payload.
pub proof fn lemma_order_independent(
    builder: CreateImageRequestBuilderModel,
    one: Seq<ImageSetting>,
    other: Seq<ImageSetting>,
)
    requires
        one.to_multiset() == other.to_multiset(),
        no_field_twice(one),
    ensures
        builder.set_all(one) == builder.set_all(other),
        builder.set_all(one).build() == builder.set_all(other).build(),
{
    assert forall|field: ImageField| last_setting(one, field) == last_setting(other, field) by {
        lemma_last_setting(one, field);
        lemma_last_setting(other, field);
        one.to_multiset_ensures();
        other.to_multiset_ensures();
        match last_setting(other, field) {
            Some(setting) => {
                assert(other.contains(setting));
                assert(one.to_multiset().count(setting) > 0);
                assert(one.contains(setting));
                let i = choose|i: int| 0 <= i < one.len() && one[i] == setting;
                match last_setting(one, field) {
                    Some(found) => {
                        let j = choose|j: int| 0 <= j < one.len() && one[j] == found;
                        if i != j {
                            if i < j {
                                assert(one[i].field() != one[j].field());
                            } else {
                                assert(one[j].field() != one[i].field());
                            }
                        }
                    },
                    None => {
                        assert(one[i].field() != field);
                    },
                }
            },
            None => {
                match last_setting(one, field) {
                    Some(found) => {
                        assert(one.contains(found));
                        assert(other.to_multiset().count(found) > 0);
                        assert(other.contains(found));
                        let j = choose|j: int| 0 <= j < other.len() && other[j] == found;
                        assert(other[j].field() != field);
                    },
                    None => {},
                }
            },
        }
    }
    lemma_last_settings_decide(builder, one, other);
}

/// A builder on which the prompt is never set cannot be finished, whatever
/// else is set on it.
pub proof fn lemma_prompt_never_set(settings: Seq<ImageSetting>)
    requires
        forall|i: int| 0 <= i < settings.len() ==> (#[trigger] settings[i]).field()
            != ImageField::Prompt,
    ensures
        CreateImageRequestBuilderModel::empty().set_all(settings).build() == Err::<
            CreateImageRequestModel,
            BuildErrorModel,
        >(BuildErrorModel::MissingField("prompt"@)),
{
    lemma_set_all(CreateImageRequestBuilderModel::empty(), settings);
    lemma_last_setting(settings, ImageField::Prompt);
}

} // verus!
