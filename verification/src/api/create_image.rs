//! The image-generation endpoint: its request, the builder that finishes one,
//! and its answer.

use crate::error::{BuildError, BuildErrorModel};
use crate::json::{
    members_with_text, number_value, one_member, option_text, optional_member,
    push_optional_number, push_optional_text, push_text, render, text_token, text_value,
    JsonModel, JsonValue,
};
use crate::request::{IntoRequest, Method, Request, RequestModel};
use vstd::prelude::*;

verus! {

/// Where image requests go.
pub const IMAGE_GENERATIONS_URL: &'static str = "https://api.openai.com/v1/images/generations";

/// The model that draws. The set is closed and has one member.
#[derive(Debug, Clone, Copy, PartialEq, Eq, Structural)]
pub enum ImageModel {
    DallE3,
}

/// How much detail the image gets.
#[derive(Debug, Clone, Copy, PartialEq, Eq, Structural)]
pub enum ImageQuality {
    Standard,
    Hd,
}

/// How the image comes back: as a link or inline.
#[derive(Debug, Clone, Copy, PartialEq, Eq, Structural)]
pub enum ImageResponseFormat {
    Url,
    B64Json,
}

/// The picture's dimensions.
#[derive(Debug, Clone, Copy, PartialEq, Eq, Structural)]
pub enum ImageSize {
    Large,
    LargeWide,
    LargeTall,
}

/// The picture's look.
#[derive(Debug, Clone, Copy, PartialEq, Eq, Structural)]
pub enum ImageStyle {
    Vivid,
    Natural,
}

impl ImageModel {
    /// The variant that stands where none is chosen.
    pub open spec fn default_variant() -> Self {
        ImageModel::DallE3
    }

    /// The wire token of the variant.
    pub open spec fn token(self) -> Seq<char> {
        match self {
            ImageModel::DallE3 => "dall-e-3"@,
        }
    }

    pub fn as_str(&self) -> (token: &'static str)
        ensures
            token@ == self.token(),
    {
        match self {
            ImageModel::DallE3 => "dall-e-3",
        }
    }
}

impl ImageQuality {
    /// The variant that stands where none is chosen.
    pub open spec fn default_variant() -> Self {
        ImageQuality::Standard
    }

    /// The wire token of the variant.
    pub open spec fn token(self) -> Seq<char> {
        match self {
            ImageQuality::Standard => "standard"@,
            ImageQuality::Hd => "hd"@,
        }
    }

    pub fn as_str(&self) -> (token: &'static str)
        ensures
            token@ == self.token(),
    {
        match self {
            ImageQuality::Standard => "standard",
            ImageQuality::Hd => "hd",
        }
    }
}

impl ImageResponseFormat {
    /// The variant that stands where none is chosen.
    pub open spec fn default_variant() -> Self {
        ImageResponseFormat::Url
    }

    /// The wire token of the variant.
    pub open spec fn token(self) -> Seq<char> {
        match self {
            ImageResponseFormat::Url => "url"@,
            ImageResponseFormat::B64Json => "b64_json"@,
        }
    }

    pub fn as_str(&self) -> (token: &'static str)
        ensures
            token@ == self.token(),
    {
        match self {
            ImageResponseFormat::Url => "url",
            ImageResponseFormat::B64Json => "b64_json",
        }
    }
}

impl ImageSize {
    /// The variant that stands where none is chosen.
    pub open spec fn default_variant() -> Self {
        ImageSize::Large
    }

    /// The wire token of the variant.
    pub open spec fn token(self) -> Seq<char> {
        match self {
            ImageSize::Large => "1024x1024"@,
            ImageSize::LargeWide => "1792x1024"@,
            ImageSize::LargeTall => "1024x1792"@,
        }
    }

    pub fn as_str(&self) -> (token: &'static str)
        ensures
            token@ == self.token(),
    {
        match self {
            ImageSize::Large => "1024x1024",
            ImageSize::LargeWide => "1792x1024",
            ImageSize::LargeTall => "1024x1792",
        }
    }
}

impl ImageStyle {
    /// The variant that stands where none is chosen.
    pub open spec fn default_variant() -> Self {
        ImageStyle::Vivid
    }

    /// The wire token of the variant.
    pub open spec fn token(self) -> Seq<char> {
        match self {
            ImageStyle::Vivid => "vivid"@,
            ImageStyle::Natural => "natural"@,
        }
    }

    pub fn as_str(&self) -> (token: &'static str)
        ensures
            token@ == self.token(),
    {
        match self {
            ImageStyle::Vivid => "vivid",
            ImageStyle::Natural => "natural",
        }
    }
}

impl Default for ImageModel {
    fn default() -> (model: Self)
        ensures
            model == ImageModel::default_variant(),
    {
        ImageModel::DallE3
    }
}

impl Default for ImageQuality {
    fn default() -> (quality: Self)
        ensures
            quality == ImageQuality::default_variant(),
    {
        ImageQuality::Standard
    }
}

impl Default for ImageResponseFormat {
    fn default() -> (format: Self)
        ensures
            format == ImageResponseFormat::default_variant(),
    {
        ImageResponseFormat::Url
    }
}

impl Default for ImageSize {
    fn default() -> (size: Self)
        ensures
            size == ImageSize::default_variant(),
    {
        ImageSize::Large
    }
}

impl Default for ImageStyle {
    fn default() -> (style: Self)
        ensures
            style == ImageStyle::default_variant(),
    {
        ImageStyle::Vivid
    }
}

/// A request for images. Only `prompt` and `model` always go on the wire; each
/// of the others goes there when it is set, and is left to the service when it
/// is not.
#[derive(Debug, PartialEq, Eq)]
pub struct CreateImageRequest {
    /// What to draw.
    pub prompt: String,
    pub model: ImageModel,
    /// How many images to make. The count is optional: where it is not set,
    /// it is not sent, and the service makes as many as it does by default.
    pub n: Option<usize>,
    pub response_format: Option<ImageResponseFormat>,
    pub size: Option<ImageSize>,
    pub style: Option<ImageStyle>,
    pub quality: Option<ImageQuality>,
    /// An identifier of the end user, for abuse monitoring.
    pub user: Option<String>,
}

/// The mathematical model of a [`CreateImageRequest`].
pub struct CreateImageRequestModel {
    pub prompt: Seq<char>,
    pub model: ImageModel,
    pub n: Option<usize>,
    pub response_format: Option<ImageResponseFormat>,
    pub size: Option<ImageSize>,
    pub style: Option<ImageStyle>,
    pub quality: Option<ImageQuality>,
    pub user: Option<Seq<char>>,
}

impl View for CreateImageRequest {
    type V = CreateImageRequestModel;

    open spec fn view(&self) -> CreateImageRequestModel {
        CreateImageRequestModel {
            prompt: self.prompt@,
            model: self.model,
            n: self.n,
            response_format: self.response_format,
            size: self.size,
            style: self.style,
            quality: self.quality,
            user: option_text(self.user),
        }
    }
}

impl CreateImageRequestModel {
    /// The response format as it goes on the wire, where one is set.
    pub open spec fn response_format_value(self) -> Option<JsonModel> {
        match self.response_format {
            Some(format) => Some(JsonModel::String(format.token())),
            None => None,
        }
    }

    /// The size as it goes on the wire, where one is set.
    pub open spec fn size_value(self) -> Option<JsonModel> {
        match self.size {
            Some(size) => Some(JsonModel::String(size.token())),
            None => None,
        }
    }

    /// The style as it goes on the wire, where one is set.
    pub open spec fn style_value(self) -> Option<JsonModel> {
        match self.style {
            Some(style) => Some(JsonModel::String(style.token())),
            None => None,
        }
    }

    /// The quality as it goes on the wire, where one is set.
    pub open spec fn quality_value(self) -> Option<JsonModel> {
        match self.quality {
            Some(quality) => Some(JsonModel::String(quality.token())),
            None => None,
        }
    }

    /// The members of the request's JSON object, in wire order.
    pub open spec fn members(self) -> Seq<(Seq<char>, JsonModel)> {
        one_member("prompt"@, JsonModel::String(self.prompt)) + one_member(
            "model"@,
            JsonModel::String(self.model.token()),
        ) + optional_member("n"@, number_value(self.n)) + optional_member(
            "response_format"@,
            self.response_format_value(),
        ) + optional_member("size"@, self.size_value()) + optional_member(
            "style"@,
            self.style_value(),
        ) + optional_member("quality"@, self.quality_value()) + optional_member(
            "user"@,
            text_value(self.user),
        )
    }

    /// What the payload holds under each name: the prompt and the model
    /// always, each optional field where it is set, and nothing else.
    pub open spec fn field(self, key: Seq<char>) -> Option<JsonModel> {
        if key == "prompt"@ {
            Some(JsonModel::String(self.prompt))
        } else if key == "model"@ {
            Some(JsonModel::String(self.model.token()))
        } else if key == "n"@ {
            number_value(self.n)
        } else if key == "response_format"@ {
            self.response_format_value()
        } else if key == "size"@ {
            self.size_value()
        } else if key == "style"@ {
            self.style_value()
        } else if key == "quality"@ {
            self.quality_value()
        } else if key == "user"@ {
            text_value(self.user)
        } else {
            None
        }
    }

    /// The request as a JSON value.
    pub open spec fn json(self) -> JsonModel {
        JsonModel::Object(self.members())
    }
}

impl Clone for CreateImageRequest {
    fn clone(&self) -> (copy: Self)
        ensures
            copy == *self,
    {
        CreateImageRequest {
            prompt: self.prompt.clone(),
            model: self.model,
            n: self.n,
            response_format: self.response_format,
            size: self.size,
            style: self.style,
            quality: self.quality,
            user: match &self.user {
                Some(user) => Some(user.clone()),
                None => None,
            },
        }
    }
}

impl CreateImageRequest {
    /// A request for `prompt` with every other field left at its default.
    pub fn new(prompt: &str) -> (request: Self)
        ensures
            request@ == (CreateImageRequestModel {
                prompt: prompt@,
                model: ImageModel::DallE3,
                n: None,
                response_format: None,
                size: None,
                style: None,
                quality: None,
                user: None,
            }),
    {
        let mut builder = CreateImageRequestBuilder::default();
        builder.prompt(prompt);
        match builder.build() {
            Ok(request) => request,
            Err(_) => {
                proof {
                    assert(false);
                }
                vstd::pervasive::unreached()
            },
        }
    }

    /// The response format that the service will use: the one set, or the
    /// documented default where none is set.
    pub fn resolved_response_format(&self) -> (format: ImageResponseFormat)
        ensures
            format == match self.response_format {
                Some(set) => set,
                None => ImageResponseFormat::default_variant(),
            },
    {
        match self.response_format {
            Some(set) => set,
            None => ImageResponseFormat::default(),
        }
    }

    /// The size that the service will use: the one set, or the documented
    /// default where none is set.
    pub fn resolved_size(&self) -> (size: ImageSize)
        ensures
            size == match self.size {
                Some(set) => set,
                None => ImageSize::default_variant(),
            },
    {
        match self.size {
            Some(set) => set,
            None => ImageSize::default(),
        }
    }

    /// The style that the service will use: the one set, or the documented
    /// default where none is set.
    pub fn resolved_style(&self) -> (style: ImageStyle)
        ensures
            style == match self.style {
                Some(set) => set,
                None => ImageStyle::default_variant(),
            },
    {
        match self.style {
            Some(set) => set,
            None => ImageStyle::default(),
        }
    }

    /// The quality that the service will use: the one set, or the documented
    /// default where none is set.
    pub fn resolved_quality(&self) -> (quality: ImageQuality)
        ensures
            quality == match self.quality {
                Some(set) => set,
                None => ImageQuality::default_variant(),
            },
    {
        match self.quality {
            Some(set) => set,
            None => ImageQuality::default(),
        }
    }

    fn response_format_token(&self) -> (token: Option<&'static str>)
        ensures
            text_token(token) == self@.response_format_value(),
    {
        match self.response_format {
            Some(format) => Some(format.as_str()),
            None => None,
        }
    }

    fn size_token(&self) -> (token: Option<&'static str>)
        ensures
            text_token(token) == self@.size_value(),
    {
        match self.size {
            Some(size) => Some(size.as_str()),
            None => None,
        }
    }

    fn style_token(&self) -> (token: Option<&'static str>)
        ensures
            text_token(token) == self@.style_value(),
    {
        match self.style {
            Some(style) => Some(style.as_str()),
            None => None,
        }
    }

    fn quality_token(&self) -> (token: Option<&'static str>)
        ensures
            text_token(token) == self@.quality_value(),
    {
        match self.quality {
            Some(quality) => Some(quality.as_str()),
            None => None,
        }
    }

    fn user_text(&self) -> (text: Option<&str>)
        ensures
            text_token(text) == text_value(self@.user),
    {
        match &self.user {
            Some(user) => Some(user.as_str()),
            None => None,
        }
    }

    /// The request as a JSON value: `prompt` and `model`, then each optional
    /// field that is set, under its wire name.
    pub fn to_json(&self) -> (value: JsonValue)
        ensures
            value@ == self@.json(),
    {
        let mut members = members_with_text("prompt", self.prompt.as_str());
        push_text(&mut members, "model", self.model.as_str());
        push_optional_number(&mut members, "n", self.n);
        push_optional_text(&mut members, "response_format", self.response_format_token());
        push_optional_text(&mut members, "size", self.size_token());
        push_optional_text(&mut members, "style", self.style_token());
        push_optional_text(&mut members, "quality", self.quality_token());
        push_optional_text(&mut members, "user", self.user_text());
        JsonValue::Object(members)
    }
}

impl IntoRequest for CreateImageRequest {
    /// A `POST` to the image endpoint with the request's JSON text as body.
    open spec fn request(&self) -> RequestModel {
        RequestModel {
            method: Method::Post,
            url: IMAGE_GENERATIONS_URL@,
            body: render(self@.json()),
        }
    }

    fn into_request(self) -> (request: Request) {
        Request {
            method: Method::Post,
            url: IMAGE_GENERATIONS_URL.to_owned(),
            body: self.to_json().to_bytes(),
        }
    }
}

/// One call of a setter of [`CreateImageRequestBuilder`].
pub enum ImageSetting {
    Prompt(Seq<char>),
    Model(ImageModel),
    N(usize),
    ResponseFormat(ImageResponseFormat),
    Size(ImageSize),
    Style(ImageStyle),
    Quality(ImageQuality),
    User(Seq<char>),
}

/// Collects the fields of a [`CreateImageRequest`] one by one.
#[derive(Debug, PartialEq, Eq)]
pub struct CreateImageRequestBuilder {
    prompt: Option<String>,
    model: Option<ImageModel>,
    n: Option<usize>,
    response_format: Option<ImageResponseFormat>,
    size: Option<ImageSize>,
    style: Option<ImageStyle>,
    quality: Option<ImageQuality>,
    user: Option<String>,
}

/// The mathematical model of a [`CreateImageRequestBuilder`]: for each field,
/// the value last given to it, if any.
pub struct CreateImageRequestBuilderModel {
    pub prompt: Option<Seq<char>>,
    pub model: Option<ImageModel>,
    pub n: Option<usize>,
    pub response_format: Option<ImageResponseFormat>,
    pub size: Option<ImageSize>,
    pub style: Option<ImageStyle>,
    pub quality: Option<ImageQuality>,
    pub user: Option<Seq<char>>,
}

impl CreateImageRequestBuilderModel {
    /// The builder with no field set.
    pub open spec fn empty() -> Self {
        CreateImageRequestBuilderModel {
            prompt: None,
            model: None,
            n: None,
            response_format: None,
            size: None,
            style: None,
            quality: None,
            user: None,
        }
    }

    /// The builder after one setter call: that field holds the new value, the
    /// others are as before.
    pub open spec fn set(self, setting: ImageSetting) -> Self {
        match setting {
            ImageSetting::Prompt(prompt) => CreateImageRequestBuilderModel {
                prompt: Some(prompt),
                ..self
            },
            ImageSetting::Model(model) => CreateImageRequestBuilderModel {
                model: Some(model),
                ..self
            },
            ImageSetting::N(n) => CreateImageRequestBuilderModel { n: Some(n), ..self },
            ImageSetting::ResponseFormat(format) => CreateImageRequestBuilderModel {
                response_format: Some(format),
                ..self
            },
            ImageSetting::Size(size) => CreateImageRequestBuilderModel { size: Some(size), ..self },
            ImageSetting::Style(style) => CreateImageRequestBuilderModel {
                style: Some(style),
                ..self
            },
            ImageSetting::Quality(quality) => CreateImageRequestBuilderModel {
                quality: Some(quality),
                ..self
            },
            ImageSetting::User(user) => CreateImageRequestBuilderModel { user: Some(user), ..self },
        }
    }

    /// What finishing yields: an error that names `prompt` where it was never
    /// set; otherwise the request with the fields as set, and the model at
    /// its default where none was chosen.
    pub open spec fn build(self) -> Result<CreateImageRequestModel, BuildErrorModel> {
        match self.prompt {
            None => Err(BuildErrorModel::MissingField("prompt"@)),
            Some(prompt) => Ok(
                CreateImageRequestModel {
                    prompt,
                    model: match self.model {
                        Some(model) => model,
                        None => ImageModel::default_variant(),
                    },
                    n: self.n,
                    response_format: self.response_format,
                    size: self.size,
                    style: self.style,
                    quality: self.quality,
                    user: self.user,
                },
            ),
        }
    }
}

impl View for CreateImageRequestBuilder {
    type V = CreateImageRequestBuilderModel;

    closed spec fn view(&self) -> CreateImageRequestBuilderModel {
        CreateImageRequestBuilderModel {
            prompt: option_text(self.prompt),
            model: self.model,
            n: self.n,
            response_format: self.response_format,
            size: self.size,
            style: self.style,
            quality: self.quality,
            user: option_text(self.user),
        }
    }
}

impl Clone for CreateImageRequestBuilder {
    fn clone(&self) -> (copy: Self)
        ensures
            copy == *self,
    {
        CreateImageRequestBuilder {
            prompt: match &self.prompt {
                Some(prompt) => Some(prompt.clone()),
                None => None,
            },
            model: self.model,
            n: self.n,
            response_format: self.response_format,
            size: self.size,
            style: self.style,
            quality: self.quality,
            user: match &self.user {
                Some(user) => Some(user.clone()),
                None => None,
            },
        }
    }
}

impl Default for CreateImageRequestBuilder {
    fn default() -> (builder: Self)
        ensures
            builder@ == CreateImageRequestBuilderModel::empty(),
    {
        CreateImageRequestBuilder {
            prompt: None,
            model: None,
            n: None,
            response_format: None,
            size: None,
            style: None,
            quality: None,
            user: None,
        }
    }
}

impl CreateImageRequestBuilder {
    /// Sets what to draw. The one required field.
    pub fn prompt(&mut self, value: &str) -> (ret: &mut Self)
        ensures
            (*ret)@ == old(self)@.set(ImageSetting::Prompt(value@)),
            *final(self) == *final(ret),
    {
        self.prompt = Some(value.to_owned());
        self
    }

    /// Chooses the model that draws.
    pub fn model(&mut self, value: ImageModel) -> (ret: &mut Self)
        ensures
            (*ret)@ == old(self)@.set(ImageSetting::Model(value)),
            *final(self) == *final(ret),
    {
        self.model = Some(value);
        self
    }

    /// Sets how many images to make.
    pub fn n(&mut self, value: usize) -> (ret: &mut Self)
        ensures
            (*ret)@ == old(self)@.set(ImageSetting::N(value)),
            *final(self) == *final(ret),
    {
        self.n = Some(value);
        self
    }

    /// Chooses how the images come back.
    pub fn response_format(&mut self, value: ImageResponseFormat) -> (ret: &mut Self)
        ensures
            (*ret)@ == old(self)@.set(ImageSetting::ResponseFormat(value)),
            *final(self) == *final(ret),
    {
        self.response_format = Some(value);
        self
    }

    /// Chooses the picture's dimensions.
    pub fn size(&mut self, value: ImageSize) -> (ret: &mut Self)
        ensures
            (*ret)@ == old(self)@.set(ImageSetting::Size(value)),
            *final(self) == *final(ret),
    {
        self.size = Some(value);
        self
    }

    /// Chooses the picture's look.
    pub fn style(&mut self, value: ImageStyle) -> (ret: &mut Self)
        ensures
            (*ret)@ == old(self)@.set(ImageSetting::Style(value)),
            *final(self) == *final(ret),
    {
        self.style = Some(value);
        self
    }

    /// Chooses how much detail the images get.
    pub fn quality(&mut self, value: ImageQuality) -> (ret: &mut Self)
        ensures
            (*ret)@ == old(self)@.set(ImageSetting::Quality(value)),
            *final(self) == *final(ret),
    {
        self.quality = Some(value);
        self
    }

    /// Sets the identifier of the end user.
    pub fn user(&mut self, value: &str) -> (ret: &mut Self)
        ensures
            (*ret)@ == old(self)@.set(ImageSetting::User(value@)),
            *final(self) == *final(ret),
    {
        self.user = Some(value.to_owned());
        self
    }

    /// Finishes the request. This is the one point of validation: it fails
    /// exactly when no prompt was set, and the builder can be used again.
    pub fn build(&self) -> (result: Result<CreateImageRequest, BuildError>)
        ensures
            match result {
                Ok(request) => self@.build() == Ok::<CreateImageRequestModel, BuildErrorModel>(
                    request@,
                ),
                Err(error) => self@.build() == Err::<CreateImageRequestModel, BuildErrorModel>(
                    error@,
                ),
            },
    {
        match &self.prompt {
            None => Err(BuildError::MissingField("prompt")),
            Some(prompt) => Ok(
                CreateImageRequest {
                    prompt: prompt.clone(),
                    model: match self.model {
                        Some(model) => model,
                        None => ImageModel::default(),
                    },
                    n: self.n,
                    response_format: self.response_format,
                    size: self.size,
                    style: self.style,
                    quality: self.quality,
                    user: match &self.user {
                        Some(user) => Some(user.clone()),
                        None => None,
                    },
                },
            ),
        }
    }
}

/// One generated image: inline or as a link, never both, and the prompt as the
/// service rewrote it, if it did.
#[derive(Debug, PartialEq, Eq)]
pub struct CreateImageResponse {
    pub b64_json: Option<String>,
    pub url: Option<String>,
    pub revised_prompt: Option<String>,
}

impl CreateImageResponse {
    /// Whether the answer holds exactly one of the inline image and the
    /// link.
    pub open spec fn well_formed(&self) -> bool {
        (self.b64_json is Some) != (self.url is Some)
    }

    pub fn is_well_formed(&self) -> (ok: bool)
        ensures
            ok == self.well_formed(),
    {
        self.b64_json.is_some() != self.url.is_some()
    }
}

impl Clone for CreateImageResponse {
    fn clone(&self) -> (copy: Self)
        ensures
            copy == *self,
    {
        CreateImageResponse {
            b64_json: match &self.b64_json {
                Some(data) => Some(data.clone()),
                None => None,
            },
            url: match &self.url {
                Some(url) => Some(url.clone()),
                None => None,
            },
            revised_prompt: match &self.revised_prompt {
                Some(prompt) => Some(prompt.clone()),
                None => None,
            },
        }
    }
}

} // verus!
