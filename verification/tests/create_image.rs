use llm_sdk::{
    BuildError, CreateImageRequest, CreateImageRequestBuilder, CreateImageResponse, ImageModel, ImageQuality,
    ImageResponseFormat, ImageSize, ImageStyle, IntoRequest, JsonValue, Method,
    IMAGE_GENERATIONS_URL,
};
use serde_json::Value;

fn text_of(request: &CreateImageRequest) -> String {
    String::from_utf8(request.to_json().to_bytes()).unwrap()
}

#[test]
fn create_image_request_custom_should_serialize() {
    let req = CreateImageRequestBuilder::default()
        .prompt("draw a cute caterpillar")
        .style(ImageStyle::Vivid)
        .quality(ImageQuality::Hd)
        .build()
        .unwrap();
    let mut expected = serde_json::Map::new();
    expected.insert(
        "prompt".to_string(),
        Value::String("draw a cute caterpillar".to_string()),
    );
    expected.insert("model".to_string(), Value::String("dall-e-3".to_string()));
    expected.insert("style".to_string(), Value::String("vivid".to_string()));
    expected.insert("quality".to_string(), Value::String("hd".to_string()));
    let body = req.to_json().to_bytes();
    assert_eq!(
        serde_json::from_slice::<Value>(&body).unwrap(),
        Value::Object(expected)
    );
}

#[test]
fn custom_request_serializes_to_exact_text() {
    let req = CreateImageRequestBuilder::default()
        .prompt("draw a cute caterpillar")
        .style(ImageStyle::Vivid)
        .quality(ImageQuality::Hd)
        .build()
        .unwrap();
    assert_eq!(
        text_of(&req),
        r#"{"prompt":"draw a cute caterpillar","model":"dall-e-3","style":"vivid","quality":"hd"}"#
    );
}

#[test]
fn unset_optional_fields_leave_no_key() {
    let req = CreateImageRequestBuilder::default()
        .prompt("a lighthouse")
        .build()
        .unwrap();
    let json = req.to_json();
    for key in ["n", "response_format", "size", "style", "quality", "user"] {
        assert!(json.get(key).is_none(), "{key} must be absent");
    }
    let parsed: Value = serde_json::from_slice(&json.to_bytes()).unwrap();
    let object = parsed.as_object().unwrap();
    assert_eq!(object.len(), 2);
    assert!(!text_of(&req).contains("null"));
    assert_eq!(
        text_of(&req),
        r#"{"prompt":"a lighthouse","model":"dall-e-3"}"#
    );
}

#[test]
fn every_field_that_is_set_goes_on_the_wire() {
    let req = CreateImageRequestBuilder::default()
        .prompt("p")
        .model(ImageModel::DallE3)
        .n(2)
        .response_format(ImageResponseFormat::B64Json)
        .size(ImageSize::LargeWide)
        .style(ImageStyle::Natural)
        .quality(ImageQuality::Standard)
        .user("u-1")
        .build()
        .unwrap();
    assert_eq!(
        text_of(&req),
        r#"{"prompt":"p","model":"dall-e-3","n":2,"response_format":"b64_json","size":"1792x1024","style":"natural","quality":"standard","user":"u-1"}"#
    );
    assert_eq!(req.n, Some(2));
    assert_eq!(req.user.as_deref(), Some("u-1"));
}

#[test]
fn a_count_of_zero_is_still_sent() {
    let req = CreateImageRequestBuilder::default()
        .prompt("p")
        .n(0)
        .build()
        .unwrap();
    assert_eq!(text_of(&req), r#"{"prompt":"p","model":"dall-e-3","n":0}"#);
}

#[test]
fn unset_model_resolves_to_the_default_at_build() {
    let req = CreateImageRequestBuilder::default()
        .prompt("p")
        .build()
        .unwrap();
    assert_eq!(req.model, ImageModel::DallE3);
    assert_eq!(req.model, ImageModel::default());
    assert_eq!(
        req.to_json().get("model"),
        Some(&JsonValue::String("dall-e-3".to_string()))
    );
    assert_eq!(req.quality, None);
    assert_eq!(req.size, None);
    assert_eq!(req.style, None);
    assert_eq!(req.response_format, None);
    assert_eq!(req.n, None);
    assert_eq!(req.user, None);
}

#[test]
fn defaults_are_the_documented_variants_and_tokens() {
    assert_eq!(ImageModel::default(), ImageModel::DallE3);
    assert_eq!(ImageQuality::default(), ImageQuality::Standard);
    assert_eq!(ImageResponseFormat::default(), ImageResponseFormat::Url);
    assert_eq!(ImageSize::default(), ImageSize::Large);
    assert_eq!(ImageStyle::default(), ImageStyle::Vivid);
    assert_eq!(ImageModel::default().as_str(), "dall-e-3");
    assert_eq!(ImageQuality::default().as_str(), "standard");
    assert_eq!(ImageResponseFormat::default().as_str(), "url");
    assert_eq!(ImageSize::default().as_str(), "1024x1024");
    assert_eq!(ImageStyle::default().as_str(), "vivid");
}

#[test]
fn every_variant_has_its_wire_token() {
    assert_eq!(ImageQuality::Standard.as_str(), "standard");
    assert_eq!(ImageQuality::Hd.as_str(), "hd");
    assert_eq!(ImageResponseFormat::Url.as_str(), "url");
    assert_eq!(ImageResponseFormat::B64Json.as_str(), "b64_json");
    assert_eq!(ImageSize::Large.as_str(), "1024x1024");
    assert_eq!(ImageSize::LargeWide.as_str(), "1792x1024");
    assert_eq!(ImageSize::LargeTall.as_str(), "1024x1792");
    assert_eq!(ImageStyle::Vivid.as_str(), "vivid");
    assert_eq!(ImageStyle::Natural.as_str(), "natural");
}

#[test]
fn setter_order_does_not_change_the_payload() {
    let one = CreateImageRequestBuilder::default()
        .prompt("p")
        .size(ImageSize::LargeTall)
        .user("ann")
        .n(3)
        .build()
        .unwrap();
    let other = CreateImageRequestBuilder::default()
        .n(3)
        .user("ann")
        .prompt("p")
        .size(ImageSize::LargeTall)
        .build()
        .unwrap();
    let third = CreateImageRequestBuilder::default()
        .user("ann")
        .size(ImageSize::LargeTall)
        .n(3)
        .prompt("p")
        .build()
        .unwrap();
    assert_eq!(one, other);
    assert_eq!(one, third);
    assert_eq!(one.to_json().to_bytes(), other.to_json().to_bytes());
    assert_eq!(one.to_json().to_bytes(), third.to_json().to_bytes());
    assert_eq!(
        text_of(&one),
        r#"{"prompt":"p","model":"dall-e-3","n":3,"size":"1024x1792","user":"ann"}"#
    );
}

#[test]
fn the_last_write_to_a_field_wins() {
    let req = CreateImageRequestBuilder::default()
        .prompt("first")
        .quality(ImageQuality::Hd)
        .prompt("second")
        .quality(ImageQuality::Standard)
        .build()
        .unwrap();
    assert_eq!(req.prompt, "second");
    assert_eq!(req.quality, Some(ImageQuality::Standard));
}

#[test]
fn build_without_prompt_names_the_prompt() {
    let mut builder = CreateImageRequestBuilder::default();
    assert_eq!(builder.build(), Err(BuildError::MissingField("prompt")));
    builder.style(ImageStyle::Natural).n(1).user("u");
    assert_eq!(builder.build(), Err(BuildError::MissingField("prompt")));
}

#[test]
fn a_builder_can_be_finished_after_a_failure() {
    let mut builder = CreateImageRequestBuilder::default();
    builder.quality(ImageQuality::Hd);
    assert!(builder.build().is_err());
    builder.prompt("now with a prompt");
    let first = builder.build().unwrap();
    let second = builder.build().unwrap();
    assert_eq!(first, second);
    assert_eq!(first.quality, Some(ImageQuality::Hd));
    assert_eq!(first.prompt, "now with a prompt");
}

#[test]
fn new_sets_the_prompt_and_nothing_else() {
    let req = CreateImageRequest::new("a red kite");
    let built = CreateImageRequestBuilder::default()
        .prompt("a red kite")
        .build()
        .unwrap();
    assert_eq!(req, built);
    assert_eq!(text_of(&req), r#"{"prompt":"a red kite","model":"dall-e-3"}"#);
}

#[test]
fn clone_keeps_every_field() {
    let req = CreateImageRequestBuilder::default()
        .prompt("p")
        .user("u")
        .n(4)
        .build()
        .unwrap();
    assert_eq!(req.clone(), req);
}

#[test]
fn image_request_is_posted_to_the_image_endpoint() {
    let req = CreateImageRequest::new("say \"hi\"");
    let expected = req.to_json().to_bytes();
    let request = req.into_request();
    assert_eq!(request.method, Method::Post);
    assert_eq!(request.url, "https://api.openai.com/v1/images/generations");
    assert_eq!(request.url, IMAGE_GENERATIONS_URL);
    assert_eq!(request.body, expected);
    assert_eq!(
        String::from_utf8(request.body).unwrap(),
        r#"{"prompt":"say \"hi\"","model":"dall-e-3"}"#
    );
}

#[test]
fn unset_selectors_resolve_to_their_documented_defaults() {
    let bare = CreateImageRequest::new("p");
    assert_eq!(bare.resolved_quality(), ImageQuality::Standard);
    assert_eq!(bare.resolved_style(), ImageStyle::Vivid);
    assert_eq!(bare.resolved_size(), ImageSize::Large);
    assert_eq!(bare.resolved_response_format(), ImageResponseFormat::Url);
    let chosen = CreateImageRequestBuilder::default()
        .prompt("p")
        .quality(ImageQuality::Hd)
        .style(ImageStyle::Natural)
        .size(ImageSize::LargeTall)
        .response_format(ImageResponseFormat::B64Json)
        .build()
        .unwrap();
    assert_eq!(chosen.resolved_quality(), ImageQuality::Hd);
    assert_eq!(chosen.resolved_style(), ImageStyle::Natural);
    assert_eq!(chosen.resolved_size(), ImageSize::LargeTall);
    assert_eq!(chosen.resolved_response_format(), ImageResponseFormat::B64Json);
}

#[test]
fn a_cloned_builder_finishes_to_the_same_request() {
    let mut builder = CreateImageRequestBuilder::default();
    builder.prompt("p").user("u").style(ImageStyle::Natural);
    let copy = builder.clone();
    assert_eq!(copy, builder);
    assert_eq!(copy.build(), builder.build());
}

#[test]
fn an_image_answer_holds_the_image_inline_or_as_a_link() {
    let link = CreateImageResponse {
        b64_json: None,
        url: Some("https://example.com/i.png".to_string()),
        revised_prompt: Some("a cute caterpillar, drawn".to_string()),
    };
    let inline = CreateImageResponse {
        b64_json: Some("aGk=".to_string()),
        url: None,
        revised_prompt: None,
    };
    let both = CreateImageResponse {
        b64_json: Some("aGk=".to_string()),
        url: Some("https://example.com/i.png".to_string()),
        revised_prompt: None,
    };
    let neither = CreateImageResponse {
        b64_json: None,
        url: None,
        revised_prompt: None,
    };
    assert!(link.is_well_formed());
    assert!(inline.is_well_formed());
    assert!(!both.is_well_formed());
    assert!(!neither.is_well_formed());
    assert_eq!(link.clone(), link);
}
