use llm_sdk::JsonValue;

fn text(value: &JsonValue) -> String {
    String::from_utf8(value.to_bytes()).unwrap()
}

fn string(text: &str) -> JsonValue {
    JsonValue::String(text.to_string())
}

#[test]
fn scalars_render_as_json_writes_them() {
    assert_eq!(text(&JsonValue::Null), "null");
    assert_eq!(text(&JsonValue::Bool(true)), "true");
    assert_eq!(text(&JsonValue::Bool(false)), "false");
    assert_eq!(text(&string("")), r#""""#);
    assert_eq!(text(&string("plain text")), r#""plain text""#);
}

#[test]
fn numbers_render_in_decimal_without_leading_zeros() {
    let cases: [(u64, &str); 8] = [
        (0, "0"),
        (7, "7"),
        (9, "9"),
        (10, "10"),
        (101, "101"),
        (1234567890, "1234567890"),
        (4294967296, "4294967296"),
        (u64::MAX, "18446744073709551615"),
    ];
    for (n, expected) in cases {
        assert_eq!(text(&JsonValue::Number(n)), expected);
        assert_eq!(
            JsonValue::Number(n).to_bytes(),
            serde_json::to_vec(&n).unwrap()
        );
    }
}

#[test]
fn quotes_backslashes_and_controls_are_escaped() {
    assert_eq!(text(&string("say \"hi\"")), r#""say \"hi\"""#);
    assert_eq!(text(&string("a\\b")), r#""a\\b""#);
    assert_eq!(text(&string("line\nbreak")), r#""line\nbreak""#);
    assert_eq!(text(&string("\r\t")), r#""\r\t""#);
    assert_eq!(text(&string("\u{8}\u{c}")), r#""\b\f""#);
    assert_eq!(text(&string("\u{0}")), r#""\u0000""#);
    assert_eq!(text(&string("\u{1}")), r#""\u0001""#);
    assert_eq!(text(&string("\u{b}")), r#""\u000b""#);
    assert_eq!(text(&string("\u{1a}\u{1f}")), r#""\u001a\u001f""#);
    assert_eq!(text(&string("a/b")), r#""a/b""#);
    assert_eq!(text(&string("\u{7f}")), "\"\u{7f}\"");
}

#[test]
fn text_beyond_ascii_goes_through_unchanged() {
    assert_eq!(text(&string("héllo")), "\"héllo\"");
    assert_eq!(text(&string("日本語 ✓ 🐛")), "\"日本語 ✓ 🐛\"");
}

#[test]
fn strings_are_written_as_serde_json_writes_them() {
    let mut samples: Vec<String> = vec![
        String::new(),
        "draw a cute caterpillar".to_string(),
        "tab\there \"quoted\" back\\slash".to_string(),
        "héllo wörld ✓ 🐛 日本語".to_string(),
        "\u{7f}\u{80}\u{a0}\u{2028}\u{2029}\u{feff}".to_string(),
        "</script> & 'single'".to_string(),
    ];
    let every_ascii: String = (0u8..128).map(char::from).collect();
    samples.push(every_ascii);
    for code in 0u32..0x30 {
        samples.push(format!("a{}b", char::from_u32(code).unwrap()));
    }
    for sample in samples {
        assert_eq!(
            string(&sample).to_bytes(),
            serde_json::to_vec(&sample).unwrap(),
            "{sample:?}"
        );
    }
}

#[test]
fn arrays_and_objects_are_compact_and_keep_their_order() {
    assert_eq!(text(&JsonValue::Array(Vec::new())), "[]");
    assert_eq!(text(&JsonValue::Object(Vec::new())), "{}");
    assert_eq!(text(&JsonValue::Array(vec![JsonValue::Number(1)])), "[1]");
    let nested = JsonValue::Object(vec![
        ("zeta".to_string(), JsonValue::Array(vec![
            JsonValue::Number(1),
            JsonValue::Null,
            string("x"),
            JsonValue::Array(Vec::new()),
        ])),
        ("alpha".to_string(), JsonValue::Object(vec![
            ("k\"ey".to_string(), JsonValue::Bool(false)),
        ])),
        ("n".to_string(), JsonValue::Number(30)),
    ]);
    assert_eq!(
        text(&nested),
        r#"{"zeta":[1,null,"x",[]],"alpha":{"k\"ey":false},"n":30}"#
    );
    let parsed: serde_json::Value = serde_json::from_slice(&nested.to_bytes()).unwrap();
    assert_eq!(parsed["zeta"][2], serde_json::Value::String("x".to_string()));
    assert_eq!(parsed["alpha"]["k\"ey"], serde_json::Value::Bool(false));
    assert_eq!(parsed["n"], serde_json::Value::from(30u64));
}

#[test]
fn write_to_appends_to_what_is_there() {
    let mut out = b"body=".to_vec();
    JsonValue::Array(vec![JsonValue::Number(12), string("a")]).write_to(&mut out);
    assert_eq!(out, b"body=[12,\"a\"]".to_vec());
}

#[test]
fn get_finds_the_first_member_of_a_name() {
    let value = JsonValue::Object(vec![
        ("a".to_string(), JsonValue::Number(1)),
        ("b".to_string(), string("two")),
        ("a".to_string(), JsonValue::Number(3)),
        ("c".to_string(), JsonValue::Null),
    ]);
    assert_eq!(value.get("a"), Some(&JsonValue::Number(1)));
    assert_eq!(value.get("b"), Some(&string("two")));
    assert_eq!(value.get("c"), Some(&JsonValue::Null));
    assert_eq!(value.get("d"), None);
    assert_eq!(value.get(""), None);
    assert_eq!(JsonValue::Array(vec![string("a")]).get("a"), None);
    assert_eq!(string("a").get("a"), None);
}

#[test]
fn text_members_are_read_by_kind() {
    let value = JsonValue::Object(vec![
        ("s".to_string(), string("text")),
        ("n".to_string(), JsonValue::Number(1)),
        ("z".to_string(), JsonValue::Null),
    ]);
    assert_eq!(value.text("s"), Some("text"));
    assert_eq!(value.text("n"), None);
    assert_eq!(value.text("z"), None);
    assert_eq!(value.text("missing"), None);
    assert_eq!(value.optional_text("s"), Some(Some("text")));
    assert_eq!(value.optional_text("z"), Some(None));
    assert_eq!(value.optional_text("missing"), Some(None));
    assert_eq!(value.optional_text("n"), None);
}

#[test]
fn a_cloned_value_is_the_same_value() {
    let nested = JsonValue::Object(vec![
        ("list".to_string(), JsonValue::Array(vec![
            JsonValue::Number(1),
            string("two"),
            JsonValue::Object(vec![("deep".to_string(), JsonValue::Null)]),
        ])),
        ("flag".to_string(), JsonValue::Bool(true)),
    ]);
    assert_eq!(nested.clone(), nested);
    assert_eq!(nested.clone().to_bytes(), nested.to_bytes());
    assert_eq!(
        text(&nested.clone()),
        r#"{"list":[1,"two",{"deep":null}],"flag":true}"#
    );
}
