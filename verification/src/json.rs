//! JSON values as the request payloads carry them, and their exact wire text.
//!
//! A payload is first laid out as a [`JsonValue`] tree, which fixes which keys
//! are present and in what order, and is then rendered to bytes. The text is
//! compact (no whitespace), strings are escaped as RFC 8259 requires and
//! nothing more, and all of it is specified over the mathematical model
//! [`JsonModel`].

use vstd::prelude::*;
use vstd::utf8::{encode_utf8, is_ascii_chars, is_ascii_chars_encode_utf8};

verus! {

pub const QUOTE: u8 = 0x22;

pub const BACKSLASH: u8 = 0x5c;

pub const COMMA: u8 = 0x2c;

pub const COLON: u8 = 0x3a;

pub const OPEN_BRACKET: u8 = 0x5b;

pub const CLOSE_BRACKET: u8 = 0x5d;

pub const OPEN_BRACE: u8 = 0x7b;

pub const CLOSE_BRACE: u8 = 0x7d;

/// A JSON value. Numbers are unsigned integers: no payload of this API holds
/// any other kind. An object keeps its members in the order they were added.
#[derive(Debug, PartialEq, Eq)]
pub enum JsonValue {
    Null,
    Bool(bool),
    Number(u64),
    String(String),
    Array(Vec<JsonValue>),
    Object(Vec<(String, JsonValue)>),
}

/// The mathematical model of a [`JsonValue`].
pub enum JsonModel {
    Null,
    Bool(bool),
    Number(nat),
    String(Seq<char>),
    Array(Seq<JsonModel>),
    Object(Seq<(Seq<char>, JsonModel)>),
}

/// The model of each array item, in order.
pub open spec fn models_of(items: Seq<JsonValue>) -> Seq<JsonModel>
    decreases items, 0nat,
{
    if items.len() == 0 {
        Seq::empty()
    } else {
        models_of(items.drop_last()).push(model_of(items.last()))
    }
}

/// The key and the model of each object member, in order.
pub open spec fn member_models_of(members: Seq<(String, JsonValue)>) -> Seq<(Seq<char>, JsonModel)>
    decreases members, 0nat,
{
    if members.len() == 0 {
        Seq::empty()
    } else {
        member_models_of(members.drop_last()).push(
            (members.last().0@, model_of(members.last().1)),
        )
    }
}

pub open spec fn model_of(v: JsonValue) -> JsonModel
    decreases v, 1nat,
{
    match v {
        JsonValue::Null => JsonModel::Null,
        JsonValue::Bool(b) => JsonModel::Bool(b),
        JsonValue::Number(n) => JsonModel::Number(n as nat),
        JsonValue::String(s) => JsonModel::String(s@),
        JsonValue::Array(items) => JsonModel::Array(models_of(items@)),
        JsonValue::Object(members) => JsonModel::Object(member_models_of(members@)),
    }
}

impl View for JsonValue {
    type V = JsonModel;

    open spec fn view(&self) -> JsonModel {
        model_of(*self)
    }
}

/// `models_of` maps item by item.
pub proof fn lemma_models_of(items: Seq<JsonValue>)
    ensures
        models_of(items).len() == items.len(),
        forall|i: int| 0 <= i < items.len() ==> (#[trigger] models_of(items)[i]) == model_of(items[i]),
    decreases items.len(),
{
    if items.len() > 0 {
        lemma_models_of(items.drop_last());
    }
}

/// `member_models_of` maps member by member.
pub proof fn lemma_member_models_of(members: Seq<(String, JsonValue)>)
    ensures
        member_models_of(members).len() == members.len(),
        forall|i: int|
            0 <= i < members.len() ==> (#[trigger] member_models_of(members)[i]) == (
                members[i].0@,
                model_of(members[i].1),
            ),
    decreases members.len(),
{
    if members.len() > 0 {
        lemma_member_models_of(members.drop_last());
    }
}

/// The ASCII digit for `d`, for `d` below ten.
pub open spec fn digit_byte(d: nat) -> u8 {
    (0x30 + d) as u8
}

/// The decimal numeral of `n`, without leading zeros.
pub open spec fn decimal(n: nat) -> Seq<u8>
    decreases n,
{
    if n < 10 {
        seq![digit_byte(n)]
    } else {
        decimal(n / 10).push(digit_byte(n % 10))
    }
}

/// The lower-case hexadecimal digit for `d`, for `d` below sixteen.
pub open spec fn hex_digit(d: nat) -> u8 {
    if d < 10 {
        (0x30 + d) as u8
    } else {
        (0x57 + d) as u8
    }
}

/// What one byte of a string becomes inside a JSON string literal: the quote
/// and the backslash get a backslash in front, the control characters below
/// 0x20 their short escape where JSON has one and `\u00XX` otherwise, and
/// every other byte stands for itself.
pub open spec fn escape_byte(b: u8) -> Seq<u8> {
    if b == QUOTE {
        seq![BACKSLASH, QUOTE]
    } else if b == BACKSLASH {
        seq![BACKSLASH, BACKSLASH]
    } else if b == 0x08 {
        seq![BACKSLASH, 0x62u8]
    } else if b == 0x09 {
        seq![BACKSLASH, 0x74u8]
    } else if b == 0x0a {
        seq![BACKSLASH, 0x6eu8]
    } else if b == 0x0c {
        seq![BACKSLASH, 0x66u8]
    } else if b == 0x0d {
        seq![BACKSLASH, 0x72u8]
    } else if b < 0x20 {
        seq![
            BACKSLASH,
            0x75u8,
            0x30u8,
            0x30u8,
            hex_digit((b / 16) as nat),
            hex_digit((b % 16) as nat),
        ]
    } else {
        seq![b]
    }
}

/// The escapes of all bytes, one after the other.
pub open spec fn escape(bytes: Seq<u8>) -> Seq<u8>
    decreases bytes.len(),
{
    if bytes.len() == 0 {
        Seq::empty()
    } else {
        escape(bytes.drop_last()) + escape_byte(bytes.last())
    }
}

/// The JSON string literal for `text`: its UTF-8 bytes, escaped, in quotes.
pub open spec fn quoted(text: Seq<char>) -> Seq<u8> {
    seq![QUOTE] + escape(encode_utf8(text)) + seq![QUOTE]
}

/// Whether JSON writes the character as it is, in one byte: printable ASCII
/// but for the quote and the backslash.
pub open spec fn is_plain(c: char) -> bool {
    ' ' <= c <= '~' && c != '"' && c != '\\'
}

/// Whether every character of `text` is plain.
pub open spec fn is_plain_text(text: Seq<char>) -> bool {
    forall|i: int| 0 <= i < text.len() ==> is_plain(#[trigger] text[i])
}

/// The characters of an ASCII text as bytes.
pub open spec fn ascii_bytes(text: Seq<char>) -> Seq<u8> {
    Seq::new(text.len(), |i: int| text[i] as u8)
}

/// Bytes from 0x20 up, but for the quote and the backslash, are not escaped.
pub proof fn lemma_escape_unchanged(bytes: Seq<u8>)
    requires
        forall|i: int|
            0 <= i < bytes.len() ==> (#[trigger] bytes[i]) >= 0x20 && bytes[i] != QUOTE && bytes[i]
                != BACKSLASH,
    ensures
        escape(bytes) == bytes,
    decreases bytes.len(),
{
    if bytes.len() > 0 {
        let head = bytes.drop_last();
        assert forall|i: int| 0 <= i < head.len() implies (#[trigger] head[i]) >= 0x20 && head[i]
            != QUOTE && head[i] != BACKSLASH by {
            assert(head[i] == bytes[i]);
        }
        lemma_escape_unchanged(head);
        assert(escape_byte(bytes.last()) =~= seq![bytes.last()]);
        assert(head + seq![bytes.last()] =~= bytes);
    } else {
        assert(bytes =~= Seq::<u8>::empty());
    }
}

/// A plain text goes between the quotes as it is, one byte for each
/// character.
pub proof fn lemma_quoted_plain(text: Seq<char>)
    requires
        is_plain_text(text),
    ensures
        quoted(text) == seq![QUOTE] + ascii_bytes(text) + seq![QUOTE],
{
    assert(is_ascii_chars(text)) by {
        assert forall|i: int| 0 <= i < text.len() implies '\0' <= #[trigger] text[i]
            <= '\u{7f}' by {
            assert(is_plain(text[i]));
        }
    }
    is_ascii_chars_encode_utf8(text);
    let bytes = encode_utf8(text);
    assert(bytes =~= ascii_bytes(text));
    assert forall|i: int| 0 <= i < bytes.len() implies (#[trigger] bytes[i]) >= 0x20 && bytes[i]
        != QUOTE && bytes[i] != BACKSLASH by {
        assert(is_plain(text[i]));
        assert(bytes[i] == text[i] as u8);
    }
    lemma_escape_unchanged(bytes);
}

/// The bytes of `null`.
pub open spec fn null_text() -> Seq<u8> {
    seq![0x6eu8, 0x75u8, 0x6cu8, 0x6cu8]
}

/// The bytes of `true`.
pub open spec fn true_text() -> Seq<u8> {
    seq![0x74u8, 0x72u8, 0x75u8, 0x65u8]
}

/// The bytes of `false`.
pub open spec fn false_text() -> Seq<u8> {
    seq![0x66u8, 0x61u8, 0x6cu8, 0x73u8, 0x65u8]
}

/// The array items rendered and separated by commas.
pub open spec fn render_items(items: Seq<JsonModel>) -> Seq<u8>
    decreases items, 0nat,
{
    if items.len() == 0 {
        Seq::empty()
    } else if items.len() == 1 {
        render(items.last())
    } else {
        render_items(items.drop_last()) + seq![COMMA] + render(items.last())
    }
}

/// The object members rendered as `"key":value` and separated by commas.
pub open spec fn render_members(members: Seq<(Seq<char>, JsonModel)>) -> Seq<u8>
    decreases members, 0nat,
{
    if members.len() == 0 {
        Seq::empty()
    } else if members.len() == 1 {
        quoted(members.last().0) + seq![COLON] + render(members.last().1)
    } else {
        render_members(members.drop_last()) + seq![COMMA] + quoted(members.last().0) + seq![COLON]
            + render(members.last().1)
    }
}

/// The compact JSON text of a value.
pub open spec fn render(v: JsonModel) -> Seq<u8>
    decreases v, 1nat,
{
    match v {
        JsonModel::Null => null_text(),
        JsonModel::Bool(b) => if b {
            true_text()
        } else {
            false_text()
        },
        JsonModel::Number(n) => decimal(n),
        JsonModel::String(s) => quoted(s),
        JsonModel::Array(items) => seq![OPEN_BRACKET] + render_items(items) + seq![CLOSE_BRACKET],
        JsonModel::Object(members) => seq![OPEN_BRACE] + render_members(members) + seq![
            CLOSE_BRACE,
        ],
    }
}

/// The text of one member: its name in quotes, a colon, its value.
pub open spec fn member_text(name: Seq<char>, value: JsonModel) -> Seq<u8> {
    quoted(name) + seq![COLON] + render(value)
}

/// After a run of members, one more member adds a comma, where the run is not
/// empty, and its own text.
pub proof fn lemma_render_then_one(
    first: Seq<(Seq<char>, JsonModel)>,
    name: Seq<char>,
    value: JsonModel,
)
    ensures
        render_members(first + seq![(name, value)]) == if first.len() == 0 {
            member_text(name, value)
        } else {
            render_members(first) + seq![COMMA] + member_text(name, value)
        },
{
    let all = first + seq![(name, value)];
    assert(all.drop_last() =~= first);
    assert(all.last() == (name, value));
    if first.len() == 0 {
        assert(render_members(all) =~= member_text(name, value));
    } else {
        assert(render_members(all) =~= render_members(first) + seq![COMMA] + member_text(
            name,
            value,
        ));
    }
}

/// After a run of members, an optional member adds what a member adds where
/// it has a value, and nothing where it has none.
pub proof fn lemma_render_then_optional(
    first: Seq<(Seq<char>, JsonModel)>,
    name: Seq<char>,
    value: Option<JsonModel>,
)
    ensures
        render_members(first + optional_member(name, value)) == match value {
            None => render_members(first),
            Some(v) => if first.len() == 0 {
                member_text(name, v)
            } else {
                render_members(first) + seq![COMMA] + member_text(name, v)
            },
        },
{
    match value {
        Some(v) => {
            lemma_render_then_one(first, name, v);
        },
        None => {
            assert(first + optional_member(name, value) =~= first);
        },
    }
}

/// What an optional member adds to the text after other members: a comma
/// and the member where it has a value, and not a byte where it has none.
pub open spec fn following_member_text(name: Seq<char>, value: Option<JsonModel>) -> Seq<u8> {
    match value {
        Some(v) => seq![COMMA] + member_text(name, v),
        None => Seq::empty(),
    }
}

/// After a run of at least one member, an optional member adds its
/// following text.
pub proof fn lemma_render_following(
    first: Seq<(Seq<char>, JsonModel)>,
    name: Seq<char>,
    value: Option<JsonModel>,
)
    requires
        first.len() > 0,
    ensures
        render_members(first + optional_member(name, value)) == render_members(first)
            + following_member_text(name, value),
        (first + optional_member(name, value)).len() > 0,
{
    lemma_render_then_optional(first, name, value);
    match value {
        Some(v) => {
            assert(render_members(first) + seq![COMMA] + member_text(name, v) =~= render_members(
                first,
            ) + following_member_text(name, value));
        },
        None => {
            assert(render_members(first) =~= render_members(first) + following_member_text(
                name,
                value,
            ));
        },
    }
}

/// The value of the first member named `key`, if there is one.
pub open spec fn lookup(members: Seq<(Seq<char>, JsonModel)>, key: Seq<char>) -> Option<JsonModel>
    decreases members.len(),
{
    if members.len() == 0 {
        None
    } else if members[0].0 == key {
        Some(members[0].1)
    } else {
        lookup(members.skip(1), key)
    }
}

/// The member of an object named `key`; nothing for a value that is no object.
pub open spec fn member(v: JsonModel, key: Seq<char>) -> Option<JsonModel> {
    match v {
        JsonModel::Object(members) => lookup(members, key),
        _ => None,
    }
}

/// The text of the member `key`, where `v` is an object whose first member
/// of that name is a string.
pub open spec fn required_text(v: JsonModel, key: Seq<char>) -> Option<Seq<char>> {
    match member(v, key) {
        Some(JsonModel::String(text)) => Some(text),
        _ => None,
    }
}

/// The text of a member that may be left out: no text where `v` has no member
/// `key` or holds `null` there, the text where it holds a string, and a
/// failure (the outer `None`) where it holds anything else.
pub open spec fn optional_text(v: JsonModel, key: Seq<char>) -> Option<Option<Seq<char>>> {
    match member(v, key) {
        None => Some(None),
        Some(JsonModel::Null) => Some(None),
        Some(JsonModel::String(text)) => Some(Some(text)),
        Some(_) => None,
    }
}

/// Whether `v` is an object with a member named `key`.
pub open spec fn has_key(v: JsonModel, key: Seq<char>) -> bool {
    member(v, key) is Some
}

/// A key is found exactly when some member bears it.
pub proof fn lemma_lookup_none(members: Seq<(Seq<char>, JsonModel)>, key: Seq<char>)
    ensures
        lookup(members, key) is None <==> forall|i: int|
            0 <= i < members.len() ==> (#[trigger] members[i]).0 != key,
    decreases members.len(),
{
    if members.len() > 0 {
        let rest = members.skip(1);
        lemma_lookup_none(rest, key);
        if members[0].0 != key {
            if lookup(rest, key) is None {
                assert forall|i: int| 0 <= i < members.len() implies (#[trigger] members[i]).0
                    != key by {
                    if i > 0 {
                        assert(rest[i - 1] == members[i]);
                    }
                }
            } else {
                let j = choose|j: int| 0 <= j < rest.len() && (#[trigger] rest[j]).0 == key;
                assert(members[j + 1] == rest[j]);
            }
        }
    }
}

/// The members of an object that holds `key: value` and nothing else.
pub open spec fn one_member(key: Seq<char>, value: JsonModel) -> Seq<(Seq<char>, JsonModel)> {
    seq![(key, value)]
}

/// The member `key: value` where there is a value, and no member where there
/// is none: an unset field leaves no trace in the object.
pub open spec fn optional_member(key: Seq<char>, value: Option<JsonModel>) -> Seq<
    (Seq<char>, JsonModel),
> {
    match value {
        Some(v) => seq![(key, v)],
        None => Seq::empty(),
    }
}

/// Looking a key up in two runs of members put together finds it in the first
/// run, and in the second only where the first has none of that name.
pub proof fn lemma_lookup_concat(
    first: Seq<(Seq<char>, JsonModel)>,
    second: Seq<(Seq<char>, JsonModel)>,
    key: Seq<char>,
)
    ensures
        lookup(first + second, key) == if lookup(first, key) is Some {
            lookup(first, key)
        } else {
            lookup(second, key)
        },
    decreases first.len(),
{
    if first.len() == 0 {
        assert(first + second =~= second);
    } else {
        assert((first + second)[0] == first[0]);
        assert((first + second).skip(1) =~= first.skip(1) + second);
        lemma_lookup_concat(first.skip(1), second, key);
    }
}

/// An object with one member answers for that member's name and no other.
pub proof fn lemma_lookup_one(name: Seq<char>, value: JsonModel, key: Seq<char>)
    ensures
        lookup(one_member(name, value), key) == if name == key {
            Some(value)
        } else {
            None
        },
{
    let members = one_member(name, value);
    assert(members.skip(1).len() == 0);
    assert(lookup(members.skip(1), key) is None);
}

/// After a run of members, one more member answers for its name where the
/// run has none of that name.
pub proof fn lemma_lookup_then_one(
    first: Seq<(Seq<char>, JsonModel)>,
    name: Seq<char>,
    value: JsonModel,
    key: Seq<char>,
)
    ensures
        lookup(first + one_member(name, value), key) == if lookup(first, key) is Some {
            lookup(first, key)
        } else if name == key {
            Some(value)
        } else {
            None
        },
{
    lemma_lookup_concat(first, one_member(name, value), key);
    lemma_lookup_one(name, value, key);
}

/// After a run of members, an optional member answers for its name where it
/// has a value and the run has none of that name.
pub proof fn lemma_lookup_then_optional(
    first: Seq<(Seq<char>, JsonModel)>,
    name: Seq<char>,
    value: Option<JsonModel>,
    key: Seq<char>,
)
    ensures
        lookup(first + optional_member(name, value), key) == if lookup(first, key) is Some {
            lookup(first, key)
        } else if name == key {
            value
        } else {
            None
        },
{
    lemma_lookup_concat(first, optional_member(name, value), key);
    match value {
        Some(v) => {
            lemma_lookup_one(name, v, key);
        },
        None => {},
    }
}

fn write_escaped_byte(b: u8, out: &mut Vec<u8>)
    ensures
        final(out)@ == old(out)@ + escape_byte(b),
{
    let ghost start = out@;
    if b == QUOTE || b == BACKSLASH {
        out.push(BACKSLASH);
        out.push(b);
    } else if b == 0x08 {
        out.push(BACKSLASH);
        out.push(0x62);
    } else if b == 0x09 {
        out.push(BACKSLASH);
        out.push(0x74);
    } else if b == 0x0a {
        out.push(BACKSLASH);
        out.push(0x6e);
    } else if b == 0x0c {
        out.push(BACKSLASH);
        out.push(0x66);
    } else if b == 0x0d {
        out.push(BACKSLASH);
        out.push(0x72);
    } else if b < 0x20 {
        let high: u8 = b / 16;
        let low: u8 = b % 16;
        out.push(BACKSLASH);
        out.push(0x75);
        out.push(0x30);
        out.push(0x30);
        out.push(hex_digit_of(high));
        out.push(hex_digit_of(low));
    } else {
        out.push(b);
    }
    assert(out@ =~= start + escape_byte(b));
}

fn hex_digit_of(d: u8) -> (r: u8)
    requires
        d < 16,
    ensures
        r == hex_digit(d as nat),
{
    if d < 10 {
        0x30 + d
    } else {
        0x57 + d
    }
}

/// Appends the JSON string literal for `text` to `out`.
pub fn write_quoted(text: &str, out: &mut Vec<u8>)
    ensures
        final(out)@ == old(out)@ + quoted(text@),
{
    let ghost start = out@;
    let bytes = text.as_bytes();
    out.push(QUOTE);
    let mut i: usize = 0;
    while i < bytes.len()
        invariant
            i <= bytes.len(),
            out@ == start + seq![QUOTE] + escape(bytes@.take(i as int)),
        decreases bytes.len() - i,
    {
        let ghost before = out@;
        write_escaped_byte(bytes[i], out);
        proof {
            let next = bytes@.take(i + 1);
            assert(next.drop_last() =~= bytes@.take(i as int));
            assert(next.last() == bytes@[i as int]);
            assert(out@ =~= start + seq![QUOTE] + escape(next));
        }
        i += 1;
    }
    out.push(QUOTE);
    proof {
        assert(bytes@.take(bytes.len() as int) =~= bytes@);
        assert(out@ =~= start + quoted(text@));
    }
}

/// Appends the decimal numeral of `n` to `out`.
pub fn write_decimal(n: u64, out: &mut Vec<u8>)
    ensures
        final(out)@ == old(out)@ + decimal(n as nat),
    decreases n,
{
    let ghost start = out@;
    if n >= 10 {
        write_decimal(n / 10, out);
    }
    let digit: u8 = (n % 10) as u8;
    out.push(0x30 + digit);
    assert(out@ =~= start + decimal(n as nat));
}

impl Clone for JsonValue {
    fn clone(&self) -> (copy: Self)
        ensures
            copy@ == self@,
        decreases self,
    {
        match self {
            JsonValue::Null => JsonValue::Null,
            JsonValue::Bool(b) => JsonValue::Bool(*b),
            JsonValue::Number(n) => JsonValue::Number(*n),
            JsonValue::String(s) => JsonValue::String(s.clone()),
            JsonValue::Array(items) => {
                let mut copy: Vec<JsonValue> = Vec::new();
                let mut i: usize = 0;
                while i < items.len()
                    invariant
                        i <= items.len(),
                        copy.len() == i,
                        decreases_to!(*self => *items),
                        forall|j: int| 0 <= j < i ==> (#[trigger] copy@[j])@ == items@[j]@,
                    decreases items.len() - i,
                {
                    assert(decreases_to!(*items => items[i as int]));
                    copy.push(items[i].clone());
                    i += 1;
                }
                proof {
                    lemma_models_of(copy@);
                    lemma_models_of(items@);
                    assert(models_of(copy@) =~= models_of(items@));
                }
                JsonValue::Array(copy)
            },
            JsonValue::Object(members) => {
                let mut copy: Vec<(String, JsonValue)> = Vec::new();
                let mut i: usize = 0;
                while i < members.len()
                    invariant
                        i <= members.len(),
                        copy.len() == i,
                        decreases_to!(*self => *members),
                        forall|j: int|
                            0 <= j < i ==> (#[trigger] copy@[j]).0@ == members@[j].0@ && copy@[j].1@
                                == members@[j].1@,
                    decreases members.len() - i,
                {
                    assert(decreases_to!(*members => members[i as int]));
                    assert(decreases_to!(members[i as int] => members[i as int].1));
                    let name = members[i].0.clone();
                    let value = members[i].1.clone();
                    copy.push((name, value));
                    i += 1;
                }
                proof {
                    lemma_member_models_of(copy@);
                    lemma_member_models_of(members@);
                    assert(member_models_of(copy@) =~= member_models_of(members@));
                }
                JsonValue::Object(copy)
            },
        }
    }
}

impl JsonValue {
    /// Appends the compact JSON text of this value to `out`.
    pub fn write_to(&self, out: &mut Vec<u8>)
        ensures
            final(out)@ == old(out)@ + render(self@),
        decreases self,
    {
        let ghost start = out@;
        match self {
            JsonValue::Null => {
                out.push(0x6e);
                out.push(0x75);
                out.push(0x6c);
                out.push(0x6c);
                assert(out@ =~= start + null_text());
            },
            JsonValue::Bool(b) => {
                if *b {
                    out.push(0x74);
                    out.push(0x72);
                    out.push(0x75);
                    out.push(0x65);
                    assert(out@ =~= start + true_text());
                } else {
                    out.push(0x66);
                    out.push(0x61);
                    out.push(0x6c);
                    out.push(0x73);
                    out.push(0x65);
                    assert(out@ =~= start + false_text());
                }
            },
            JsonValue::Number(n) => {
                write_decimal(*n, out);
            },
            JsonValue::String(s) => {
                write_quoted(s.as_str(), out);
            },
            JsonValue::Array(items) => {
                out.push(OPEN_BRACKET);
                let mut i: usize = 0;
                while i < items.len()
                    invariant
                        i <= items.len(),
                        decreases_to!(*self => *items),
                        out@ == start + seq![OPEN_BRACKET] + render_items(
                            models_of(items@.take(i as int)),
                        ),
                    decreases items.len() - i,
                {
                    let ghost done = items@.take(i as int);
                    let ghost next = items@.take(i + 1);
                    proof {
                        lemma_models_of(done);
                        assert(next.drop_last() =~= done);
                        assert(next.last() == items@[i as int]);
                        assert(models_of(next).drop_last() =~= models_of(done));
                    }
                    if i > 0 {
                        out.push(COMMA);
                    }
                    assert(decreases_to!(*items => items[i as int]));
                    items[i].write_to(out);
                    assert(out@ =~= start + seq![OPEN_BRACKET] + render_items(models_of(next)));
                    i += 1;
                }
                out.push(CLOSE_BRACKET);
                proof {
                    assert(items@.take(items.len() as int) =~= items@);
                    assert(out@ =~= start + render(self@));
                }
            },
            JsonValue::Object(members) => {
                out.push(OPEN_BRACE);
                let mut i: usize = 0;
                while i < members.len()
                    invariant
                        i <= members.len(),
                        decreases_to!(*self => *members),
                        out@ == start + seq![OPEN_BRACE] + render_members(
                            member_models_of(members@.take(i as int)),
                        ),
                    decreases members.len() - i,
                {
                    let ghost done = members@.take(i as int);
                    let ghost next = members@.take(i + 1);
                    proof {
                        lemma_member_models_of(done);
                        assert(next.drop_last() =~= done);
                        assert(next.last() == members@[i as int]);
                        assert(member_models_of(next).drop_last() =~= member_models_of(done));
                    }
                    if i > 0 {
                        out.push(COMMA);
                    }
                    write_quoted(members[i].0.as_str(), out);
                    out.push(COLON);
                    assert(decreases_to!(*members => members[i as int]));
                    assert(decreases_to!(members[i as int] => members[i as int].1));
                    members[i].1.write_to(out);
                    assert(out@ =~= start + seq![OPEN_BRACE] + render_members(
                        member_models_of(next),
                    ));
                    i += 1;
                }
                out.push(CLOSE_BRACE);
                proof {
                    assert(members@.take(members.len() as int) =~= members@);
                    assert(out@ =~= start + render(self@));
                }
            },
        }
    }

    /// The text of the string member `key`.
    pub fn text(&self, key: &str) -> (found: Option<&str>)
        ensures
            match found {
                Some(text) => required_text(self@, key@) == Some(text@),
                None => required_text(self@, key@) is None,
            },
    {
        match self.get(key) {
            Some(JsonValue::String(text)) => Some(text.as_str()),
            _ => None,
        }
    }

    /// The text of the member `key`, which may be left out or `null`; the
    /// outer `None` says that the member holds something else.
    pub fn optional_text(&self, key: &str) -> (found: Option<Option<&str>>)
        ensures
            match found {
                Some(Some(text)) => optional_text(self@, key@) == Some(Some(text@)),
                Some(None) => optional_text(self@, key@) == Some(None::<Seq<char>>),
                None => optional_text(self@, key@) is None,
            },
    {
        match self.get(key) {
            None => Some(None),
            Some(JsonValue::Null) => Some(None),
            Some(JsonValue::String(text)) => Some(Some(text.as_str())),
            Some(_) => None,
        }
    }

    /// The compact JSON text of this value.
    pub fn to_bytes(&self) -> (bytes: Vec<u8>)
        ensures
            bytes@ == render(self@),
    {
        let mut out: Vec<u8> = Vec::new();
        self.write_to(&mut out);
        assert(out@ =~= render(self@));
        out
    }

    /// The value of the first member named `key`, where this is an object
    /// that has one.
    pub fn get(&self, key: &str) -> (found: Option<&JsonValue>)
        ensures
            match found {
                Some(v) => member(self@, key@) == Some(v@),
                None => member(self@, key@) is None,
            },
    {
        match self {
            JsonValue::Object(members) => {
                let wanted = key.to_owned();
                let ghost all = member_models_of(members@);
                proof {
                    lemma_member_models_of(members@);
                    assert(all.skip(0) =~= all);
                }
                let mut i: usize = 0;
                while i < members.len()
                    invariant
                        i <= members.len(),
                        *self == JsonValue::Object(*members),
                        wanted@ == key@,
                        all == member_models_of(members@),
                        all.len() == members.len(),
                        forall|j: int|
                            0 <= j < members.len() ==> (#[trigger] all[j]) == (
                                members@[j].0@,
                                model_of(members@[j].1),
                            ),
                        lookup(all, key@) == lookup(all.skip(i as int), key@),
                    decreases members.len() - i,
                {
                    proof {
                        assert(all.skip(i as int)[0] == all[i as int]);
                        assert(all.skip(i as int).skip(1) =~= all.skip(i + 1));
                    }
                    if members[i].0 == wanted {
                        proof {
                            let rest = all.skip(i as int);
                            assert(rest.len() > 0);
                            assert(rest[0].0 == key@);
                            assert(lookup(rest, key@) == Some(rest[0].1));
                        }
                        return Some(&members[i].1);
                    }
                    i += 1;
                }
                None
            },
            _ => None,
        }
    }
}

/// The text that an optional string holds.
pub open spec fn option_text(text: Option<String>) -> Option<Seq<char>> {
    match text {
        Some(t) => Some(t@),
        None => None,
    }
}

/// The JSON string for a text that may be missing.
pub open spec fn text_value(text: Option<Seq<char>>) -> Option<JsonModel> {
    match text {
        Some(t) => Some(JsonModel::String(t)),
        None => None,
    }
}

/// The model of a value that may be missing.
pub open spec fn option_model(value: Option<JsonValue>) -> Option<JsonModel> {
    match value {
        Some(v) => Some(v@),
        None => None,
    }
}

/// The JSON string for a borrowed text that may be missing.
pub open spec fn text_token(text: Option<&str>) -> Option<JsonModel> {
    match text {
        Some(t) => Some(JsonModel::String(t@)),
        None => None,
    }
}

/// The JSON number for a count that may be missing.
pub open spec fn number_value(n: Option<usize>) -> Option<JsonModel> {
    match n {
        Some(n) => Some(JsonModel::Number(n as nat)),
        None => None,
    }
}

/// Adds the member `key: value` at the end of the members of an object.
pub fn push_member(members: &mut Vec<(String, JsonValue)>, key: &str, value: JsonValue)
    ensures
        member_models_of(final(members)@) == member_models_of(old(members)@).push((key@, value@)),
{
    let ghost before = members@;
    let name = key.to_owned();
    members.push((name, value));
    proof {
        assert(members@.drop_last() =~= before);
    }
}

/// Adds the member `key: "text"`.
pub fn push_text(members: &mut Vec<(String, JsonValue)>, key: &str, text: &str)
    ensures
        member_models_of(final(members)@) == member_models_of(old(members)@) + one_member(
            key@,
            JsonModel::String(text@),
        ),
{
    let ghost before = member_models_of(members@);
    push_member(members, key, JsonValue::String(text.to_owned()));
    assert(member_models_of(members@) =~= before + one_member(key@, JsonModel::String(text@)));
}

/// Adds the member `key: "text"` where there is a text, and nothing otherwise.
pub fn push_optional_text(members: &mut Vec<(String, JsonValue)>, key: &str, text: Option<&str>)
    ensures
        member_models_of(final(members)@) == member_models_of(old(members)@) + optional_member(
            key@,
            text_token(text),
        ),
{
    let ghost before = member_models_of(members@);
    match text {
        Some(t) => {
            push_member(members, key, JsonValue::String(t.to_owned()));
            assert(member_models_of(members@) =~= before + optional_member(
                key@,
                Some(JsonModel::String(t@)),
            ));
        },
        None => {
            assert(member_models_of(members@) =~= before + optional_member(key@, None));
        },
    }
}

/// The members of a new object that so far holds `key: "text"`.
pub fn members_with_text(key: &str, text: &str) -> (members: Vec<(String, JsonValue)>)
    ensures
        member_models_of(members@) == one_member(key@, JsonModel::String(text@)),
{
    let mut members: Vec<(String, JsonValue)> = Vec::new();
    push_member(&mut members, key, JsonValue::String(text.to_owned()));
    assert(member_models_of(members@) =~= one_member(key@, JsonModel::String(text@)));
    members
}

/// Adds the member `key: n` where there is a number, and nothing otherwise.
pub fn push_optional_number(members: &mut Vec<(String, JsonValue)>, key: &str, n: Option<usize>)
    ensures
        member_models_of(final(members)@) == member_models_of(old(members)@) + optional_member(
            key@,
            number_value(n),
        ),
{
    let ghost before = member_models_of(members@);
    match n {
        Some(n) => {
            push_member(members, key, JsonValue::Number(n as u64));
            assert(member_models_of(members@) =~= before + optional_member(
                key@,
                number_value(Some(n)),
            ));
        },
        None => {
            assert(member_models_of(members@) =~= before + optional_member(key@, None));
        },
    }
}

/// The members of a new object that so far holds `key: value`.
pub fn members_with(key: &str, value: JsonValue) -> (members: Vec<(String, JsonValue)>)
    ensures
        member_models_of(members@) == one_member(key@, value@),
{
    let mut members: Vec<(String, JsonValue)> = Vec::new();
    push_member(&mut members, key, value);
    assert(member_models_of(members@) =~= one_member(key@, value@));
    members
}

/// Adds the member `key: value` where there is a value, and nothing otherwise.
pub fn push_optional_member(
    members: &mut Vec<(String, JsonValue)>,
    key: &str,
    value: Option<JsonValue>,
)
    ensures
        member_models_of(final(members)@) == member_models_of(old(members)@) + optional_member(
            key@,
            option_model(value),
        ),
{
    let ghost before = member_models_of(members@);
    match value {
        Some(v) => {
            push_member(members, key, v);
            assert(member_models_of(members@) =~= before + optional_member(key@, Some(v@)));
        },
        None => {
            assert(member_models_of(members@) =~= before + optional_member(key@, None));
        },
    }
}

/// Whether two texts are the same.
pub fn text_eq(a: &str, b: &str) -> (same: bool)
    ensures
        same == (a@ == b@),
{
    let left = a.to_owned();
    let right = b.to_owned();
    left == right
}

} // verus!
