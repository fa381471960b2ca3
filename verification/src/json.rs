//! JSON documents as the library reads them, parsed by `serde_json`.

use vstd::prelude::*;

verus! {

#[verifier::external_type_specification]
#[verifier::external_body]
pub struct ExSerdeJsonValue(serde_json::Value);

/// A JSON value. Object members keep the order `serde_json` gives them
/// (sorted by key) and each key occurs once; numbers keep their text.
#[derive(Debug)]
pub enum JsonValue {
    Null,
    Bool(bool),
    Number(String),
    String(String),
    Array(Vec<JsonValue>),
    Object(Vec<(String, JsonValue)>),
}

/// What `serde_json::from_str::<serde_json::Value>` makes of a text: the
/// value, or the text of the error.
pub uninterp spec fn json_parse(text: Seq<char>) -> Result<JsonValue, Seq<char>>;

pub open spec fn parse_view(r: Result<JsonValue, std::string::String>) -> Result<JsonValue, Seq<char>> {
    match r {
        Ok(v) => Ok(v),
        Err(m) => Err(m@),
    }
}

/// `serde_json::from_str::<serde_json::Value>`, the value converted member
/// for member, and the error as its `Display` text.
#[verifier::external_body]
pub(crate) fn parse_json(text: &str) -> (res: Result<JsonValue, String>)
    ensures
        parse_view(res) == json_parse(text@),
{
    serde_json::from_str::<serde_json::Value>(text).map(from_serde).map_err(|e| e.to_string())
}

/// Converts a `serde_json::Value` into a `JsonValue`, variant for variant.
#[verifier::external_body]
fn from_serde(value: serde_json::Value) -> JsonValue {
    match value {
        serde_json::Value::Null => JsonValue::Null,
        serde_json::Value::Bool(b) => JsonValue::Bool(b),
        serde_json::Value::Number(n) => JsonValue::Number(n.to_string()),
        serde_json::Value::String(s) => JsonValue::String(s),
        serde_json::Value::Array(items) => JsonValue::Array(items.into_iter().map(from_serde).collect()),
        serde_json::Value::Object(map) => JsonValue::Object(
            map.into_iter().map(|(k, v)| (k, from_serde(v))).collect(),
        ),
    }
}

/// The JSON escape of one character, as `serde_json` writes strings: quote,
/// backslash and the short control escapes, other control characters as
/// `\u00XX` with lower-case hex, everything else as it is.
pub open spec fn json_escape_char(c: char) -> Seq<char> {
    if c == '"' {
        seq!['\\', '"']
    } else if c == '\\' {
        seq!['\\', '\\']
    } else if c == '\u{8}' {
        seq!['\\', 'b']
    } else if c == '\t' {
        seq!['\\', 't']
    } else if c == '\n' {
        seq!['\\', 'n']
    } else if c == '\u{c}' {
        seq!['\\', 'f']
    } else if c == '\r' {
        seq!['\\', 'r']
    } else if (c as u32) < 0x20 {
        seq!['\\', 'u', '0', '0', hex_digit((c as u32) / 16), hex_digit((c as u32) % 16)]
    } else {
        seq![c]
    }
}

pub open spec fn hex_digit(d: u32) -> char {
    if d < 10 {
        ((48 + d) as u32) as char
    } else {
        ((87 + d) as u32) as char
    }
}

pub open spec fn json_escape(s: Seq<char>) -> Seq<char>
    decreases s.len(),
{
    if s.len() == 0 {
        Seq::empty()
    } else {
        json_escape(s.drop_last()) + json_escape_char(s.last())
    }
}

/// A JSON string literal holding `s`.
pub open spec fn json_string(s: Seq<char>) -> Seq<char> {
    seq!['"'] + json_escape(s) + seq!['"']
}

/// `serde_json::to_string` of a `str`: the text between quotes, with the
/// escapes its string formatter writes. Serialising a `str` into memory does
/// not fail in that crate's source; the error arm is kept as the caller's
/// fallback.
#[verifier::external_body]
pub(crate) fn json_string_literal(s: &str) -> (res: Option<String>)
    ensures
        res is Some,
        res matches Some(t) ==> t@ == json_string(s@),
{
    match serde_json::to_string(s) {
        Ok(t) => Some(t),
        Err(_) => None,
    }
}

/// `i` is the first member named `key`.
pub open spec fn first_member(fields: Seq<(String, JsonValue)>, key: Seq<char>, i: int) -> bool {
    &&& 0 <= i < fields.len()
    &&& fields[i].0@ == key
    &&& forall|j: int| 0 <= j < i ==> fields[j].0@ != key
}

/// Index of the first member named `key`, or -1.
pub open spec fn member_index(fields: Seq<(String, JsonValue)>, key: Seq<char>) -> int {
    if exists|i: int| first_member(fields, key, i) {
        choose|i: int| first_member(fields, key, i)
    } else {
        -1
    }
}

pub proof fn lemma_member_index(fields: Seq<(String, JsonValue)>, key: Seq<char>, i: int)
    requires
        first_member(fields, key, i),
    ensures
        member_index(fields, key) == i,
{
    let k = choose|k: int| first_member(fields, key, k);
    assert(first_member(fields, key, k));
    if k < i {
        assert(fields[k].0@ != key);
    }
    if i < k {
        assert(fields[i].0@ != key);
    }
}

/// `value.get(key)`: the member of an object, `None` for other values.
pub open spec fn get(v: JsonValue, key: Seq<char>) -> Option<JsonValue> {
    match v {
        JsonValue::Object(fields) => {
            let i = member_index(fields@, key);
            if 0 <= i < fields@.len() {
                Some(fields@[i].1)
            } else {
                None
            }
        },
        _ => None,
    }
}

/// `Value::as_str`.
pub open spec fn as_str(v: Option<JsonValue>) -> Option<Seq<char>> {
    match v {
        Some(JsonValue::String(s)) => Some(s@),
        _ => None,
    }
}

/// `value.get(key)`.
pub fn get_member<'a>(v: &'a JsonValue, key: &str) -> (res: Option<&'a JsonValue>)
    ensures
        match res {
            Some(r) => get(*v, key@) == Some(*r) && decreases_to!(*v => *r),
            None => get(*v, key@) is None,
        },
{
    match v {
        JsonValue::Object(fields) => {
            let n = fields.len();
            for i in 0..n
                invariant
                    n == fields@.len(),
                    *v == JsonValue::Object(*fields),
                    forall|j: int| 0 <= j < i ==> fields@[j].0@ != key@,
            {
                let name = &fields[i].0;
                if crate::text::str_equal(name.as_str(), key) {
                    proof {
                        lemma_member_index(fields@, key@, i as int);
                    }
                    let entry = &fields[i];
                    assert(*entry == fields@[i as int]);
                    assert(decreases_to!(*v => fields@[i as int].1)) by {
                        assert(decreases_to!(*v => *fields));
                        assert(decreases_to!(*fields => fields@));
                        assert(decreases_to!(fields@ => fields@[i as int]));
                        assert(decreases_to!(fields@[i as int] => fields@[i as int].1));
                    }
                    assert(get(*v, key@) == Some(fields@[i as int].1));
                    return Some(&entry.1);
                }
            }
            assert(!exists|i: int| first_member(fields@, key@, i));
            None
        },
        _ => None,
    }
}

/// `value.get(key).and_then(Value::as_str)`.
pub fn get_str<'a>(v: &'a JsonValue, key: &str) -> (res: Option<&'a String>)
    ensures
        match res {
            Some(s) => as_str(get(*v, key@)) == Some(s@),
            None => as_str(get(*v, key@)) is None,
        },
{
    match get_member(v, key) {
        Some(JsonValue::String(s)) => Some(s),
        _ => None,
    }
}

} // verus!
