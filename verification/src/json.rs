use vstd::prelude::*;

verus! {

/// A JSON document as the message-handling core reads it.
///
/// A number carries its exact value when it is a non-negative integer that
/// fits in `u64` (the only numbers the protocol core ever reads: request
/// ids), and otherwise only the fact that a number stood there.
#[derive(Debug, Clone, Copy, PartialEq)]
pub enum JsonNum {
    Uint(u64),
    Other,
}

/// A JSON value: the library's own model of a parsed document.
#[derive(Debug, PartialEq)]
pub enum JsonValue {
    Null,
    Bool(bool),
    Num(JsonNum),
    Str(String),
    Array(Vec<JsonValue>),
    Object(Vec<(String, JsonValue)>),
}

/// The value under `key` in an object given as a field sequence: the first
/// entry whose key matches, as `serde_json`'s map lookup returns it.
pub open spec fn obj_lookup_seq(fields: Seq<(String, JsonValue)>, key: Seq<char>) -> Option<
    JsonValue,
>
    decreases fields.len(),
{
    if fields.len() == 0 {
        None
    } else if fields[0].0@ == key {
        Some(fields[0].1)
    } else {
        obj_lookup_seq(fields.drop_first(), key)
    }
}

/// The value under `key` when `v` is an object; `None` on any other value.
pub open spec fn json_get(v: JsonValue, key: Seq<char>) -> Option<JsonValue> {
    match v {
        JsonValue::Object(fields) => obj_lookup_seq(fields@, key),
        _ => None,
    }
}

/// String equality by contents.
pub fn str_eq(a: &str, b: &str) -> (r: bool)
    ensures
        r == (a@ == b@),
{
    let sa: String = a.to_owned();
    let sb: String = b.to_owned();
    sa == sb
}

/// Looks `key` up in `v` without consuming it.
pub fn get<'a>(v: &'a JsonValue, key: &str) -> (r: Option<&'a JsonValue>)
    ensures
        match r {
            Some(x) => json_get(*v, key@) == Some(*x),
            None => json_get(*v, key@) is None,
        },
{
    match v {
        JsonValue::Object(fields) => {
            let n = fields.len();
            let mut i: usize = 0;
            assert(fields@.skip(0) =~= fields@);
            while i < n
                invariant
                    i <= n,
                    n == fields@.len(),
                    *v == JsonValue::Object(*fields),
                    obj_lookup_seq(fields@, key@) == obj_lookup_seq(fields@.skip(i as int), key@),
                decreases n - i,
            {
                let pair = &fields[i];
                proof {
                    assert(fields@.skip(i as int)[0] == fields@[i as int]);
                    assert(fields@.skip(i as int).drop_first() =~= fields@.skip(i + 1));
                }
                if str_eq(pair.0.as_str(), key) {
                    return Some(&fields[i].1);
                }
                i = i + 1;
            }
            assert(fields@.skip(n as int) =~= Seq::<(String, JsonValue)>::empty());
            None
        },
        _ => None,
    }
}

/// What `serde_json::from_str::<serde_json::Value>` yields on a text, read
/// out as the library's model: `None` where the text is not valid JSON.
pub uninterp spec fn json_parse(s: Seq<char>) -> Option<JsonValue>;

/// What a `serde_json::Value` holds, as the library's model.
pub uninterp spec fn value_rep(v: serde_json::Value) -> JsonValue;

#[verifier::external_type_specification]
#[verifier::external_body]
pub struct ExValue(serde_json::Value);

/// Relies on `serde_json::from_str::<serde_json::Value>`: it parses a text
/// as one JSON document, failing on text that is not valid JSON and on
/// documents nested past the parser's recursion limit.
#[verifier::external_body]
pub fn parse_json_text(s: &str) -> (r: Option<serde_json::Value>)
    ensures
        match r {
            Some(v) => json_parse(s@) == Some(value_rep(v)),
            None => json_parse(s@) is None,
        },
{
    serde_json::from_str::<serde_json::Value>(s).ok()
}

/// Relies on `serde_json::Value`'s own variant structure: each variant is
/// moved, entry for entry, into the corresponding variant of the model;
/// `Number::as_u64` gives the value of a non-negative integer number.
#[verifier::external_body]
pub fn to_model(v: &serde_json::Value) -> (r: JsonValue)
    ensures
        r == value_rep(*v),
{
    match v {
        serde_json::Value::Null => JsonValue::Null,
        serde_json::Value::Bool(b) => JsonValue::Bool(*b),
        serde_json::Value::Number(n) => JsonValue::Num(match n.as_u64() {
            Some(u) => JsonNum::Uint(u),
            None => JsonNum::Other,
        }),
        serde_json::Value::String(s) => JsonValue::Str(s.clone()),
        serde_json::Value::Array(a) => JsonValue::Array(a.iter().map(to_model).collect()),
        serde_json::Value::Object(m) => JsonValue::Object(
            m.iter().map(|(k, x)| (k.clone(), to_model(x))).collect(),
        ),
    }
}

} // verus!
