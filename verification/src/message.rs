use vstd::prelude::*;
use vstd::string::*;

use crate::json;
use crate::json::JsonNum;
use crate::json::JsonValue;
use crate::json::json_get;
use crate::json::json_parse;
use crate::json::obj_lookup_seq;

verus! {

/// A fault that makes the reader stop: the envelope itself is unusable.
#[derive(Debug, Clone, Copy, PartialEq, Eq, Structural)]
pub enum ProtocolError {
    /// The text is not valid JSON.
    ParseError,
    /// The text is JSON, but not a usable JSON-RPC message.
    InvalidRequest,
}

impl ProtocolError {
    /// The JSON-RPC error code of this fault.
    pub open spec fn spec_code(self) -> int {
        match self {
            ProtocolError::ParseError => -32700,
            ProtocolError::InvalidRequest => -32600,
        }
    }

    pub fn code(&self) -> (r: i32)
        ensures
            r as int == self.spec_code(),
    {
        match self {
            ProtocolError::ParseError => -32700,
            ProtocolError::InvalidRequest => -32600,
        }
    }

    /// The standard JSON-RPC error message for this fault.
    pub fn text(&self) -> (r: String)
        ensures
            *self is ParseError ==> r@ == "Parse error"@,
            *self is InvalidRequest ==> r@ == "Invalid request"@,
    {
        match self {
            ProtocolError::ParseError => "Parse error".to_owned(),
            ProtocolError::InvalidRequest => "Invalid request".to_owned(),
        }
    }
}

/// A message id as it stood on the wire.
#[derive(Debug, Clone, PartialEq)]
pub enum RawId {
    Num(u64),
    Str(String),
    Null,
}

impl RawId {
    /// A copy of this id.
    pub fn dup(&self) -> (r: RawId)
        ensures
            r == *self,
    {
        match self {
            RawId::Num(n) => RawId::Num(*n),
            RawId::Str(s) => RawId::Str(s.clone()),
            RawId::Null => RawId::Null,
        }
    }
}

/// A copy of an optional wire id.
pub fn dup_id(x: &Option<RawId>) -> (r: Option<RawId>)
    ensures
        r == *x,
{
    match x {
        Some(i) => Some(i.dup()),
        None => None,
    }
}

/// An inbound message after envelope parsing: method name, optional id, and
/// normalized parameters.
#[derive(Debug, PartialEq)]
pub struct RawMessage {
    pub method: String,
    pub id: Option<RawId>,
    pub params: JsonValue,
}

/// A request with a usable numeric id, ready for dispatch. No receipt
/// timestamp is carried: the core never reads one, and time stays outside
/// this library.
#[derive(Debug, PartialEq)]
pub struct Request {
    pub id: u64,
    pub params: JsonValue,
}

/// A notification ready for dispatch: parameters only, never answered.
#[derive(Debug, PartialEq)]
pub struct Notification {
    pub params: JsonValue,
}

impl Notification {
    /// Creates a `Notification` with the given `params`.
    pub fn new(params: JsonValue) -> (r: Notification)
        ensures
            r == (Notification { params }),
    {
        Notification { params }
    }
}

/// One response written to the client.
#[allow(inconsistent_fields)]
#[derive(Debug, PartialEq)]
pub enum Envelope {
    Success { id: u64, result: JsonValue },
    Failure { id: RawId, error: ProtocolError },
}

/// Decimal digits.
pub open spec fn is_dec_digit(c: char) -> bool {
    48 <= c as int && c as int <= 57
}

pub open spec fn dec_digit_val(c: char) -> nat {
    (c as int - 48) as nat
}

/// Folds decimal digits onto `acc` from the left; `None` on any non-digit.
pub open spec fn dec_num(s: Seq<char>, acc: nat) -> Option<nat>
    decreases s.len(),
{
    if s.len() == 0 {
        Some(acc)
    } else if is_dec_digit(s[0]) {
        dec_num(s.drop_first(), acc * 10 + dec_digit_val(s[0]))
    } else {
        None
    }
}

/// The numeric value of a decimal string as `u64::from_str_radix` with
/// radix ten reads it: an optional leading plus sign, then one or more
/// digits and nothing else.
pub open spec fn dec_value(s: Seq<char>) -> Option<nat> {
    let t = if s.len() > 0 && s[0] == '+' {
        s.drop_first()
    } else {
        s
    };
    if t.len() == 0 {
        None
    } else {
        dec_num(t, 0)
    }
}

/// As `dec_value`, failing also where the value does not fit in `u64`.
pub open spec fn parse_u64_spec(s: Seq<char>) -> Option<u64> {
    match dec_value(s) {
        Some(v) => if v <= u64::MAX {
            Some(v as u64)
        } else {
            None
        },
        None => None,
    }
}

/// A folded decimal number never shrinks below its accumulator.
proof fn lemma_dec_num_lower(s: Seq<char>, acc: nat)
    ensures
        dec_num(s, acc) matches Some(v) ==> v >= acc,
    decreases s.len(),
{
    if s.len() > 0 && is_dec_digit(s[0]) {
        lemma_dec_num_lower(s.drop_first(), acc * 10 + dec_digit_val(s[0]));
    }
}

/// Reads a decimal `u64`, exactly as `parse_u64_spec` says.
pub fn parse_u64(s: &str) -> (r: Option<u64>)
    ensures
        r == parse_u64_spec(s@),
{
    let n = s.unicode_len();
    let start: usize = if n > 0 && s.get_char(0) == '+' {
        1
    } else {
        0
    };
    if start >= n {
        return None;
    }
    proof {
        if start == 1 {
            assert(s@.drop_first() =~= s@.skip(1));
        } else {
            assert(s@.skip(0) =~= s@);
        }
    }
    let mut i: usize = start;
    let mut acc: u64 = 0;
    while i < n
        invariant
            start <= i <= n,
            start < n,
            n == s@.len(),
            dec_value(s@) == dec_num(s@.skip(i as int), acc as nat),
        decreases n - i,
    {
        let c = s.get_char(i);
        let cv = c as u32;
        proof {
            assert(s@.skip(i as int)[0] == s@[i as int]);
            assert(s@.skip(i as int).drop_first() =~= s@.skip(i + 1));
            assert(c as int == cv as int);
        }
        if cv < 48 || cv > 57 {
            assert(!is_dec_digit(s@[i as int]));
            assert(dec_num(s@.skip(i as int), acc as nat) is None);
            return None;
        }
        let d: u64 = (cv - 48) as u64;
        proof {
            assert(is_dec_digit(s@[i as int]));
            assert(dec_digit_val(s@[i as int]) == d as nat);
            assert(dec_num(s@.skip(i as int), acc as nat) == dec_num(
                s@.skip(i + 1),
                (acc as nat) * 10 + (d as nat),
            ));
        }
        let wide: u128 = acc as u128 * 10 + d as u128;
        proof {
            assert(wide as nat == (acc as nat) * 10 + (d as nat));
        }
        if wide > u64::MAX as u128 {
            proof {
                lemma_dec_num_lower(s@.skip(i + 1), (acc as nat) * 10 + (d as nat));
            }
            return None;
        }
        acc = wide as u64;
        i = i + 1;
    }
    proof {
        assert(s@.skip(n as int) =~= Seq::<char>::empty());
    }
    Some(acc)
}

/// The effective numeric id of a wire id: a number stands for itself, and a
/// string for the non-negative integer it reads as; anything else has none.
pub open spec fn numeric_id_of(id: Option<RawId>) -> Option<u64> {
    match id {
        Some(RawId::Num(n)) => Some(n),
        Some(RawId::Str(s)) => parse_u64_spec(s@),
        _ => None,
    }
}

/// Finds the first field whose key matches, if any.
pub fn find_key(fields: &Vec<(String, JsonValue)>, key: &str) -> (r: Option<usize>)
    ensures
        match r {
            Some(i) => i < fields@.len() && fields@[i as int].0@ == key@ && obj_lookup_seq(
                fields@,
                key@,
            ) == Some(fields@[i as int].1) && (forall|j: int|
                0 <= j < i ==> fields@[j].0@ != key@),
            None => obj_lookup_seq(fields@, key@) is None,
        },
{
    let n = fields.len();
    let mut i: usize = 0;
    assert(fields@.skip(0) =~= fields@);
    while i < n
        invariant
            i <= n,
            n == fields@.len(),
            obj_lookup_seq(fields@, key@) == obj_lookup_seq(fields@.skip(i as int), key@),
            forall|j: int| 0 <= j < i ==> fields@[j].0@ != key@,
        decreases n - i,
    {
        let pair = &fields[i];
        proof {
            assert(fields@.skip(i as int)[0] == fields@[i as int]);
            assert(fields@.skip(i as int).drop_first() =~= fields@.skip(i + 1));
        }
        if json::str_eq(pair.0.as_str(), key) {
            return Some(i);
        }
        i = i + 1;
    }
    assert(fields@.skip(n as int) =~= Seq::<(String, JsonValue)>::empty());
    None
}

/// Removing the first field that carries `key` leaves every other key's
/// lookup unchanged.
proof fn lemma_remove_first_match(
    s: Seq<(String, JsonValue)>,
    i: int,
    key: Seq<char>,
    k2: Seq<char>,
)
    requires
        0 <= i < s.len(),
        s[i].0@ == key,
        forall|j: int| 0 <= j < i ==> s[j].0@ != key,
        k2 != key,
    ensures
        obj_lookup_seq(s.remove(i), k2) == obj_lookup_seq(s, k2),
    decreases i,
{
    if i == 0 {
        assert(s.remove(0) =~= s.drop_first());
    } else {
        assert(s.remove(i)[0] == s[0]);
        assert(s.remove(i).drop_first() =~= s.drop_first().remove(i - 1));
        lemma_remove_first_match(s.drop_first(), i - 1, key, k2);
    }
}

/// Takes the value under `key` out of the field list; every other key still
/// looks up to the same value afterwards.
pub fn take_from(fields: &mut Vec<(String, JsonValue)>, key: &str) -> (r: Option<JsonValue>)
    ensures
        r == obj_lookup_seq(old(fields)@, key@),
        forall|k2: Seq<char>|
            k2 != key@ ==> obj_lookup_seq(final(fields)@, k2) == obj_lookup_seq(old(fields)@, k2),
{
    match find_key(fields, key) {
        Some(i) => {
            let ghost pre = fields@;
            let pair = fields.remove(i);
            proof {
                assert forall|k2: Seq<char>| k2 != key@ implies obj_lookup_seq(
                    fields@,
                    k2,
                ) == obj_lookup_seq(pre, k2) by {
                    lemma_remove_first_match(pre, i as int, key@, k2);
                }
            }
            Some(pair.1)
        },
        None => None,
    }
}

/// Takes the value under `key` out of an object; `None` on any other value.
pub fn take_field(v: JsonValue, key: &str) -> (r: Option<JsonValue>)
    ensures
        r == json_get(v, key@),
{
    match v {
        JsonValue::Object(mut fields) => {
            match find_key(&fields, key) {
                Some(i) => {
                    let pair = fields.remove(i);
                    Some(pair.1)
                },
                None => None,
            }
        },
        _ => None,
    }
}

/// Whether the wire id field is one the reader accepts: absent, null, a
/// non-negative integer, or a string.
pub open spec fn id_field_ok(f: Option<JsonValue>) -> bool {
    match f {
        None => true,
        Some(JsonValue::Null) => true,
        Some(JsonValue::Num(JsonNum::Uint(n))) => true,
        Some(JsonValue::Str(s)) => true,
        _ => false,
    }
}

pub open spec fn id_model(f: Option<JsonValue>) -> Option<RawId> {
    match f {
        Some(JsonValue::Null) => Some(RawId::Null),
        Some(JsonValue::Num(JsonNum::Uint(n))) => Some(RawId::Num(n)),
        Some(JsonValue::Str(s)) => Some(RawId::Str(s)),
        _ => None,
    }
}

/// Parameter normalization: objects and arrays pass unchanged, a missing
/// field and an explicit null both become null, anything else is refused.
pub open spec fn params_norm(f: Option<JsonValue>) -> Option<JsonValue> {
    match f {
        None => Some(JsonValue::Null),
        Some(JsonValue::Null) => Some(JsonValue::Null),
        Some(JsonValue::Object(fs)) => Some(JsonValue::Object(fs)),
        Some(JsonValue::Array(a)) => Some(JsonValue::Array(a)),
        Some(_) => None,
    }
}

/// What envelope parsing yields on a parsed document: the message, `None`
/// for a reply-shaped document without a method, or the fault.
pub open spec fn parse_spec(j: Option<JsonValue>) -> Result<Option<RawMessage>, ProtocolError> {
    match j {
        None => Err(ProtocolError::ParseError),
        Some(v) => {
            let idf = json_get(v, "id"@);
            if !id_field_ok(idf) {
                Err(ProtocolError::InvalidRequest)
            } else {
                match json_get(v, "method"@) {
                    None => Ok(None),
                    Some(JsonValue::Str(m)) => match params_norm(json_get(v, "params"@)) {
                        Some(p) => Ok(
                            Some(RawMessage { method: m, id: id_model(idf), params: p }),
                        ),
                        None => Err(ProtocolError::InvalidRequest),
                    },
                    Some(_) => Err(ProtocolError::InvalidRequest),
                }
            }
        },
    }
}

/// Envelope parsing on an already-parsed document.
pub fn parse_raw_message(v: JsonValue) -> (r: Result<Option<RawMessage>, ProtocolError>)
    ensures
        r == parse_spec(Some(v)),
{
    let id: Option<RawId> = match json::get(&v, "id") {
        None => None,
        Some(JsonValue::Null) => Some(RawId::Null),
        Some(JsonValue::Num(JsonNum::Uint(n))) => Some(RawId::Num(*n)),
        Some(JsonValue::Str(s)) => Some(RawId::Str(s.clone())),
        Some(_) => {
            return Err(ProtocolError::InvalidRequest);
        },
    };
    let method: String = match json::get(&v, "method") {
        None => {
            return Ok(None);
        },
        Some(JsonValue::Str(m)) => m.clone(),
        Some(_) => {
            return Err(ProtocolError::InvalidRequest);
        },
    };
    let params: JsonValue = match take_field(v, "params") {
        None => JsonValue::Null,
        Some(JsonValue::Null) => JsonValue::Null,
        Some(JsonValue::Object(fs)) => JsonValue::Object(fs),
        Some(JsonValue::Array(a)) => JsonValue::Array(a),
        Some(_) => {
            return Err(ProtocolError::InvalidRequest);
        },
    };
    Ok(Some(RawMessage { method, id, params }))
}

/// The shape of an outbound JSON-RPC envelope: the version tag, the id
/// where the message is a request, the method name, and the parameters.
pub open spec fn is_wire_envelope(
    v: JsonValue,
    id: Option<u64>,
    method: Seq<char>,
    params: JsonValue,
) -> bool {
    match v {
        JsonValue::Object(fs) => {
            let n = if id is Some {
                4int
            } else {
                3int
            };
            &&& fs@.len() == n
            &&& fs@[0].0@ == "jsonrpc"@
            &&& (fs@[0].1 matches JsonValue::Str(t) && t@ == "2.0"@)
            &&& (id matches Some(i) ==> fs@[1].0@ == "id"@ && fs@[1].1 == JsonValue::Num(
                JsonNum::Uint(i),
            ))
            &&& fs@[n - 2].0@ == "method"@
            &&& (fs@[n - 2].1 matches JsonValue::Str(m) && m@ == method)
            &&& fs@[n - 1].0@ == "params"@
            &&& fs@[n - 1].1 == params
        },
        _ => false,
    }
}

impl Request {
    /// The wire envelope this request would go out as, under `method`.
    pub fn to_envelope(self, method: &str) -> (r: JsonValue)
        ensures
            is_wire_envelope(r, Some(self.id), method@, self.params),
    {
        let mut fs: Vec<(String, JsonValue)> = Vec::new();
        fs.push(("jsonrpc".to_owned(), JsonValue::Str("2.0".to_owned())));
        fs.push(("id".to_owned(), JsonValue::Num(JsonNum::Uint(self.id))));
        fs.push(("method".to_owned(), JsonValue::Str(method.to_owned())));
        fs.push(("params".to_owned(), self.params));
        JsonValue::Object(fs)
    }
}

impl Notification {
    /// The wire envelope this notification would go out as, under `method`.
    pub fn to_envelope(self, method: &str) -> (r: JsonValue)
        ensures
            is_wire_envelope(r, None, method@, self.params),
    {
        let mut fs: Vec<(String, JsonValue)> = Vec::new();
        fs.push(("jsonrpc".to_owned(), JsonValue::Str("2.0".to_owned())));
        fs.push(("method".to_owned(), JsonValue::Str(method.to_owned())));
        fs.push(("params".to_owned(), self.params));
        JsonValue::Object(fs)
    }
}

impl RawMessage {
    /// Correlates this message as a request: the effective numeric id is
    /// taken as `numeric_id_of` says, and a message without one is refused.
    pub fn parse_as_request(self) -> (r: Result<Request, ProtocolError>)
        ensures
            match numeric_id_of(self.id) {
                Some(n) => r == Ok::<Request, ProtocolError>(
                    (Request { id: n, params: self.params }),
                ),
                None => r == Err::<Request, ProtocolError>(ProtocolError::InvalidRequest),
            },
    {
        match self.id {
            Some(RawId::Num(n)) => Ok(Request { id: n, params: self.params }),
            Some(RawId::Str(s)) => match parse_u64(s.as_str()) {
                Some(n) => Ok(Request { id: n, params: self.params }),
                None => Err(ProtocolError::InvalidRequest),
            },
            _ => Err(ProtocolError::InvalidRequest),
        }
    }

    /// Reads this message as a notification: the parameters pass through.
    pub fn parse_as_notification(self) -> (r: Notification)
        ensures
            r == (Notification { params: self.params }),
    {
        Notification { params: self.params }
    }
}

} // verus!
