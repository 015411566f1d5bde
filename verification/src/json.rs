//! A JSON document as a value the verifier can reason about.
//!
//! The external parser turns raw text into `serde_json::Value`; that type is
//! opaque to the verifier, so immediately behind the parse the tree is copied
//! into [`JsonValue`], a plain enum whose structure every contract in this
//! crate can inspect. What the parser returns for a given text is named by
//! the uninterpreted function [`spec_parse_json`]: parsing is a pure function
//! of the input text, and all shape validation downstream is verified against
//! whatever tree that function denotes.

use vstd::prelude::*;

verus! {

/// A parsed JSON tree.
///
/// `Num` holds what `serde_json::Number::as_u64` reports: `Some(n)` exactly
/// when the number is an integer representable as `u64` (the only reading the
/// seat and catalog shapes use), `None` for any other number. An object is a
/// list of key/value members; the external parser yields at most one member
/// per key, and lookup takes the first match.
pub enum JsonValue {
    Null,
    Bool(bool),
    Num(Option<u64>),
    Str(String),
    Arr(Vec<JsonValue>),
    Obj(Vec<(String, JsonValue)>),
}

/// Declares `serde_json::Value`, the external parser's own tree type, so that
/// the conversion below may take a reference to it; the verifier sees nothing
/// inside a value of it.
#[verifier::external_type_specification]
#[verifier::external_body]
pub struct ExValue(serde_json::Value);

/// The JSON tree that the external parser yields for the text `s`, or `None`
/// where the text is not valid JSON. Parsing is deterministic in the text,
/// so the result can be named; nothing else is assumed about it.
pub uninterp spec fn spec_parse_json(s: Seq<char>) -> Option<JsonValue>;

/// Relies on `serde_json::from_str::<serde_json::Value>`: parses the text, or
/// fails exactly on malformed JSON; the result depends on the text alone.
#[verifier::external_body]
pub(crate) fn parse_json(s: &str) -> (r: Option<JsonValue>)
    ensures
        r == spec_parse_json(s@),
{
    match serde_json::from_str::<serde_json::Value>(s) {
        Ok(v) => Some(from_value(&v)),
        Err(_) => None,
    }
}

/// Relies on `serde_json::Value` and `serde_json::Number::as_u64`: copies the
/// parsed tree into the crate's own enum, one arm per variant, in order.
#[verifier::external_body]
fn from_value(v: &serde_json::Value) -> JsonValue {
    match v {
        serde_json::Value::Null => JsonValue::Null,
        serde_json::Value::Bool(b) => JsonValue::Bool(*b),
        serde_json::Value::Number(n) => JsonValue::Num(n.as_u64()),
        serde_json::Value::String(s) => JsonValue::Str(s.clone()),
        serde_json::Value::Array(a) => JsonValue::Arr(a.iter().map(from_value).collect()),
        serde_json::Value::Object(m) => JsonValue::Obj(
            m.iter().map(|(k, w)| (k.clone(), from_value(w))).collect(),
        ),
    }
}

/// The value of the first member of `members` whose key reads `key`.
pub open spec fn spec_member_lookup(members: Seq<(String, JsonValue)>, key: Seq<char>) -> Option<
    JsonValue,
>
    decreases members.len(),
{
    if members.len() == 0 {
        None
    } else if members[0].0@ == key {
        Some(members[0].1)
    } else {
        spec_member_lookup(members.drop_first(), key)
    }
}

/// Looks a key up among the members of a JSON object.
pub fn member_lookup<'a>(members: &'a Vec<(String, JsonValue)>, key: &str) -> (r: Option<
    &'a JsonValue,
>)
    ensures
        match r {
            Some(v) => spec_member_lookup(members@, key@) == Some(*v),
            None => spec_member_lookup(members@, key@) is None,
        },
{
    let wanted: String = String::from_str(key);
    let len: usize = members.len();
    let mut i: usize = 0;
    proof {
        assert(members@.skip(0) =~= members@);
    }
    while i < len
        invariant
            len == members@.len(),
            i <= len,
            wanted@ == key@,
            spec_member_lookup(members@, key@) == spec_member_lookup(members@.skip(i as int), key@),
        decreases len - i,
    {
        proof {
            assert(members@.skip(i as int).drop_first() =~= members@.skip(i + 1));
        }
        if members[i].0 == wanted {
            return Some(&members[i].1);
        }
        i += 1;
    }
    None
}

} // verus!
