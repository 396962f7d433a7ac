use vstd::prelude::*;

use crate::json::{Json, JsonNum};

verus! {

#[verifier::external_type_specification]
#[verifier::external_body]
pub struct ExValue(serde_json::Value);

/// What a piece of text parses to as JSON: the tree, or the parse error's
/// description. Both depend on the text alone.
pub uninterp spec fn json_of(s: Seq<char>) -> Result<Json, Seq<char>>;

/// Relies on serde_json::Value's public variants: each is carried over one to
/// one; a number keeps its u64 or i64 value where it has one and its decimal
/// text otherwise; object members keep the order serde_json's map yields them
/// in.
#[verifier::external_body]
fn json_from_value(v: serde_json::Value) -> Json {
    match v {
        serde_json::Value::Null => Json::Null,
        serde_json::Value::Bool(b) => Json::Bool(b),
        serde_json::Value::Number(n) => Json::Num(match (n.as_u64(), n.as_i64()) {
            (Some(u), _) => JsonNum::UInt(u),
            (None, Some(i)) => JsonNum::Int(i),
            _ => JsonNum::Other(n.to_string()),
        }),
        serde_json::Value::String(s) => Json::Str(s),
        serde_json::Value::Array(a) => Json::Arr(a.into_iter().map(json_from_value).collect()),
        serde_json::Value::Object(m) => Json::Obj(
            m.into_iter().map(|e| (e.0, json_from_value(e.1))).collect(),
        ),
    }
}

/// Relies on serde_json::from_str::<serde_json::Value>: whether the text
/// parses as JSON, the tree it parses to and the error's description depend
/// on the text alone.
#[verifier::external_body]
pub fn parse_json(s: &str) -> (r: Result<Json, String>)
    ensures
        (match r {
            Ok(j) => json_of(s@) == Ok::<Json, Seq<char>>(j),
            Err(e) => json_of(s@) == Err::<Json, Seq<char>>(e@),
        }),
{
    match serde_json::from_str::<serde_json::Value>(s) {
        Ok(v) => Ok(json_from_value(v)),
        Err(e) => Err(e.to_string()),
    }
}

} // verus!
