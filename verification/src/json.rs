//! A plain model of a parsed JSON document, and the trusted bridge that
//! obtains one from JSON text. The decoding of records out of this model is
//! verified; only the text-to-model step is taken on trust.

use vstd::prelude::*;

use crate::text::str_eq;

verus! {

/// A parsed JSON value, holding only what the record shapes read: strings,
/// arrays, objects and null. A number or a boolean is kept as `Other`; no
/// record field accepts one, so decoding treats it as a wrong type.
#[derive(Debug)]
pub enum JsonValue {
    Null,
    Str(String),
    Arr(Vec<JsonValue>),
    Obj(Vec<(String, JsonValue)>),
    Other,
}

/// The value of the first field named `key`, searching the object's fields
/// in order.
pub open spec fn obj_get(fields: Seq<(String, JsonValue)>, key: Seq<char>) -> Option<JsonValue>
    decreases fields.len(),
{
    if fields.len() == 0 {
        Option::None
    } else if fields[0].0@ == key {
        Option::Some(fields[0].1)
    } else {
        obj_get(fields.skip(1), key)
    }
}

/// Looks a field up by name, as `obj_get` describes.
pub fn obj_get_exec<'a>(fields: &'a Vec<(String, JsonValue)>, key: &str) -> (r: Option<
    &'a JsonValue,
>)
    ensures
        r matches Some(v) ==> obj_get(fields@, key@) == Option::Some(*v),
        r is None ==> obj_get(fields@, key@) is None,
{
    let n = fields.len();
    proof {
        assert(fields@.skip(0) =~= fields@);
    }
    let mut i: usize = 0;
    while i < n
        invariant
            i <= n,
            n == fields@.len(),
            obj_get(fields@, key@) == obj_get(fields@.skip(i as int), key@),
        decreases n - i,
    {
        proof {
            assert(fields@.skip(i as int)[0] == fields@[i as int]);
            assert(fields@.skip(i as int).skip(1) =~= fields@.skip(i + 1));
        }
        if str_eq(fields[i].0.as_str(), key) {
            return Some(&fields[i].1);
        }
        i += 1;
    }
    proof {
        assert(fields@.skip(i as int) =~= Seq::<(String, JsonValue)>::empty());
    }
    None
}

/// serde_json's value type, declared so that the conversion below may take
/// it; the library never looks inside such a value.
#[verifier::external_type_specification]
#[verifier::external_body]
pub struct ExSerdeJsonValue(serde_json::Value);

/// What parsing a given JSON text yields: a model when the text is valid
/// JSON, and nothing otherwise. The result depends on the text alone.
pub uninterp spec fn parsed_json(s: Seq<char>) -> Option<JsonValue>;

/// Relies on serde_json::from_str: it accepts exactly the valid JSON texts,
/// and the value it builds is a function of the text alone. The returned
/// tree is translated one node at a time into the library's model.
#[verifier::external_body]
pub fn parse_json(s: &str) -> (r: Option<JsonValue>)
    ensures
        r == parsed_json(s@),
{
    match serde_json::from_str::<serde_json::Value>(s) {
        Ok(v) => Some(model_of_value(v)),
        Err(_) => None,
    }
}

/// Relies on the shape of serde_json::Value: each variant is carried over to
/// the matching variant of the model, field for field.
#[verifier::external_body]
fn model_of_value(v: serde_json::Value) -> JsonValue {
    match v {
        serde_json::Value::Null => JsonValue::Null,
        serde_json::Value::Bool(_) => JsonValue::Other,
        serde_json::Value::Number(_) => JsonValue::Other,
        serde_json::Value::String(s) => JsonValue::Str(s),
        serde_json::Value::Array(a) => JsonValue::Arr(
            a.into_iter().map(model_of_value).collect(),
        ),
        serde_json::Value::Object(m) => JsonValue::Obj(
            m.into_iter().map(|(k, x)| (k, model_of_value(x))).collect(),
        ),
    }
}

} // verus!
