//! The JSON edge of the decoder: serde_json reads the body, and each
//! wire field comes out reduced to the plain [`FieldValue`] shapes that
//! the verified decoder works on. What serde_json answers is a function
//! of the body text alone, so each answer carries a name
//! ([`spec_geo_body_ok`], [`spec_geo_field`]) that the decode contracts
//! are exact over.

use vstd::prelude::*;
use crate::utils::{spec_geo_body_ok, spec_geo_field, FieldValue};

verus! {

/// Relies on serde_json::from_str::<Value> and serde_json::Value::is_object:
/// whether the body is one valid JSON value that is an object. The answer
/// depends on the body text alone; it bears the name `spec_geo_body_ok`.
#[verifier::external_body]
pub(crate) fn geo_body_is_object(body: &str) -> (r: bool)
    ensures
        r == spec_geo_body_ok(body@),
{
    match serde_json::from_str::<serde_json::Value>(body) {
        Ok(v) => v.is_object(),
        Err(_) => false,
    }
}

/// Relies on serde_json::from_str::<Value>, Value::get (None on anything
/// but an object with the key), Number::as_i64 and the JSON text that
/// Number's Display writes: the field of the body's object under `key`,
/// reduced to the shapes the decoder tells apart. The answer depends on
/// the body text and the key alone; it bears the name `spec_geo_field`.
#[verifier::external_body]
pub(crate) fn geo_field(body: &str, key: &str) -> (r: FieldValue)
    ensures
        r == spec_geo_field(body@, key@),
{
    let v: serde_json::Value = match serde_json::from_str(body) {
        Ok(v) => v,
        Err(_) => return FieldValue::Other,
    };
    match v.get(key) {
        None => FieldValue::Absent,
        Some(serde_json::Value::String(s)) => FieldValue::Text(s.clone()),
        Some(serde_json::Value::Number(n)) => match n.as_i64() {
            Some(i) => FieldValue::Integer(i),
            None => FieldValue::NumberText(n.to_string()),
        },
        Some(_) => FieldValue::Other,
    }
}

} // verus!
