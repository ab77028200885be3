//! JSON values, as far as the proxy handles them.
//!
//! A payload passes through the library untouched: it is never inspected,
//! only carried from the caller to the request and from the response to the
//! envelope. What the contracts say of a value, they say of its JSON text.

use vstd::prelude::*;

verus! {

/// `serde_json::Value`, opaque to the verifier.
#[verifier::external_type_specification]
#[verifier::external_body]
pub struct ExValue(serde_json::Value);

/// The compact JSON text that `serde_json` writes for `value`: what its
/// `Display` impl and `serde_json::to_vec` put out.
pub uninterp spec fn json_text(value: serde_json::Value) -> Seq<char>;

/// The JSON text of the object without entries.
pub open spec fn empty_object_text() -> Seq<char> {
    "{}"@
}

/// Builds `serde_json::Value::Object` around `serde_json::Map::new()`.
///
/// Trusted: the value is the object without entries, which `serde_json`
/// writes as an opening and a closing brace with nothing between them.
#[verifier::external_body]
pub(crate) fn empty_object() -> (r: serde_json::Value)
    ensures
        json_text(r) == empty_object_text(),
{
    serde_json::Value::Object(serde_json::Map::new())
}

/// Calls `to_string` on a `serde_json::Value`, which goes through its
/// `Display` impl.
///
/// Trusted: the result is the value's compact JSON text.
#[verifier::external_body]
pub(crate) fn to_text(value: &serde_json::Value) -> (r: String)
    ensures
        r@ == json_text(*value),
{
    value.to_string()
}

} // verus!
