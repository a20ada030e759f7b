use vstd::prelude::*;

verus! {

/// `serde_json::Value`, declared so decoded response payloads can flow
/// through the verified client.
#[verifier::external_type_specification]
#[verifier::external_body]
pub struct ExValue(serde_json::Value);

/// Relies on `serde_json::Value::get`: the member of a JSON object under
/// `key`, if the value is an object with such a member.
#[verifier::external_body]
pub(crate) fn json_get<'a>(v: &'a serde_json::Value, key: &str) -> Option<&'a serde_json::Value> {
    v.get(key)
}

/// Relies on `serde_json::Value::as_str`: the text of a JSON string value.
#[verifier::external_body]
pub(crate) fn json_as_str(v: &serde_json::Value) -> Option<String> {
    v.as_str().map(|s| s.to_owned())
}

/// Relies on `serde_json::Value::as_u64`: a JSON number value that is an
/// unsigned integer.
#[verifier::external_body]
pub(crate) fn json_as_u64(v: &serde_json::Value) -> Option<u64> {
    v.as_u64()
}

/// The `errorMessage` member of a payload, when present as a string.
pub(crate) fn error_message_of(v: &serde_json::Value) -> Option<String> {
    match json_get(v, "errorMessage") {
        Some(m) => json_as_str(m),
        None => None,
    }
}

/// The `status` member of a payload, when present as an unsigned number.
pub(crate) fn status_of(v: &serde_json::Value) -> Option<u64> {
    match json_get(v, "status") {
        Some(s) => json_as_u64(s),
        None => None,
    }
}

} // verus!
