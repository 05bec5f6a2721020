use vstd::prelude::*;

verus! {

/// JSON values parsed by serde_json are carried through opaquely: the
/// verified logic extracts plain values from them through the wrappers
/// below and does its own work on those.
#[verifier::external_type_specification]
#[verifier::external_body]
pub struct ExValue(serde_json::Value);

/// What the standard-alphabet base64 decoder returns for a string: the
/// result depends on the input characters alone.
pub uninterp spec fn base64_decoded(s: Seq<char>) -> Option<Seq<u8>>;

/// Relies on base64's `Engine::decode` with the standard engine: decoding
/// is a pure function of the input text, failing exactly on text that is
/// not valid base64.
#[verifier::external_body]
pub fn base64_decode(s: &str) -> (r: Option<Vec<u8>>)
    ensures
        match r {
            Some(v) => base64_decoded(s@) == Some(v@),
            None => base64_decoded(s@) is None,
        },
{
    base64::Engine::decode(&base64::engine::general_purpose::STANDARD, s).ok()
}

/// Relies on `serde_json::from_str`: parses a JSON document, or nothing
/// when the text is not valid JSON. The value is opaque to the verifier.
#[verifier::external_body]
pub fn json_parse(s: &str) -> (r: Option<serde_json::Value>) {
    serde_json::from_str::<serde_json::Value>(s).ok()
}

/// Relies on `serde_json::Value::get` with a string index: looks a key up
/// in a JSON object, or nothing when the value is no object or lacks the
/// key.
#[verifier::external_body]
pub fn json_get<'a>(v: &'a serde_json::Value, key: &str) -> (r: Option<&'a serde_json::Value>) {
    v.get(key)
}

/// Relies on `serde_json::Value::as_str`: the borrowed string when the
/// value is a JSON string, or nothing otherwise.
#[verifier::external_body]
pub fn json_as_str(v: &serde_json::Value) -> (r: Option<String>) {
    v.as_str().map(|s| s.to_owned())
}

/// Relies on `serde_json::Value::as_array`: the element vector when the
/// value is a JSON array, or nothing otherwise.
#[verifier::external_body]
pub fn json_as_array<'a>(v: &'a serde_json::Value) -> (r: Option<&'a Vec<serde_json::Value>>) {
    v.as_array()
}

/// Relies on `serde_json::Value::as_u64`: the number when the value is an
/// unsigned JSON integer in range, or nothing otherwise.
#[verifier::external_body]
pub fn json_as_u64(v: &serde_json::Value) -> (r: Option<u64>) {
    v.as_u64()
}

} // verus!
