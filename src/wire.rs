//! The two wire formats a token and a key set arrive in: base64url text and
//! JSON documents. Both are decoded by outside crates; what they return is
//! named here and the rest of the library reasons over those names.
use base64::Engine;
use vstd::prelude::*;

verus! {

/// What the unpadded base64url decoding of `text` yields, if `text` is a
/// canonical unpadded base64url encoding.
pub uninterp spec fn base64url_decoding(text: Seq<u8>) -> Option<Seq<u8>>;

/// The string value of member `name` of the JSON object `doc`, if `doc` is a
/// JSON object with such a member holding a string.
pub uninterp spec fn json_string_at(doc: Seq<u8>, name: Seq<char>) -> Option<Seq<char>>;

/// The value of member `name` of the JSON object `doc`, if it holds an
/// integer that fits in 64 unsigned bits.
pub uninterp spec fn json_u64_at(doc: Seq<u8>, name: Seq<char>) -> Option<u64>;

/// The strings of member `name` of the JSON object `doc`, if it holds an
/// array whose items are all strings.
pub uninterp spec fn json_string_list_at(doc: Seq<u8>, name: Seq<char>) -> Option<
    Seq<Seq<char>>,
>;

/// The items of the array held by member `name` of the JSON object `doc`,
/// each written back out as a JSON document of its own.
pub uninterp spec fn json_array_items_at(doc: Seq<u8>, name: Seq<char>) -> Option<Seq<Seq<u8>>>;

/// The views of a list of strings.
pub open spec fn texts(v: Seq<String>) -> Seq<Seq<char>> {
    v.map_values(|s: String| s@)
}

/// The views of a list of byte vectors.
pub open spec fn byte_seqs(v: Seq<Vec<u8>>) -> Seq<Seq<u8>> {
    v.map_values(|b: Vec<u8>| b@)
}

/// Relies on base64's `URL_SAFE_NO_PAD` engine (`Engine::decode`): the
/// result is a function of the input text alone.
#[verifier::external_body]
pub(crate) fn decode_base64url(text: &[u8]) -> (r: Option<Vec<u8>>)
    ensures
        r matches Some(v) ==> base64url_decoding(text@) == Some(v@),
        r is None ==> base64url_decoding(text@) is None,
{
    base64::engine::general_purpose::URL_SAFE_NO_PAD.decode(text).ok()
}

/// Relies on `serde_json::from_slice` into a `Value`, then `Value::get` and
/// `Value::as_str`.
#[verifier::external_body]
pub(crate) fn json_string_member(doc: &[u8], name: &str) -> (r: Option<String>)
    ensures
        r matches Some(s) ==> json_string_at(doc@, name@) == Some(s@),
        r is None ==> json_string_at(doc@, name@) is None,
{
    let v = serde_json::from_slice::<serde_json::Value>(doc).ok()?;
    v.get(name)?.as_str().map(|s| s.to_string())
}

/// Relies on `serde_json::from_slice` into a `Value`, then `Value::get` and
/// `Value::as_u64`.
#[verifier::external_body]
pub(crate) fn json_u64_member(doc: &[u8], name: &str) -> (r: Option<u64>)
    ensures
        r == json_u64_at(doc@, name@),
{
    let v = serde_json::from_slice::<serde_json::Value>(doc).ok()?;
    v.get(name)?.as_u64()
}

/// Relies on `serde_json::from_slice` into a `Value`, then `Value::get`,
/// `Value::as_array` and `Value::as_str` on each item.
#[verifier::external_body]
pub(crate) fn json_string_list_member(doc: &[u8], name: &str) -> (r: Option<Vec<String>>)
    ensures
        r matches Some(v) ==> json_string_list_at(doc@, name@) == Some(texts(v@)),
        r is None ==> json_string_list_at(doc@, name@) is None,
{
    let v = serde_json::from_slice::<serde_json::Value>(doc).ok()?;
    let items = v.get(name)?.as_array()?;
    items.iter().map(|i| i.as_str().map(|s| s.to_string())).collect()
}

/// Relies on `serde_json::from_slice` into a `Value`, then `Value::get`,
/// `Value::as_array`, and `serde_json::to_vec` on each item.
#[verifier::external_body]
pub(crate) fn json_array_items_member(doc: &[u8], name: &str) -> (r: Option<Vec<Vec<u8>>>)
    ensures
        r matches Some(v) ==> json_array_items_at(doc@, name@) == Some(byte_seqs(v@)),
        r is None ==> json_array_items_at(doc@, name@) is None,
{
    let v = serde_json::from_slice::<serde_json::Value>(doc).ok()?;
    let items = v.get(name)?.as_array()?;
    items.iter().map(|i| serde_json::to_vec(i).ok()).collect()
}

} // verus!
