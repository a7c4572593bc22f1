use vstd::prelude::*;

verus! {

/// A decoded JSON document, as the service sends it back. The library reads
/// only the top-level `status` member and otherwise hands the document on.
#[verifier::external_type_specification]
#[verifier::external_body]
pub struct ExValue(serde_json::Value);

/// The member named `key` of a JSON object; `None` where there is none or
/// the value is no object.
pub uninterp spec fn json_member(v: serde_json::Value, key: Seq<char>) -> Option<serde_json::Value>;

/// The text of a JSON string; `None` for any other kind of value.
pub uninterp spec fn json_text(v: serde_json::Value) -> Option<Seq<char>>;

/// Relies on `serde_json::Value::as_str`: the text of a JSON string, `None`
/// for any other kind of value.
pub assume_specification[ serde_json::Value::as_str ](v: &serde_json::Value) -> (r: Option<&str>)
    ensures
        r is None <==> json_text(*v) is None,
        r matches Some(s) ==> json_text(*v) == Some(s@),
;

/// Relies on `serde_json::Value::get` with a string key: the member of that
/// name of a JSON object, `None` when there is none or the value is no object.
#[verifier::external_body]
pub(crate) fn member<'a>(v: &'a serde_json::Value, key: &str) -> (r: Option<&'a serde_json::Value>)
    ensures
        r is None <==> json_member(*v, key@) is None,
        r matches Some(m) ==> json_member(*v, key@) == Some(*m),
{
    v.get(key)
}

} // verus!
