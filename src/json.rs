use vstd::prelude::*;

verus! {

/// The entries of the JSON object at the start of a text, each as its key and the
/// compact JSON text of its value, or the description of why no object could be
/// read there.
pub uninterp spec fn leading_json_object(s: Seq<char>) -> Result<Seq<(Seq<char>, Seq<char>)>, Seq<char>>;

/// The content of a JSON string literal, if the text is one.
pub uninterp spec fn json_string_content(t: Seq<char>) -> Option<Seq<char>>;

pub open spec fn pairs_view(v: Seq<(String, String)>) -> Seq<(Seq<char>, Seq<char>)> {
    v.map_values(|p: (String, String)| (p.0@, p.1@))
}

pub open spec fn parsed_view(r: Result<Vec<(String, String)>, String>) -> Result<Seq<(Seq<char>, Seq<char>)>, Seq<char>> {
    match r {
        Ok(v) => Ok(pairs_view(v@)),
        Err(e) => Err(e@),
    }
}

/// Relies on serde_json: `Map<String, Value>` deserialized from a `Deserializer`
/// over `s` without `Deserializer::end`, so text after the object is not read;
/// each value rendered by `Value`'s `Display` (compact JSON), the error by its `Debug`.
#[verifier::external_body]
pub(crate) fn read_leading_json_object(s: &str) -> (r: Result<Vec<(String, String)>, String>)
    ensures
        parsed_view(r) == leading_json_object(s@),
{
    let mut de = serde_json::Deserializer::from_str(s);
    match <serde_json::Map<String, serde_json::Value> as serde::Deserialize>::deserialize(&mut de) {
        Ok(map) => Ok(map.into_iter().map(|(k, v)| (k, v.to_string())).collect()),
        Err(e) => Err(format!("{:?}", e)),
    }
}

/// Relies on `serde_json::from_str::<String>`: the decoded content of `t` when `t`
/// is exactly one JSON string literal.
#[verifier::external_body]
pub(crate) fn decode_json_string(t: &str) -> (r: Option<String>)
    ensures
        r matches Some(c) ==> json_string_content(t@) == Some(c@),
        r is None ==> json_string_content(t@) is None,
{
    serde_json::from_str::<String>(t).ok()
}

} // verus!
