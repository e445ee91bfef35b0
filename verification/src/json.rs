//! Parsing the raw values text.
//!
//! The override map arrives as one JSON text. The library accepts exactly a
//! JSON object all of whose values are strings, and works with its key/value
//! pairs in the object's own order; anything else is malformed. The JSON
//! grammar itself is the parser crate's business, so the parse result is
//! only named here, never restated.

use vstd::prelude::*;

verus! {

/// The key/value pairs, in object order, that a text parses to when it is a
/// JSON object all of whose values are strings; `None` for every other text.
pub uninterp spec fn json_string_object(s: Seq<char>) -> Option<Seq<(Seq<char>, Seq<char>)>>;

/// The view of a vector of key/value pairs.
pub open spec fn pairs_view(v: Seq<(String, String)>) -> Seq<(Seq<char>, Seq<char>)> {
    v.map_values(|p: (String, String)| (p.0@, p.1@))
}

/// Relies on serde_json::from_str: `Ok` exactly on the texts that parse as a
/// JSON object all of whose values are strings, handing back that object's
/// key/value pairs in the object's own order.
#[verifier::external_body]
pub fn parse_json_object(raw: &str) -> (r: Result<Vec<(String, String)>, ()>)
    ensures
        match r {
            Ok(pairs) => json_string_object(raw@) == Some(pairs_view(pairs@)),
            Err(_) => json_string_object(raw@) is None,
        },
{
    match serde_json::from_str::<serde_json::Value>(raw) {
        Ok(serde_json::Value::Object(m)) => {
            let mut out: Vec<(String, String)> = Vec::new();
            for (k, v) in m {
                match v {
                    serde_json::Value::String(s) => out.push((k, s)),
                    _ => return Err(()),
                }
            }
            Ok(out)
        },
        _ => Err(()),
    }
}

} // verus!
