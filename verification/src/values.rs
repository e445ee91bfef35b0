//! The values-indirection resolver.
//!
//! Each entry of the parsed override map either is an indirection marker —
//! its whole content is `{{NAME}}` — and stands for the environment variable
//! `NAME`, or it is a literal and stands for itself. Resolution is a single
//! pass: a resolved value is never re-scanned, keys and their order are
//! kept, and the first marker naming an unset variable is fatal.

use vstd::prelude::*;
use crate::environment::{Env, EnvSeq, lookup};
use crate::errors::ConfigError;
use crate::json::{json_string_object, pairs_view, parse_json_object};
use crate::marker::{is_marker, marker_var, marker_name};

verus! {

/// What one values entry resolves to: the named variable's value for a
/// marker (`None` when that variable is unset), the entry itself otherwise.
pub open spec fn resolve_entry(v: Seq<char>, env: EnvSeq) -> Option<Seq<char>> {
    if is_marker(v) {
        lookup(env, marker_var(v))
    } else {
        Some(v)
    }
}

/// Every entry among the first `n` resolves.
pub open spec fn resolvable_to(
    pairs: Seq<(Seq<char>, Seq<char>)>,
    env: EnvSeq,
    n: int,
) -> bool {
    forall|i: int| 0 <= i < n ==> resolve_entry(#[trigger] pairs[i].1, env) is Some
}

/// Every entry resolves.
pub open spec fn resolvable(pairs: Seq<(Seq<char>, Seq<char>)>, env: EnvSeq) -> bool {
    resolvable_to(pairs, env, pairs.len() as int)
}

/// The resolved map: same keys, same order, each value resolved.
pub open spec fn resolved_pairs(pairs: Seq<(Seq<char>, Seq<char>)>, env: EnvSeq) -> Seq<
    (Seq<char>, Seq<char>),
> {
    pairs.map_values(|p: (Seq<char>, Seq<char>)| (p.0, resolve_entry(p.1, env)->Some_0))
}

/// Entry `i` is the first that fails to resolve.
pub open spec fn first_unresolved(
    pairs: Seq<(Seq<char>, Seq<char>)>,
    env: EnvSeq,
    i: int,
) -> bool {
    &&& 0 <= i < pairs.len()
    &&& resolve_entry(pairs[i].1, env) is None
    &&& forall|j: int| 0 <= j < i ==> resolve_entry(#[trigger] pairs[j].1, env) is Some
}

/// The successful outcome: the raw text parses to an object whose entries
/// all resolve, and `out` is that object with each value resolved, keys and
/// order kept.
pub open spec fn values_resolved(
    raw: Seq<char>,
    env: EnvSeq,
    out: Seq<(Seq<char>, Seq<char>)>,
) -> bool {
    match json_string_object(raw) {
        Some(pairs) => resolvable(pairs, env) && out == resolved_pairs(pairs, env),
        None => false,
    }
}

/// The unresolved-indirection outcome: the raw text parses, and the first
/// entry that fails to resolve has key `key` and is a marker referencing the
/// unset variable `referenced`.
pub open spec fn values_unresolved(
    raw: Seq<char>,
    env: EnvSeq,
    key: Seq<char>,
    referenced: Seq<char>,
) -> bool {
    match json_string_object(raw) {
        Some(pairs) => exists|i: int|
            {
                &&& #[trigger] first_unresolved(pairs, env, i)
                &&& pairs[i].0 == key
                &&& is_marker(pairs[i].1)
                &&& marker_var(pairs[i].1) == referenced
            },
        None => false,
    }
}

/// Parses the raw override text and resolves its indirections against the
/// environment snapshot.
///
/// Returns the resolved map exactly when the text is a JSON object of
/// strings and every marker entry names a set variable; `MalformedValues`
/// exactly when the text is not such an object; `UnresolvedIndirection`,
/// naming the first failing key and the variable it references, exactly when
/// a marker entry names an unset variable.
pub fn resolve_values(raw: &str, env: &Env) -> (r: Result<Vec<(String, String)>, ConfigError>)
    ensures
        match r {
            Ok(out) => values_resolved(raw@, env@, pairs_view(out@)),
            Err(e) => match e {
                ConfigError::MalformedValues => json_string_object(raw@) is None,
                ConfigError::UnresolvedIndirection { key, referenced_var } => values_unresolved(
                    raw@,
                    env@,
                    key@,
                    referenced_var@,
                ),
                _ => false,
            },
        },
{
    let parsed = match parse_json_object(raw) {
        Ok(p) => p,
        Err(_) => {
            return Err(ConfigError::MalformedValues);
        },
    };
    let ghost pairs = pairs_view(parsed@);
    let n = parsed.len();
    let mut out: Vec<(String, String)> = Vec::new();
    let mut i: usize = 0;
    while i < n
        invariant
            n == parsed.len(),
            pairs == pairs_view(parsed@),
            json_string_object(raw@) == Some(pairs),
            0 <= i <= n,
            pairs.len() == n,
            out@.len() == i,
            resolvable_to(pairs, env@, i as int),
            forall|j: int|
                0 <= j < i ==> (#[trigger] out@[j]).0@ == pairs[j].0 && Some(out@[j].1@)
                    == resolve_entry(pairs[j].1, env@),
        decreases n - i,
    {
        proof {
            assert(pairs[i as int] == (parsed@[i as int].0@, parsed@[i as int].1@));
        }
        let key = parsed[i].0.clone();
        let value = &parsed[i].1;
        match marker_name(value.as_str()) {
            Some(name) => match env.get(name.as_str()) {
                Some(resolved) => {
                    out.push((key, resolved));
                },
                None => {
                    proof {
                        let p = json_string_object(raw@)->Some_0;
                        assert(p == pairs);
                        assert(first_unresolved(p, env@, i as int) && p[i as int].0 == key@
                            && is_marker(p[i as int].1) && marker_var(p[i as int].1) == name@);
                        assert(values_unresolved(raw@, env@, key@, name@));
                    }
                    return Err(
                        ConfigError::UnresolvedIndirection { key, referenced_var: name },
                    );
                },
            },
            None => {
                out.push((key, value.clone()));
            },
        }
        i += 1;
    }
    proof {
        assert(pairs_view(out@) =~= resolved_pairs(pairs, env@));
        assert(values_resolved(raw@, env@, pairs_view(out@)));
    }
    Ok(out)
}

/// Resolution keeps the key set and its order, and an entry that is not a
/// marker passes through unchanged.
pub proof fn lemma_resolution_preserves_shape(pairs: Seq<(Seq<char>, Seq<char>)>, env: EnvSeq)
    ensures
        resolved_pairs(pairs, env).len() == pairs.len(),
        forall|i: int|
            0 <= i < pairs.len() ==> (#[trigger] resolved_pairs(pairs, env)[i]).0 == pairs[i].0,
        forall|i: int|
            0 <= i < pairs.len() && !is_marker(pairs[i].1) ==> (#[trigger] resolved_pairs(
                pairs,
                env,
            )[i]).1 == pairs[i].1,
{
}

} // verus!
