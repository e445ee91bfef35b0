//! The indirection-marker grammar for values entries.
//!
//! A values entry is a marker when its entire content is `{{`, one or more
//! word characters (ASCII letters, digits, underscore), then `}}`, anchored
//! at both ends: nothing before, nothing after, no partial match. The
//! captured word is the name of the environment variable the entry aliases.

use vstd::prelude::*;

verus! {

/// An ASCII word character: a letter, a digit or an underscore.
pub open spec fn is_word_char(c: char) -> bool {
    ||| c == '_'
    ||| 97 <= c as int && c as int <= 122
    ||| 65 <= c as int && c as int <= 90
    ||| 48 <= c as int && c as int <= 57
}

/// Whether `s` is exactly `{{` + one-or-more word characters + `}}`.
pub open spec fn is_marker(s: Seq<char>) -> bool {
    &&& s.len() >= 5
    &&& s[0] == '{'
    &&& s[1] == '{'
    &&& s[s.len() - 2] == '}'
    &&& s[s.len() - 1] == '}'
    &&& forall|i: int| 2 <= i < s.len() - 2 ==> is_word_char(#[trigger] s[i])
}

/// The variable name a marker captures: everything between the braces.
pub open spec fn marker_var(s: Seq<char>) -> Seq<char> {
    s.subrange(2, s.len() - 2)
}

fn word_char(c: char) -> (r: bool)
    ensures
        r == is_word_char(c),
{
    let u = c as u32;
    u == 95 || (97 <= u && u <= 122) || (65 <= u && u <= 90) || (48 <= u && u <= 57)
}

/// The variable name captured from `s`, when `s` is a marker; `None` when
/// `s` does not match the marker form and so stands for itself.
pub fn marker_name(s: &str) -> (r: Option<String>)
    ensures
        match r {
            Some(name) => is_marker(s@) && name@ == marker_var(s@),
            None => !is_marker(s@),
        },
{
    let n = s.unicode_len();
    if n < 5 {
        return None;
    }
    if s.get_char(0) != '{' || s.get_char(1) != '{' || s.get_char(n - 2) != '}'
        || s.get_char(n - 1) != '}' {
        return None;
    }
    let mut i: usize = 2;
    while i < n - 2
        invariant
            5 <= n == s@.len(),
            2 <= i <= n - 2,
            forall|j: int| 2 <= j < i ==> is_word_char(#[trigger] s@[j]),
        decreases n - i,
    {
        if !word_char(s.get_char(i)) {
            return None;
        }
        i += 1;
    }
    Some(String::from_str(s.substring_char(2, n - 2)))
}

} // verus!
