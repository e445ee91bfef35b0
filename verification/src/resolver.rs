//! Two-tier environment lookup with typed coercion.
//!
//! A setting is resolved by trying a generic (prefixed) variable name first,
//! then a tool-specific one; the first that is set — even to the empty
//! string — is authoritative. A required setting with neither name set is a
//! fatal error, an optional one falls back to its default. A boolean setting
//! accepts exactly the canonical texts `true` and `false`.

use vstd::prelude::*;
use crate::environment::{Env, EnvSeq, lookup};
use crate::errors::ConfigError;

verus! {

/// The authoritative value of a setting: `primary`'s if set, else
/// `fallback`'s if set, else none.
pub open spec fn two_tier(env: EnvSeq, primary: Seq<char>, fallback: Seq<char>) -> Option<
    Seq<char>,
> {
    match lookup(env, primary) {
        Some(v) => Some(v),
        None => lookup(env, fallback),
    }
}

/// The name of the variable the authoritative value came from (the fallback
/// name when neither is set).
pub open spec fn two_tier_name(env: EnvSeq, primary: Seq<char>, fallback: Seq<char>) -> Seq<
    char,
> {
    if lookup(env, primary) is Some {
        primary
    } else {
        fallback
    }
}

/// What a boolean setting's text coerces to: only the canonical forms.
pub open spec fn parse_bool(v: Seq<char>) -> Option<bool> {
    if v == "true"@ {
        Some(true)
    } else if v == "false"@ {
        Some(false)
    } else {
        None
    }
}

/// The resolved value of an optional boolean setting: the default when
/// neither name is set, otherwise the coercion of the authoritative text
/// (`None`: the text is not a boolean, a fatal type error).
pub open spec fn bool_setting(
    env: EnvSeq,
    primary: Seq<char>,
    fallback: Seq<char>,
    default: bool,
) -> Option<bool> {
    match two_tier(env, primary, fallback) {
        Some(v) => parse_bool(v),
        None => Some(default),
    }
}

/// The resolved value of an optional string setting.
pub open spec fn string_setting(
    env: EnvSeq,
    primary: Seq<char>,
    fallback: Seq<char>,
    default: Seq<char>,
) -> Seq<char> {
    match two_tier(env, primary, fallback) {
        Some(v) => v,
        None => default,
    }
}

/// A required string setting: the authoritative value, or
/// `MissingConfiguration` under the tool-specific name when neither tier is
/// set.
pub fn resolve_required(env: &Env, primary: &str, fallback: &str) -> (r: Result<
    String,
    ConfigError,
>)
    ensures
        match r {
            Ok(v) => two_tier(env@, primary@, fallback@) == Some(v@),
            Err(e) => {
                &&& two_tier(env@, primary@, fallback@) is None
                &&& e matches ConfigError::MissingConfiguration { name } && name@ == fallback@
            },
        },
{
    match env.get(primary) {
        Some(v) => Ok(v),
        None => match env.get(fallback) {
            Some(v) => Ok(v),
            None => Err(ConfigError::MissingConfiguration { name: String::from_str(fallback) }),
        },
    }
}

/// An optional string setting: the authoritative value, or the default.
pub fn resolve_optional(env: &Env, primary: &str, fallback: &str, default: &str) -> (r: String)
    ensures
        r@ == string_setting(env@, primary@, fallback@, default@),
{
    match env.get(primary) {
        Some(v) => v,
        None => match env.get(fallback) {
            Some(v) => v,
            None => String::from_str(default),
        },
    }
}

/// An optional boolean setting: the default when unset, the coerced value
/// when the text is canonical, and `InvalidConfigurationType` naming the
/// authoritative variable otherwise.
pub fn resolve_bool(env: &Env, primary: &str, fallback: &str, default: bool) -> (r: Result<
    bool,
    ConfigError,
>)
    ensures
        match r {
            Ok(b) => bool_setting(env@, primary@, fallback@, default) == Some(b),
            Err(e) => {
                &&& bool_setting(env@, primary@, fallback@, default) is None
                &&& e matches ConfigError::InvalidConfigurationType { name, expected, actual }
                &&& name@ == two_tier_name(env@, primary@, fallback@)
                &&& expected@ == "boolean"@
                &&& two_tier(env@, primary@, fallback@) == Some(actual@)
            },
        },
{
    let found: Option<(String, &str)> = match env.get(primary) {
        Some(v) => Some((v, primary)),
        None => match env.get(fallback) {
            Some(v) => Some((v, fallback)),
            None => None,
        },
    };
    match found {
        None => Ok(default),
        Some((v, name)) => {
            if v == String::from_str("true") {
                Ok(true)
            } else if v == String::from_str("false") {
                Ok(false)
            } else {
                Err(
                    ConfigError::InvalidConfigurationType {
                        name: String::from_str(name),
                        expected: String::from_str("boolean"),
                        actual: v,
                    },
                )
            }
        },
    }
}

} // verus!
