use crate::text::{opt_text, parse_bool, parse_u64, spec_parse_bool, spec_parse_u64};
use vstd::prelude::*;

verus! {

/// A flag taken from the environment when the variable is set, from the file otherwise.
/// A set variable that is not `true` or `false` turns the flag off.
pub open spec fn resolved_flag(env: Option<Seq<char>>, file: bool) -> bool {
    match env {
        Some(text) => match spec_parse_bool(text) {
            Some(b) => b,
            None => false,
        },
        None => file,
    }
}

/// A number taken from the environment when the variable is set, from the file otherwise.
/// A set variable that is no `u64` gives `invalid`.
pub open spec fn resolved_number(env: Option<Seq<char>>, invalid: u64, file: u64) -> u64 {
    match env {
        Some(text) => match spec_parse_u64(text) {
            Some(n) => n,
            None => invalid,
        },
        None => file,
    }
}

pub fn resolve_flag(env: &Option<String>, file: bool) -> (flag: bool)
    ensures
        flag == resolved_flag(opt_text(*env), file),
{
    match env {
        Some(text) => match parse_bool(text.as_str()) {
            Some(b) => b,
            None => false,
        },
        None => file,
    }
}

pub fn resolve_number(env: &Option<String>, invalid: u64, file: u64) -> (n: u64)
    ensures
        n == resolved_number(opt_text(*env), invalid, file),
{
    match env {
        Some(text) => match parse_u64(text.as_str()) {
            Some(v) => v,
            None => invalid,
        },
        None => file,
    }
}

/// A variable that is set decides alone: whatever the file says is not looked at.
pub proof fn law_env_flag_takes_precedence(text: Seq<char>, file_a: bool, file_b: bool)
    ensures
        resolved_flag(Some(text), file_a) == resolved_flag(Some(text), file_b),
{
}

/// A variable that is set decides alone: whatever the file says is not looked at.
pub proof fn law_env_number_takes_precedence(
    text: Seq<char>,
    invalid: u64,
    file_a: u64,
    file_b: u64,
)
    ensures
        resolved_number(Some(text), invalid, file_a) == resolved_number(
            Some(text),
            invalid,
            file_b,
        ),
{
}

/// The section that a plugin gets from the file: `file` is `None` when the file could not
/// be read or its section could not be parsed, which counts as no section at all.
pub open spec fn readable_section<T>(file: Option<Option<T>>) -> Option<T> {
    match file {
        Some(section) => section,
        None => None,
    }
}

} // verus!
