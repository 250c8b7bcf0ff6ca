//! Kernel configuration options as they are named on the command line.

use vstd::prelude::*;
use crate::shell::is_ascii_alphanumeric;
use crate::text::to_chars;

verus! {

/// Why a text names no kernel configuration option.
#[derive(Debug, Clone, Copy, PartialEq, Eq)]
pub enum OptionError {
    /// The text is empty, or nothing follows its sign.
    Empty,
    /// The text begins with neither `+` nor `-`.
    MissingSign,
    /// The name holds a character that is no letter, digit or underscore.
    InvalidName,
}

/// Whether `c` may stand in the name of an option.
pub open spec fn is_name_char(c: char) -> bool {
    is_ascii_alphanumeric(c) || c == '_'
}

/// The option that `s` names and whether it is to be switched on: `+` or `-`, then a
/// name of letters, digits and underscores.
pub open spec fn config_option(s: Seq<char>) -> Result<(Seq<char>, bool), OptionError> {
    if s.len() == 0 {
        Err(OptionError::Empty)
    } else if s[0] != '+' && s[0] != '-' {
        Err(OptionError::MissingSign)
    } else if s.len() == 1 {
        Err(OptionError::Empty)
    } else if !(forall|i: int| 1 <= i < s.len() ==> is_name_char(#[trigger] s[i])) {
        Err(OptionError::InvalidName)
    } else {
        Ok((s.skip(1), s[0] == '+'))
    }
}

/// Reads a kernel configuration option with its sign.
pub fn parse_config_option(opt: &str) -> (r: Result<(String, bool), OptionError>)
    ensures
        match r {
            Ok((name, on)) => config_option(opt@) == Ok::<(Seq<char>, bool), OptionError>(
                (name@, on),
            ),
            Err(e) => config_option(opt@) == Err::<(Seq<char>, bool), OptionError>(e),
        },
{
    let v = to_chars(opt);
    let n = v.len();
    if n == 0 {
        return Err(OptionError::Empty);
    }
    let sign = v[0];
    if sign != '+' && sign != '-' {
        return Err(OptionError::MissingSign);
    }
    if n == 1 {
        return Err(OptionError::Empty);
    }
    let mut name = String::new();
    let mut i: usize = 1;
    while i < n
        invariant
            1 <= i <= n,
            n == v.len(),
            n >= 2,
            v@ == opt@,
            v@[0] == '+' || v@[0] == '-',
            forall|j: int| 1 <= j < i ==> is_name_char(#[trigger] v@[j]),
            name@ == v@.subrange(1, i as int),
        decreases n - i,
    {
        let c = v[i];
        let ok = ('0' <= c && c <= '9') || ('a' <= c && c <= 'z') || ('A' <= c && c <= 'Z') || c
            == '_';
        if !ok {
            return Err(OptionError::InvalidName);
        }
        name.push(c);
        i = i + 1;
    }
    Ok((name, sign == '+'))
}

} // verus!
