//! The trusted boundary to the `glob` crate: compiling a pattern string and
//! matching it against a path string.

use vstd::prelude::*;

verus! {

/// Whether `glob::Pattern::new` accepts `pattern` as well-formed glob syntax.
/// Compilation reads the pattern string alone, so its outcome is a function of
/// `pattern`.
pub uninterp spec fn glob_syntax_ok(pattern: Seq<char>) -> bool;

/// What `glob::Pattern::matches` returns for the pattern compiled from
/// `pattern` when matched against `text` under the crate's default match
/// options. Matching reads the two strings alone, so the outcome is a function
/// of both.
pub uninterp spec fn glob_matched(pattern: Seq<char>, text: Seq<char>) -> bool;

/// Relies on `glob::Pattern::new`, which compiles `pattern` or reports a
/// syntax error, and on `glob::Pattern::matches`, which matches the compiled
/// pattern against `text` under the crate's default options. Returns `None`
/// when the pattern is not valid glob syntax, and otherwise the match outcome.
#[verifier::external_body]
pub(crate) fn glob_match(pattern: &str, text: &str) -> (r: Option<bool>)
    ensures
        r is Some <==> glob_syntax_ok(pattern@),
        r matches Some(m) ==> m == glob_matched(pattern@, text@),
{
    match glob::Pattern::new(pattern) {
        Ok(compiled) => Some(compiled.matches(text)),
        Err(_) => None,
    }
}

} // verus!
