//! Shell-style pattern matching, done by the `glob` crate.

use vstd::prelude::*;

verus! {

/// Whether `glob::Pattern::new` accepts `pattern`.
pub uninterp spec fn glob_compiles(pattern: Seq<char>) -> bool;

/// Whether `pattern` compiles and, compiled, `glob::Pattern::matches` accepts `text`.
pub uninterp spec fn glob_matches(pattern: Seq<char>, text: Seq<char>) -> bool;

/// Calls `glob::Pattern::new` and reports whether it returned a pattern.
///
/// Trusted: that the answer depends on the characters of `pattern` alone, for
/// the platform the library is built for (the crate asks std which characters
/// separate path components).
#[verifier::external_body]
pub(crate) fn pattern_compiles(pattern: &str) -> (ok: bool)
    ensures
        ok == glob_compiles(pattern@),
{
    glob::Pattern::new(pattern).is_ok()
}

/// Compiles `pattern` with `glob::Pattern::new` and asks `glob::Pattern::matches`
/// whether it matches `text`; a pattern that does not compile matches nothing.
///
/// Trusted: that the answer depends on the characters of `pattern` and `text`
/// alone, for the platform the library is built for.
#[verifier::external_body]
pub(crate) fn pattern_matches(pattern: &str, text: &str) -> (hit: bool)
    ensures
        hit == glob_matches(pattern@, text@),
{
    match glob::Pattern::new(pattern) {
        Ok(compiled) => compiled.matches(text),
        Err(_) => false,
    }
}

} // verus!
