//! Joining a directory and a file name, done by std.

use vstd::prelude::*;

verus! {

/// The path that `std::path::Path::join` gives when `name` is adjoined to `dir`.
pub uninterp spec fn path_join(dir: Seq<char>, name: Seq<char>) -> Seq<char>;

/// Adjoins `name` to `dir` with `std::path::Path::join`.
///
/// Trusted: that the joined path depends on the characters of `dir` and
/// `name` alone, for the platform the library is built for. Both are text, so
/// the joined path is text as well and nothing is lost in handing it back.
#[verifier::external_body]
pub(crate) fn join(dir: &str, name: &str) -> (joined: String)
    ensures
        joined@ == path_join(dir@, name@),
{
    std::path::Path::new(dir).join(name).to_string_lossy().into_owned()
}

} // verus!
