//! Paths as configured: text, with a leading `~` standing for the home
//! directory.

use vstd::prelude::*;

verus! {

/// A path that shellexpand leaves unchanged on every platform: it does not
/// start with `~` followed by the end of the text, by `/` or by `\`.
pub open spec fn without_home_prefix(p: Seq<char>) -> bool {
    !(p.len() > 0 && p[0] == '~' && (p.len() == 1 || p[1] == '/' || p[1] == '\\'))
}

/// `q` is what tilde expansion may make of `p`: `p` itself where `p` has
/// no home prefix; where it has one, whatever the home directory turns out to be.
pub open spec fn expands_to(p: Seq<char>, q: Seq<char>) -> bool {
    without_home_prefix(p) ==> q == p
}

/// Relies on shellexpand::tilde: it replaces a leading `~` that ends the
/// text or precedes `/` (or, on Windows, `\`) by the home directory, and
/// returns any other text unchanged.
#[verifier::external_body]
pub(crate) fn expand_home(p: &str) -> (r: String)
    ensures
        expands_to(p@, r@),
{
    shellexpand::tilde(p).into_owned()
}

} // verus!
