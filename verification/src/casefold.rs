//! Case folding for names and extensions.
//!
//! In case-insensitive mode both the filter sets (once, at configuration
//! time) and the observed name or extension (at check time) are folded to
//! lower case before comparison; in case-sensitive mode both sides are
//! compared as they stand.

use vstd::prelude::*;

verus! {

/// The sequence of characters that lower-casing produces for `s`.
pub uninterp spec fn lower_of(s: Seq<char>) -> Seq<char>;

/// Relies on str::to_lowercase: the result depends on the characters alone.
#[verifier::external_body]
pub(crate) fn lowercase(s: &str) -> (r: String)
    ensures
        r@ == lower_of(s@),
{
    s.to_lowercase()
}

/// A name or extension as it enters a comparison: unchanged in
/// case-sensitive mode, folded to lower case otherwise.
pub open spec fn folded(case_sensitive: bool, s: Seq<char>) -> Seq<char> {
    if case_sensitive {
        s
    } else {
        lower_of(s)
    }
}

/// Fold an observed name or extension according to the case-sensitivity
/// flag.
pub fn fold_case(s: &str, case_sensitive: bool) -> (r: String)
    ensures
        r@ == folded(case_sensitive, s@),
{
    if case_sensitive {
        s.to_owned()
    } else {
        lowercase(s)
    }
}

} // verus!
