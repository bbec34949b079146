//! Display width of text in terminal columns.
use vstd::prelude::*;

use unicode_width::UnicodeWidthStr;

verus! {

/// The number of terminal columns that `unicode-width` gives a string.
pub uninterp spec fn str_width(s: Seq<char>) -> usize;

/// Display width of `s` in terminal columns: `UnicodeWidthStr::width` of the
/// `unicode-width` crate, a function of the characters of `s` alone.
#[verifier::external_body]
pub(crate) fn display_width(s: &str) -> (r: usize)
    ensures
        r == str_width(s@),
{
    UnicodeWidthStr::width(s)
}

} // verus!
