//! `Debug` renderings of strings, as error messages quote them.

use vstd::prelude::*;

verus! {

/// The `Debug` rendering of a string: quoted, with `char::escape_debug`
/// escapes.
pub uninterp spec fn debug_str(s: Seq<char>) -> Seq<char>;

/// `format!("{:?}", s)` for a string.
#[verifier::external_body]
pub(crate) fn debug_quoted(s: &str) -> (res: String)
    ensures
        res@ == debug_str(s@),
{
    format!("{s:?}")
}

} // verus!
