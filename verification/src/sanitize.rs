//! Filesystem-safe transliteration of artist and title strings, used only
//! for output filenames; embedded metadata keeps the original text.

use vstd::prelude::*;

verus! {

/// The ASCII transliteration that the external library computes for a
/// string. It depends on the characters of the input alone.
pub uninterp spec fn ascii_fold(s: Seq<char>) -> Seq<char>;

/// A sequence of characters that all lie strictly below the ASCII delete
/// character (0x7F). Such strings are transliterated to themselves; the
/// delete character itself is dropped, not kept.
pub open spec fn seq_below_ascii_del(s: Seq<char>) -> bool {
    forall|i: int| 0 <= i < s.len() ==> (#[trigger] s[i] as u32) < 127
}

/// Relies on deunicode::deunicode: the result is an ASCII transliteration of
/// the input. A string whose characters all lie below the ASCII delete
/// character takes the fast path and passes through unchanged; every output
/// character also lies below it, so folding a folded string changes nothing.
#[verifier::external_body]
fn fold_str(s: &str) -> (r: String)
    ensures
        r@ == ascii_fold(s@),
        crate::seq_is_ascii(r@),
        seq_below_ascii_del(s@) ==> r@ == s@,
        ascii_fold(r@) == r@,
{
    deunicode::deunicode(s)
}

/// Transliterates one filename component to plain ASCII. The result is
/// ASCII-only, a component that was already plain ASCII below the delete
/// character comes back unchanged, and sanitizing an already sanitized
/// component is a no-op.
pub fn sanitize_component(s: &str) -> (r: String)
    ensures
        r@ == ascii_fold(s@),
        crate::seq_is_ascii(r@),
        seq_below_ascii_del(s@) ==> r@ == s@,
        ascii_fold(r@) == r@,
{
    fold_str(s)
}

} // verus!
