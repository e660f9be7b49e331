//! Batch audio-conversion core: manifest records are turned into fully
//! resolved encoder jobs (deterministic output naming, ordered metadata
//! arguments), and per-job outcomes are aggregated under a configurable
//! failure policy. Process spawning, manifest reading and CLI parsing are
//! left to a thin shim around this crate.

pub mod batch;
pub mod job;
pub mod laws;
pub mod records;
pub mod sanitize;
pub mod text;

use vstd::prelude::*;

verus! {

/// A sequence of characters that all lie in the ASCII range.
pub open spec fn seq_is_ascii(s: Seq<char>) -> bool {
    forall|i: int| 0 <= i < s.len() ==> (#[trigger] s[i] as u32) < 128
}

/// ASCII-ness is preserved by concatenation.
pub proof fn lemma_ascii_concat(a: Seq<char>, b: Seq<char>)
    requires
        seq_is_ascii(a),
        seq_is_ascii(b),
    ensures
        seq_is_ascii(a + b),
{
    assert forall|i: int| 0 <= i < (a + b).len() implies ((a + b)[i] as u32) < 128 by {
        if i < a.len() {
            assert((a + b)[i] == a[i]);
        } else {
            assert((a + b)[i] == b[i - a.len()]);
        }
    }
}

} // verus!
