//! Library-wide laws about naming and metadata assembly, stated and proved
//! once over the specification functions that the builders' contracts use.

use crate::batch::{all_recorded, Outcome};
use crate::job::{
    meta_arg, opt_num_pair, opt_pair, spec_filename, spec_metadata_pairs, spec_prefix,
};
use crate::records::{ConversionConfig, TrackRecord};
use crate::sanitize::ascii_fold;
use crate::text::{dec_str, lemma_dec_str_nonempty, lemma_pad2_ascii, pad2_str};
use vstd::prelude::*;

verus! {

/// With both disc and track set, the filename prefix is the unpadded decimal
/// disc, a dot, the track zero-padded to two digits, and a trailing dash.
pub proof fn lemma_prefix_both_set(d: u32, t: u32)
    ensures
        spec_prefix(Some(d), Some(t)) == dec_str(d as nat) + "."@ + pad2_str(t as nat) + "-"@,
        pad2_str(t as nat).len() >= 2,
        t < 10 ==> pad2_str(t as nat) == seq!['0'] + dec_str(t as nat),
        t >= 10 ==> pad2_str(t as nat) == dec_str(t as nat),
{
    lemma_pad2_ascii(t as nat);
}

/// With neither disc nor track set, the prefix is empty and the filename is
/// exactly the transliterated artist, a dash, the transliterated title, and
/// the extension.
pub proof fn lemma_filename_no_numbers(r: &TrackRecord, artist: Seq<char>)
    requires
        r.disc is None,
        r.track is None,
    ensures
        spec_prefix(r.disc, r.track) == Seq::<char>::empty(),
        spec_filename(r, artist) == ascii_fold(artist) + "-"@ + ascii_fold(r.title@) + ".flac"@,
{
    assert(spec_filename(r, artist) =~= ascii_fold(artist) + "-"@ + ascii_fold(r.title@)
        + ".flac"@);
}

/// The metadata pairs carry the original title and the resolved artist text
/// unchanged: transliteration touches only the filename.
pub proof fn lemma_metadata_keeps_text(c: &ConversionConfig, r: &TrackRecord, artist: Seq<char>)
    ensures
        spec_metadata_pairs(c, r, artist).len() >= 2,
        spec_metadata_pairs(c, r, artist)[0] == ("title"@, r.title@),
        spec_metadata_pairs(c, r, artist)[1] == ("artist"@, artist),
{
}

/// Every value in a list of metadata pairs is non-empty.
pub open spec fn pair_values_nonempty(ps: Seq<(Seq<char>, Seq<char>)>) -> bool {
    forall|i: int| 0 <= i < ps.len() ==> (#[trigger] ps[i]).1.len() > 0
}

proof fn lemma_pair_values_nonempty_concat(
    a: Seq<(Seq<char>, Seq<char>)>,
    b: Seq<(Seq<char>, Seq<char>)>,
)
    requires
        pair_values_nonempty(a),
        pair_values_nonempty(b),
    ensures
        pair_values_nonempty(a + b),
{
    assert forall|i: int| 0 <= i < (a + b).len() implies ((a + b)[i]).1.len() > 0 by {
        if i < a.len() {
            assert((a + b)[i] == a[i]);
        } else {
            assert((a + b)[i] == b[i - a.len()]);
        }
    }
}

/// No metadata argument ever has the form `key=` with an empty value: the
/// title and resolved artist are non-empty, and unset or empty optional
/// fields are omitted entirely rather than emitted empty.
pub proof fn lemma_no_empty_metadata_value(c: &ConversionConfig, r: &TrackRecord, artist: Seq<char>)
    requires
        r.wf(),
        artist.len() > 0,
    ensures
        pair_values_nonempty(spec_metadata_pairs(c, r, artist)),
        forall|i: int|
            0 <= i < spec_metadata_pairs(c, r, artist).len() ==> meta_arg(
                (#[trigger] spec_metadata_pairs(c, r, artist)[i]).0,
                spec_metadata_pairs(c, r, artist)[i].1,
            ).len() > spec_metadata_pairs(c, r, artist)[i].0.len() + 1,
{
    let s1 = seq![("title"@, r.title@)];
    let s2 = seq![("artist"@, artist)];
    let s3 = opt_pair("album"@, c.album_title);
    let s4 = opt_pair("album_artist"@, c.album_artist);
    let s5 = opt_pair("date"@, c.date);
    let s6 = opt_num_pair("disc"@, r.disc);
    let s7 = opt_num_pair("track"@, r.track);
    if let Some(n) = r.disc {
        lemma_dec_str_nonempty(n as nat);
    }
    if let Some(n) = r.track {
        lemma_dec_str_nonempty(n as nat);
    }
    assert(pair_values_nonempty(s1));
    assert(pair_values_nonempty(s2));
    assert(pair_values_nonempty(s3));
    assert(pair_values_nonempty(s4));
    assert(pair_values_nonempty(s5));
    assert(pair_values_nonempty(s6));
    assert(pair_values_nonempty(s7));
    lemma_pair_values_nonempty_concat(s1, s2);
    lemma_pair_values_nonempty_concat(s1 + s2, s3);
    lemma_pair_values_nonempty_concat(s1 + s2 + s3, s4);
    lemma_pair_values_nonempty_concat(s1 + s2 + s3 + s4, s5);
    lemma_pair_values_nonempty_concat(s1 + s2 + s3 + s4 + s5, s6);
    lemma_pair_values_nonempty_concat(s1 + s2 + s3 + s4 + s5 + s6, s7);
    reveal_strlit("=");
}

/// How many slots hold a recorded outcome.
pub open spec fn num_recorded(s: Seq<Option<Outcome>>) -> nat
    decreases s.len(),
{
    if s.len() == 0 {
        0
    } else {
        num_recorded(s.drop_last()) + if s.last() is Some {
            1nat
        } else {
            0nat
        }
    }
}

/// A fresh batch has no outcome recorded.
pub proof fn lemma_fresh_batch_has_no_outcomes(s: Seq<Option<Outcome>>)
    requires
        forall|i: int| 0 <= i < s.len() ==> (#[trigger] s[i]) is None,
    ensures
        num_recorded(s) == 0,
    decreases s.len(),
{
    if s.len() > 0 {
        lemma_fresh_batch_has_no_outcomes(s.drop_last());
    }
}

/// Recording an outcome fills exactly the slot it belongs to: the count of
/// recorded outcomes grows by one and every other slot is untouched, so no
/// job's outcome is dropped and none is taken twice.
pub proof fn lemma_record_exactly_once(s: Seq<Option<Outcome>>, index: int, outcome: Outcome)
    requires
        0 <= index < s.len(),
        s[index] is None,
    ensures
        num_recorded(s.update(index, Some(outcome))) == num_recorded(s) + 1,
        forall|j: int|
            0 <= j < s.len() && j != index ==> s.update(index, Some(outcome))[j] == s[j],
    decreases s.len(),
{
    let t = s.update(index, Some(outcome));
    if index == s.len() - 1 {
        assert(t.drop_last() =~= s.drop_last());
    } else {
        assert(t.drop_last() =~= s.drop_last().update(index, Some(outcome)));
        lemma_record_exactly_once(s.drop_last(), index, outcome);
        assert(t.last() == s.last());
    }
}

/// Every job has an outcome exactly when the count of recorded outcomes has
/// reached the number of jobs.
pub proof fn lemma_all_outcomes_when_count_full(s: Seq<Option<Outcome>>)
    ensures
        num_recorded(s) <= s.len(),
        all_recorded(s) <==> num_recorded(s) == s.len(),
    decreases s.len(),
{
    if s.len() > 0 {
        lemma_all_outcomes_when_count_full(s.drop_last());
        assert(forall|i: int| 0 <= i < s.len() - 1 ==> s.drop_last()[i] == s[i]);
        if num_recorded(s) == s.len() {
            assert forall|i: int| 0 <= i < s.len() implies (#[trigger] s[i]) is Some by {
                if i < s.len() - 1 {
                    assert(s.drop_last()[i] is Some);
                }
            }
        }
        if all_recorded(s) {
            assert forall|i: int| 0 <= i < s.len() - 1 implies (#[trigger] s.drop_last()[i])
                is Some by {
                assert(s[i] is Some);
            }
            assert(s.last() is Some);
        }
    }
}

} // verus!
