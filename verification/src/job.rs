//! Turning one manifest record plus the run configuration into a fully
//! resolved encoder job: input path, deterministic output filename, and the
//! ordered encoder argument list.

use crate::records::{
    effective_artist, has_artist, nonempty_opt, the_artist, ConversionConfig, TrackRecord,
};
use crate::sanitize::{ascii_fold, sanitize_component};
use crate::text::{
    dec_str, lemma_dec_str_ascii, lemma_pad2_ascii, pad2_str, u32_to_dec, u32_to_pad2,
};
use vstd::prelude::*;
use vstd::string::StrSliceExecFns;
use vstd::string::StringExecFns;

verus! {

/// A fully resolved, immutable unit of conversion work.
pub struct Job {
    /// The manifest's source file path, kept for diagnostics.
    pub source_file: String,
    /// The resolved encoder input path.
    pub input_path: String,
    /// The computed output path.
    pub output_path: String,
    /// The ordered encoder argument list, output path included.
    pub args: Vec<String>,
}

/// Why a record could not be turned into a job.
#[derive(Debug)]
pub enum BuildError {
    /// Neither the record nor the configuration resolves to a non-empty
    /// artist; carries the record's source file path.
    MissingArtist { file: String },
}

/// Path join: an absolute right side wins; otherwise the two parts are
/// separated by exactly one '/'.
pub open spec fn spec_join(dir: Seq<char>, p: Seq<char>) -> Seq<char> {
    if p.len() > 0 && p[0] == '/' {
        p
    } else if dir.len() == 0 {
        p
    } else if dir[dir.len() - 1] == '/' {
        dir + p
    } else {
        dir + "/"@ + p
    }
}

/// The filename prefix computed from the disc and track numbers: the disc
/// unpadded, the track zero-padded to two digits.
pub open spec fn spec_prefix(disc: Option<u32>, track: Option<u32>) -> Seq<char> {
    match (disc, track) {
        (Some(d), Some(t)) => dec_str(d as nat) + "."@ + pad2_str(t as nat) + "-"@,
        (Some(d), None) => dec_str(d as nat) + "-"@,
        (None, Some(t)) => pad2_str(t as nat) + "-"@,
        (None, None) => Seq::empty(),
    }
}

/// The output filename: prefix, then the transliterated artist and title
/// separated by '-', then the extension.
pub open spec fn spec_filename(r: &TrackRecord, artist: Seq<char>) -> Seq<char> {
    spec_prefix(r.disc, r.track) + ascii_fold(artist) + "-"@ + ascii_fold(r.title@) + ".flac"@
}

/// The resolved encoder input path.
pub open spec fn spec_input_path(c: &ConversionConfig, r: &TrackRecord) -> Seq<char> {
    match c.input_dir {
        Some(d) => spec_join(d@, r.file@),
        None => r.file@,
    }
}

/// The computed output path, under the configured output directory.
pub open spec fn spec_output_path(c: &ConversionConfig, r: &TrackRecord, artist: Seq<char>) -> Seq<
    char,
> {
    spec_join(c.output_dir@, spec_filename(r, artist))
}

/// One metadata argument value: `key=value`.
pub open spec fn meta_arg(key: Seq<char>, val: Seq<char>) -> Seq<char> {
    key + "="@ + val
}

/// The `-metadata key=value` argument run for an ordered list of pairs.
pub open spec fn meta_args_of(pairs: Seq<(Seq<char>, Seq<char>)>) -> Seq<Seq<char>>
    decreases pairs.len(),
{
    if pairs.len() == 0 {
        Seq::empty()
    } else {
        seq!["-metadata"@, meta_arg(pairs[0].0, pairs[0].1)] + meta_args_of(pairs.drop_first())
    }
}

/// Zero or one metadata pairs for an optional free-text field: emitted only
/// when the value is present and non-empty.
pub open spec fn opt_pair(key: Seq<char>, val: Option<String>) -> Seq<(Seq<char>, Seq<char>)> {
    match nonempty_opt(val) {
        Some(v) => seq![(key, v)],
        None => Seq::empty(),
    }
}

/// Zero or one metadata pairs for an optional number, rendered in decimal.
pub open spec fn opt_num_pair(key: Seq<char>, val: Option<u32>) -> Seq<(Seq<char>, Seq<char>)> {
    match val {
        Some(n) => seq![(key, dec_str(n as nat))],
        None => Seq::empty(),
    }
}

/// The ordered metadata pairs for one job: title and resolved artist always,
/// then the optional album, album_artist, date, disc and track fields, each
/// omitted entirely when unset or empty.
pub open spec fn spec_metadata_pairs(
    c: &ConversionConfig,
    r: &TrackRecord,
    artist: Seq<char>,
) -> Seq<(Seq<char>, Seq<char>)> {
    seq![("title"@, r.title@)] + seq![("artist"@, artist)] + opt_pair("album"@, c.album_title)
        + opt_pair("album_artist"@, c.album_artist) + opt_pair("date"@, c.date) + opt_num_pair(
        "disc"@,
        r.disc,
    ) + opt_num_pair("track"@, r.track)
}

/// The fixed head of the argument list: global flags and the primary input.
pub open spec fn input_section(input: Seq<char>) -> Seq<Seq<char>> {
    seq!["-hide_banner"@, "-nostdin"@, "-i"@, input]
}

/// The stream-selection arguments: with a cover image the cover becomes a
/// second input and audio and image streams are mapped explicitly; without
/// one only the audio stream of the primary input is mapped.
pub open spec fn map_section(c: &ConversionConfig) -> Seq<Seq<char>> {
    match c.cover {
        Some(cv) => seq!["-i"@, cv@, "-map"@, "0:a"@, "-map"@, "1:v"@],
        None => seq!["-map"@, "0:a"@],
    }
}

/// The cover-attachment arguments: copy the cover stream, mark it as the
/// attached front-cover picture, and tag it with a fixed comment.
pub open spec fn cover_section(c: &ConversionConfig) -> Seq<Seq<char>> {
    if c.cover is Some {
        seq![
            "-c:v"@,
            "copy"@,
            "-disposition:v"@,
            "attached_pic"@,
            "-metadata:s:v"@,
            "comment=Cover (front)"@,
        ]
    } else {
        Seq::empty()
    }
}

/// The fixed tail: force the lossless audio codec, force overwrite, and name
/// the output path.
pub open spec fn output_section(output: Seq<char>) -> Seq<Seq<char>> {
    seq!["-c:a"@, "flac"@, "-y"@, output]
}

/// The complete ordered encoder argument list for one job.
pub open spec fn spec_args(
    c: &ConversionConfig,
    r: &TrackRecord,
    artist: Seq<char>,
    input: Seq<char>,
    output: Seq<char>,
) -> Seq<Seq<char>> {
    input_section(input) + map_section(c) + meta_args_of(spec_metadata_pairs(c, r, artist))
        + cover_section(c) + output_section(output)
}

/// Joins a directory and a path as `spec_join` describes.
pub fn join_path(dir: &str, p: &str) -> (r: String)
    ensures
        r@ == spec_join(dir@, p@),
{
    proof {
        reveal_strlit("/");
    }
    if !p.is_empty() && p.get_char(0) == '/' {
        String::from_str(p)
    } else if dir.is_empty() {
        String::from_str(p)
    } else {
        let dlen = dir.unicode_len();
        let mut s = String::from_str(dir);
        if dir.get_char(dlen - 1) != '/' {
            s.append("/");
        }
        s.append(p);
        s
    }
}

/// Renders the filename prefix for the given disc and track numbers.
pub fn prefix_string(disc: Option<u32>, track: Option<u32>) -> (s: String)
    ensures
        s@ == spec_prefix(disc, track),
{
    match (disc, track) {
        (Some(d), Some(t)) => {
            let mut s = u32_to_dec(d);
            s.append(".");
            let p = u32_to_pad2(t);
            s.append(p.as_str());
            s.append("-");
            s
        },
        (Some(d), None) => {
            let mut s = u32_to_dec(d);
            s.append("-");
            s
        },
        (None, Some(t)) => {
            let mut s = u32_to_pad2(t);
            s.append("-");
            s
        },
        (None, None) => String::new(),
    }
}

/// The metadata argument run distributes over concatenation of pair lists.
pub proof fn lemma_meta_args_concat(a: Seq<(Seq<char>, Seq<char>)>, b: Seq<(Seq<char>, Seq<char>)>)
    ensures
        meta_args_of(a + b) == meta_args_of(a) + meta_args_of(b),
    decreases a.len(),
{
    if a.len() == 0 {
        assert(a + b =~= b);
        assert(meta_args_of(a) + meta_args_of(b) =~= meta_args_of(b));
    } else {
        lemma_meta_args_concat(a.drop_first(), b);
        assert((a + b).drop_first() =~= a.drop_first() + b);
        assert((a + b)[0] == a[0]);
        assert(seq!["-metadata"@, meta_arg(a[0].0, a[0].1)] + (meta_args_of(a.drop_first())
            + meta_args_of(b)) =~= (seq!["-metadata"@, meta_arg(a[0].0, a[0].1)] + meta_args_of(
            a.drop_first(),
        )) + meta_args_of(b));
    }
}

/// Appends one literal argument.
fn push_arg(args: &mut Vec<String>, s: &str)
    ensures
        final(args).deep_view() == old(args).deep_view().push(s@),
{
    args.push(String::from_str(s));
    proof {
        assert(args.deep_view() =~= old(args).deep_view().push(s@));
    }
}

/// Appends one computed argument.
fn push_arg_string(args: &mut Vec<String>, s: String)
    ensures
        final(args).deep_view() == old(args).deep_view().push(s@),
{
    let ghost v = s@;
    args.push(s);
    proof {
        assert(args.deep_view() =~= old(args).deep_view().push(v));
    }
}

/// Appends a `-metadata key=value` argument pair.
fn push_meta(args: &mut Vec<String>, key: &str, val: &str)
    ensures
        final(args).deep_view() == old(args).deep_view() + meta_args_of(seq![(key@, val@)]),
{
    push_arg(args, "-metadata");
    let mut m = String::from_str(key);
    m.append("=");
    m.append(val);
    push_arg_string(args, m);
    proof {
        let p = seq![(key@, val@)];
        assert(p.drop_first() =~= Seq::<(Seq<char>, Seq<char>)>::empty());
        assert(meta_args_of(p.drop_first()) =~= Seq::<Seq<char>>::empty());
        assert(p[0] == (key@, val@));
        assert(meta_args_of(p) =~= seq!["-metadata"@, meta_arg(key@, val@)] + meta_args_of(
            p.drop_first(),
        ));
        assert(meta_args_of(p) =~= seq!["-metadata"@, meta_arg(key@, val@)]);
        assert(args.deep_view() =~= old(args).deep_view() + meta_args_of(p));
    }
}

/// Appends the metadata arguments for an optional free-text field: nothing
/// when the value is unset or empty.
fn push_opt_meta(args: &mut Vec<String>, key: &str, val: &Option<String>)
    ensures
        final(args).deep_view() == old(args).deep_view() + meta_args_of(opt_pair(key@, *val)),
{
    match val {
        Some(v) => {
            if !v.as_str().is_empty() {
                push_meta(args, key, v.as_str());
            } else {
                proof {
                    assert(args.deep_view() =~= old(args).deep_view() + meta_args_of(
                        opt_pair(key@, *val),
                    ));
                }
            }
        },
        None => {
            proof {
                assert(args.deep_view() =~= old(args).deep_view() + meta_args_of(
                    opt_pair(key@, *val),
                ));
            }
        },
    }
}

/// Appends the metadata arguments for an optional number, rendered in
/// decimal; nothing when it is unset.
fn push_opt_num_meta(args: &mut Vec<String>, key: &str, val: Option<u32>)
    ensures
        final(args).deep_view() == old(args).deep_view() + meta_args_of(opt_num_pair(key@, val)),
{
    match val {
        Some(n) => {
            let d = u32_to_dec(n);
            push_meta(args, key, d.as_str());
        },
        None => {
            proof {
                assert(args.deep_view() =~= old(args).deep_view() + meta_args_of(
                    opt_num_pair(key@, val),
                ));
            }
        },
    }
}

pub proof fn lemma_prefix_ascii(disc: Option<u32>, track: Option<u32>)
    ensures
        crate::seq_is_ascii(spec_prefix(disc, track)),
{
    reveal_strlit(".");
    reveal_strlit("-");
    match (disc, track) {
        (Some(d), Some(t)) => {
            lemma_dec_str_ascii(d as nat);
            lemma_pad2_ascii(t as nat);
        },
        (Some(d), None) => {
            lemma_dec_str_ascii(d as nat);
        },
        (None, Some(t)) => {
            lemma_pad2_ascii(t as nat);
        },
        (None, None) => {},
    }
}

/// Computes the output filename for a record and its resolved artist:
/// prefix, transliterated artist and title separated by a dash, and the
/// extension. The whole filename is ASCII-only.
pub fn build_filename(r: &TrackRecord, artist: &str) -> (f: String)
    ensures
        f@ == spec_filename(r, artist@),
        crate::seq_is_ascii(spec_filename(r, artist@)),
{
    let mut fname = prefix_string(r.disc, r.track);
    let s_artist = sanitize_component(artist);
    let s_title = sanitize_component(r.title.as_str());
    fname.append(s_artist.as_str());
    fname.append("-");
    fname.append(s_title.as_str());
    fname.append(".flac");
    proof {
        lemma_prefix_ascii(r.disc, r.track);
        reveal_strlit("-");
        reveal_strlit(".flac");
        crate::lemma_ascii_concat(spec_prefix(r.disc, r.track), ascii_fold(artist@));
        crate::lemma_ascii_concat(spec_prefix(r.disc, r.track) + ascii_fold(artist@), "-"@);
        crate::lemma_ascii_concat(
            spec_prefix(r.disc, r.track) + ascii_fold(artist@) + "-"@,
            ascii_fold(r.title@),
        );
        crate::lemma_ascii_concat(
            spec_prefix(r.disc, r.track) + ascii_fold(artist@) + "-"@ + ascii_fold(r.title@),
            ".flac"@,
        );
    }
    fname
}

/// Builds the fully resolved job for one record, or reports that no artist
/// can be resolved. On success the job carries the resolved input path, the
/// deterministic ASCII-safe output path, and the complete ordered encoder
/// argument list; the metadata arguments keep the original text.
pub fn build(c: &ConversionConfig, r: &TrackRecord) -> (res: Result<Job, BuildError>)
    requires
        r.wf(),
    ensures
        res is Ok <==> has_artist(c, r),
        res matches Ok(j) ==> {
            &&& j.source_file@ == r.file@
            &&& j.input_path@ == spec_input_path(c, r)
            &&& j.output_path@ == spec_output_path(c, r, the_artist(c, r))
            &&& j.args.deep_view() == spec_args(
                c,
                r,
                the_artist(c, r),
                spec_input_path(c, r),
                spec_output_path(c, r, the_artist(c, r)),
            )
            &&& crate::seq_is_ascii(spec_filename(r, the_artist(c, r)))
        },
        res matches Err(e) ==> e matches BuildError::MissingArtist { file } && file@ == r.file@,
{
    let artist: &String = match effective_artist(c, r) {
        Some(a) => a,
        None => {
            return Err(BuildError::MissingArtist { file: r.file.clone() });
        },
    };
    let ghost ga = the_artist(c, r);
    assert(ga == artist@);

    let fname = build_filename(r, artist.as_str());
    assert(fname@ == spec_filename(r, ga));

    let input_path: String = match &c.input_dir {
        Some(d) => join_path(d.as_str(), r.file.as_str()),
        None => r.file.clone(),
    };
    let output_path = join_path(c.output_dir.as_str(), fname.as_str());

    let args = assemble_args(c, r, artist.as_str(), &input_path, &output_path);
    Ok(Job { source_file: r.file.clone(), input_path, output_path, args })
}

/// Assembles the complete ordered encoder argument list for one job from
/// the already resolved artist and paths.
#[verifier::rlimit(100)]
fn assemble_args(
    c: &ConversionConfig,
    r: &TrackRecord,
    artist: &str,
    input_path: &String,
    output_path: &String,
) -> (args: Vec<String>)
    ensures
        args.deep_view() == spec_args(c, r, artist@, input_path@, output_path@),
{
    let ghost ga = artist@;
    let mut args: Vec<String> = Vec::new();
    push_arg(&mut args, "-hide_banner");
    push_arg(&mut args, "-nostdin");
    push_arg(&mut args, "-i");
    push_arg_string(&mut args, input_path.clone());
    proof {
        assert(args.deep_view() =~= input_section(input_path@));
    }
    match &c.cover {
        Some(cv) => {
            push_arg(&mut args, "-i");
            push_arg(&mut args, cv.as_str());
            push_arg(&mut args, "-map");
            push_arg(&mut args, "0:a");
            push_arg(&mut args, "-map");
            push_arg(&mut args, "1:v");
        },
        None => {
            push_arg(&mut args, "-map");
            push_arg(&mut args, "0:a");
        },
    }
    proof {
        assert(args.deep_view() =~= input_section(input_path@) + map_section(c));
    }
    let ghost base = args.deep_view();
    push_meta(&mut args, "title", r.title.as_str());
    push_meta(&mut args, "artist", artist);
    push_opt_meta(&mut args, "album", &c.album_title);
    push_opt_meta(&mut args, "album_artist", &c.album_artist);
    push_opt_meta(&mut args, "date", &c.date);
    push_opt_num_meta(&mut args, "disc", r.disc);
    push_opt_num_meta(&mut args, "track", r.track);
    proof {
        let s1 = seq![("title"@, r.title@)];
        let s2 = seq![("artist"@, ga)];
        let s3 = opt_pair("album"@, c.album_title);
        let s4 = opt_pair("album_artist"@, c.album_artist);
        let s5 = opt_pair("date"@, c.date);
        let s6 = opt_num_pair("disc"@, r.disc);
        let s7 = opt_num_pair("track"@, r.track);
        lemma_meta_args_concat(s1, s2);
        lemma_meta_args_concat(s1 + s2, s3);
        lemma_meta_args_concat(s1 + s2 + s3, s4);
        lemma_meta_args_concat(s1 + s2 + s3 + s4, s5);
        lemma_meta_args_concat(s1 + s2 + s3 + s4 + s5, s6);
        lemma_meta_args_concat(s1 + s2 + s3 + s4 + s5 + s6, s7);
        assert(args.deep_view() =~= base + meta_args_of(spec_metadata_pairs(c, r, ga)));
    }
    let ghost base2 = args.deep_view();
    match &c.cover {
        Some(_) => {
            push_arg(&mut args, "-c:v");
            push_arg(&mut args, "copy");
            push_arg(&mut args, "-disposition:v");
            push_arg(&mut args, "attached_pic");
            push_arg(&mut args, "-metadata:s:v");
            push_arg(&mut args, "comment=Cover (front)");
        },
        None => {},
    }
    proof {
        assert(args.deep_view() =~= base2 + cover_section(c));
    }
    push_arg(&mut args, "-c:a");
    push_arg(&mut args, "flac");
    push_arg(&mut args, "-y");
    push_arg_string(&mut args, output_path.clone());
    proof {
        assert(args.deep_view() =~= spec_args(c, r, ga, input_path@, output_path@));
    }
    args
}

/// Looks for two jobs that would write the same output path: the manifest
/// gives no uniqueness guarantee, and a collision would be a silent
/// overwrite. Returns the first colliding pair in manifest order, or nothing
/// when all output paths are distinct.
pub fn find_duplicate_output(jobs: &Vec<Job>) -> (res: Option<(usize, usize)>)
    ensures
        match res {
            Some(p) => {
                &&& p.0 < p.1 < jobs@.len()
                &&& jobs@[p.0 as int].output_path@ == jobs@[p.1 as int].output_path@
                &&& forall|a: int, b: int|
                    0 <= a < b < jobs@.len() && a < p.0 ==> (#[trigger] jobs@[a].output_path@)
                        != (#[trigger] jobs@[b].output_path@)
                &&& forall|b: int|
                    p.0 < b < p.1 ==> jobs@[p.0 as int].output_path@ != (
                    #[trigger] jobs@[b].output_path@)
            },
            None => forall|a: int, b: int|
                0 <= a < b < jobs@.len() ==> (#[trigger] jobs@[a].output_path@) != (
                #[trigger] jobs@[b].output_path@),
        },
{
    let n = jobs.len();
    let mut i: usize = 0;
    while i < n
        invariant
            n == jobs@.len(),
            i <= n,
            forall|a: int, b: int|
                0 <= a < b < n && a < i ==> (#[trigger] jobs@[a].output_path@) != (
                #[trigger] jobs@[b].output_path@),
        decreases n - i,
    {
        let mut j: usize = i + 1;
        while j < n
            invariant
                n == jobs@.len(),
                i < j <= n,
                forall|a: int, b: int|
                    0 <= a < b < n && a < i ==> (#[trigger] jobs@[a].output_path@) != (
                    #[trigger] jobs@[b].output_path@),
                forall|b: int|
                    i < b < j ==> jobs@[i as int].output_path@ != (
                    #[trigger] jobs@[b].output_path@),
            decreases n - j,
        {
            if jobs[i].output_path == jobs[j].output_path {
                return Some((i, j));
            }
            j += 1;
        }
        i += 1;
    }
    None
}

} // verus!
