//! The manifest record and the run-wide configuration, both plain data.

use vstd::prelude::*;

verus! {

/// One parsed manifest row describing a single track.
pub struct TrackRecord {
    /// Source file path, relative to the configured input directory
    /// (or used verbatim when none is configured).
    pub file: String,
    /// Optional disc number.
    pub disc: Option<u32>,
    /// Optional track number.
    pub track: Option<u32>,
    /// Track title; the manifest parse rejects rows without one.
    pub title: String,
    /// Optional per-track artist; falls back to the album artist.
    pub artist: Option<String>,
}

impl TrackRecord {
    /// The manifest parse guarantees a non-empty title.
    pub open spec fn wf(&self) -> bool {
        self.title@.len() > 0
    }
}

/// Run-wide configuration, immutable for the duration of a run.
pub struct ConversionConfig {
    /// Optional cover-art image path.
    pub cover: Option<String>,
    /// Optional base directory for input files.
    pub input_dir: Option<String>,
    /// Optional album title metadata override.
    pub album_title: Option<String>,
    /// Optional album artist, also the fallback track artist.
    pub album_artist: Option<String>,
    /// Optional release date metadata override.
    pub date: Option<String>,
    /// Requested worker concurrency; 0 means all available execution units.
    pub threads: usize,
    /// Whether assembled command lines are reported before execution.
    pub verbose: bool,
    /// Directory that output files are written under.
    pub output_dir: String,
}

/// The string when it is present and non-empty, else nothing.
pub open spec fn nonempty_opt(o: Option<String>) -> Option<Seq<char>> {
    match o {
        Some(s) => if s@.len() > 0 {
            Some(s@)
        } else {
            None
        },
        None => None,
    }
}

/// The artist value actually used for a track: the record's own artist when
/// present and non-empty, otherwise the configured album artist when present
/// and non-empty, otherwise nothing.
pub open spec fn spec_effective_artist(c: &ConversionConfig, r: &TrackRecord) -> Option<
    Seq<char>,
> {
    match nonempty_opt(r.artist) {
        Some(a) => Some(a),
        None => nonempty_opt(c.album_artist),
    }
}

/// Whether an artist can be resolved for this record at all.
pub open spec fn has_artist(c: &ConversionConfig, r: &TrackRecord) -> bool {
    spec_effective_artist(c, r) is Some
}

/// The resolved artist, meaningful only when `has_artist` holds.
pub open spec fn the_artist(c: &ConversionConfig, r: &TrackRecord) -> Seq<char>
    recommends
        has_artist(c, r),
{
    spec_effective_artist(c, r)->0
}

/// Resolves the effective artist for a record under a configuration.
pub fn effective_artist<'a>(c: &'a ConversionConfig, r: &'a TrackRecord) -> (res: Option<
    &'a String,
>)
    ensures
        match res {
            Some(a) => spec_effective_artist(c, r) == Some(a@) && a@.len() > 0,
            None => !has_artist(c, r),
        },
{
    match &r.artist {
        Some(a) => {
            if !a.as_str().is_empty() {
                return Some(a);
            }
        },
        None => {},
    }
    match &c.album_artist {
        Some(a) => {
            if !a.as_str().is_empty() {
                return Some(a);
            }
        },
        None => {},
    }
    None
}

} // verus!
