use trackconv::job::{build, find_duplicate_output, BuildError};
use trackconv::records::{ConversionConfig, TrackRecord};

fn base_config() -> ConversionConfig {
    ConversionConfig {
        cover: None,
        input_dir: None,
        album_title: None,
        album_artist: None,
        date: None,
        threads: 0,
        verbose: false,
        output_dir: String::from("out"),
    }
}

fn record(
    file: &str,
    disc: Option<u32>,
    track: Option<u32>,
    title: &str,
    artist: Option<&str>,
) -> TrackRecord {
    TrackRecord {
        file: String::from(file),
        disc,
        track,
        title: String::from(title),
        artist: artist.map(String::from),
    }
}

#[test]
fn plain_row_full_invocation() {
    let c = base_config();
    let r = record("a.wav", Some(1), Some(1), "Song One", Some("Artist"));
    let j = build(&c, &r).unwrap();
    assert_eq!(j.input_path, "a.wav");
    assert_eq!(j.output_path, "out/1.01-Artist-Song One.flac");
    let expected: Vec<&str> = vec![
        "-hide_banner",
        "-nostdin",
        "-i",
        "a.wav",
        "-map",
        "0:a",
        "-metadata",
        "title=Song One",
        "-metadata",
        "artist=Artist",
        "-metadata",
        "disc=1",
        "-metadata",
        "track=1",
        "-c:a",
        "flac",
        "-y",
        "out/1.01-Artist-Song One.flac",
    ];
    assert_eq!(j.args, expected);
}

#[test]
fn album_artist_fallback_succeeds() {
    let mut c = base_config();
    c.album_artist = Some(String::from("Various"));
    let r = record("b.wav", None, None, "Song", None);
    let j = build(&c, &r).unwrap();
    assert_eq!(j.output_path, "out/Various-Song.flac");
    assert!(j.args.contains(&String::from("artist=Various")));
    assert!(j.args.contains(&String::from("album_artist=Various")));
}

#[test]
fn missing_artist_fails() {
    let c = base_config();
    let r = record("x.wav", None, None, "Song", None);
    match build(&c, &r) {
        Err(BuildError::MissingArtist { file }) => assert_eq!(file, "x.wav"),
        _ => panic!("expected a missing-artist failure"),
    }
}

#[test]
fn empty_artist_counts_as_missing() {
    let c = base_config();
    let r = record("x.wav", None, None, "Song", Some(""));
    assert!(matches!(
        build(&c, &r),
        Err(BuildError::MissingArtist { .. })
    ));
}

#[test]
fn empty_album_artist_does_not_resolve() {
    let mut c = base_config();
    c.album_artist = Some(String::new());
    let r = record("x.wav", None, None, "Song", None);
    assert!(matches!(
        build(&c, &r),
        Err(BuildError::MissingArtist { .. })
    ));
}

#[test]
fn record_artist_beats_album_artist() {
    let mut c = base_config();
    c.album_artist = Some(String::from("Various"));
    let r = record("x.wav", None, None, "Song", Some("Solo"));
    let j = build(&c, &r).unwrap();
    assert_eq!(j.output_path, "out/Solo-Song.flac");
    assert!(j.args.contains(&String::from("artist=Solo")));
}

#[test]
fn input_dir_is_joined() {
    let mut c = base_config();
    c.input_dir = Some(String::from("in"));
    let r = record("a.wav", None, None, "T", Some("A"));
    let j = build(&c, &r).unwrap();
    assert_eq!(j.input_path, "in/a.wav");
}

#[test]
fn cover_and_all_metadata_invocation() {
    let c = ConversionConfig {
        cover: Some(String::from("cover.jpg")),
        input_dir: Some(String::from("in")),
        album_title: Some(String::from("Alb")),
        album_artist: Some(String::from("Var")),
        date: Some(String::from("2020")),
        threads: 0,
        verbose: false,
        output_dir: String::from("out"),
    };
    let r = record("x.wav", Some(2), Some(3), "T", None);
    let j = build(&c, &r).unwrap();
    let expected: Vec<&str> = vec![
        "-hide_banner",
        "-nostdin",
        "-i",
        "in/x.wav",
        "-i",
        "cover.jpg",
        "-map",
        "0:a",
        "-map",
        "1:v",
        "-metadata",
        "title=T",
        "-metadata",
        "artist=Var",
        "-metadata",
        "album=Alb",
        "-metadata",
        "album_artist=Var",
        "-metadata",
        "date=2020",
        "-metadata",
        "disc=2",
        "-metadata",
        "track=3",
        "-c:v",
        "copy",
        "-disposition:v",
        "attached_pic",
        "-metadata:s:v",
        "comment=Cover (front)",
        "-c:a",
        "flac",
        "-y",
        "out/2.03-Var-T.flac",
    ];
    assert_eq!(j.args, expected);
}

#[test]
fn empty_optional_values_are_omitted() {
    let mut c = base_config();
    c.album_title = Some(String::new());
    c.date = Some(String::new());
    let r = record("a.wav", None, None, "T", Some("A"));
    let j = build(&c, &r).unwrap();
    for a in &j.args {
        assert!(!a.ends_with('='), "empty metadata value: {a}");
    }
    assert!(!j.args.iter().any(|a| a.starts_with("album=")));
    assert!(!j.args.iter().any(|a| a.starts_with("date=")));
}

#[test]
fn duplicate_output_paths_are_detected() {
    let c = base_config();
    let r1 = record("a.wav", Some(1), Some(1), "Song", Some("Artist"));
    let r2 = record("b.wav", Some(1), Some(2), "Song", Some("Artist"));
    let r3 = record("c.wav", Some(1), Some(1), "Song", Some("Artist"));
    let jobs = vec![
        build(&c, &r1).unwrap(),
        build(&c, &r2).unwrap(),
        build(&c, &r3).unwrap(),
    ];
    assert_eq!(find_duplicate_output(&jobs), Some((0, 2)));
    let jobs = vec![build(&c, &r1).unwrap(), build(&c, &r2).unwrap()];
    assert_eq!(find_duplicate_output(&jobs), None);
}

#[test]
fn metadata_keeps_unicode_filename_does_not() {
    let mut c = base_config();
    c.album_artist = Some(String::from("Ólafur"));
    let r = record("a.wav", None, None, "étude", None);
    let j = build(&c, &r).unwrap();
    assert!(j.args.contains(&String::from("title=étude")));
    assert!(j.args.contains(&String::from("artist=Ólafur")));
    assert_eq!(j.output_path, "out/Olafur-etude.flac");
}
