use trackconv::batch::{
    build_failure, classify_exit, effective_concurrency, spawn_failure, BatchResult, FailureKind,
    Orchestrator, Outcome, Policy,
};
use trackconv::job::{build, BuildError};
use trackconv::records::{ConversionConfig, TrackRecord};

fn success(path: &str) -> Outcome {
    Outcome::Success {
        output_path: String::from(path),
    }
}

fn failure(file: &str) -> Outcome {
    build_failure(
        String::from(file),
        BuildError::MissingArtist {
            file: String::from(file),
        },
    )
}

#[test]
fn all_jobs_one_outcome_each() {
    let mut o = Orchestrator::new(3, Policy::ContinueOnError);
    assert_eq!(o.total(), 3);
    assert!(!o.complete());
    o.record(1, success("b"));
    o.record(0, success("a"));
    o.record(2, success("c"));
    assert!(o.complete());
    assert!(!o.has_failure());
    assert!(matches!(o.into_result(), BatchResult::Success));
}

#[test]
fn empty_batch_succeeds() {
    let o = Orchestrator::new(0, Policy::FailFast);
    assert!(o.complete());
    assert!(matches!(o.into_result(), BatchResult::Success));
}

#[test]
fn fail_fast_reports_lowest_manifest_index() {
    let mut o = Orchestrator::new(6, Policy::FailFast);
    // completion order differs from manifest order: index 5 fails first
    o.record(5, failure("five.wav"));
    o.record(2, failure("two.wav"));
    o.record(0, success("a"));
    o.record(1, success("b"));
    o.record(3, success("d"));
    o.record(4, success("e"));
    match o.into_result() {
        BatchResult::Failed { failures } => {
            assert_eq!(failures.len(), 1);
            assert_eq!(failures[0].index, 2);
            assert_eq!(failures[0].diag.source_file, "two.wav");
        },
        BatchResult::Success => panic!("expected a failure"),
    }
}

#[test]
fn fail_fast_stops_dispatching_after_failure() {
    let mut o = Orchestrator::new(3, Policy::FailFast);
    assert!(o.should_dispatch());
    o.record(0, success("a"));
    assert!(o.should_dispatch());
    o.record(1, failure("b.wav"));
    assert!(!o.should_dispatch());
}

#[test]
fn continue_on_error_keeps_dispatching() {
    let mut o = Orchestrator::new(3, Policy::ContinueOnError);
    o.record(0, failure("a.wav"));
    assert!(o.should_dispatch());
    o.record(1, success("b"));
    o.record(2, success("c"));
    match o.into_result() {
        BatchResult::Failed { failures } => {
            assert_eq!(failures.len(), 1);
            assert_eq!(failures[0].index, 0);
        },
        BatchResult::Success => panic!("expected a failure"),
    }
}

#[test]
fn continue_on_error_reports_all_failures_in_order() {
    let mut o = Orchestrator::new(4, Policy::ContinueOnError);
    o.record(3, failure("d.wav"));
    o.record(1, failure("b.wav"));
    o.record(0, success("a"));
    o.record(2, success("c"));
    match o.into_result() {
        BatchResult::Failed { failures } => {
            assert_eq!(failures.len(), 2);
            assert_eq!(failures[0].index, 1);
            assert_eq!(failures[0].diag.source_file, "b.wav");
            assert_eq!(failures[1].index, 3);
            assert_eq!(failures[1].diag.source_file, "d.wav");
        },
        BatchResult::Success => panic!("expected failures"),
    }
}

#[test]
fn default_policy_is_fail_fast() {
    assert!(matches!(Policy::default(), Policy::FailFast));
}

#[test]
fn concurrency_zero_means_all_units() {
    assert_eq!(effective_concurrency(0, 8), 8);
    assert_eq!(effective_concurrency(4, 8), 4);
    assert_eq!(effective_concurrency(16, 8), 16);
}

fn sample_job() -> trackconv::job::Job {
    let c = ConversionConfig {
        cover: None,
        input_dir: None,
        album_title: None,
        album_artist: None,
        date: None,
        threads: 0,
        verbose: false,
        output_dir: String::from("out"),
    };
    let r = TrackRecord {
        file: String::from("a.wav"),
        disc: None,
        track: None,
        title: String::from("T"),
        artist: Some(String::from("A")),
    };
    build(&c, &r).unwrap()
}

#[test]
fn zero_exit_is_success() {
    let j = sample_job();
    let expected = j.output_path.clone();
    match classify_exit(j, true, Vec::new(), Vec::new()) {
        Outcome::Success { output_path } => assert_eq!(output_path, expected),
        Outcome::Failure { .. } => panic!("expected success"),
    }
}

#[test]
fn nonzero_exit_keeps_streams_and_args() {
    let j = sample_job();
    let args = j.args.clone();
    match classify_exit(j, false, b"sout".to_vec(), b"serr".to_vec()) {
        Outcome::Failure { diag } => {
            assert_eq!(diag.source_file, "a.wav");
            assert_eq!(diag.output_path, "out/A-T.flac");
            assert_eq!(diag.args, args);
            match diag.kind {
                FailureKind::Encode {
                    captured_out,
                    captured_err,
                } => {
                    assert_eq!(captured_out, b"sout");
                    assert_eq!(captured_err, b"serr");
                },
                _ => panic!("expected an encode failure"),
            }
        },
        Outcome::Success { .. } => panic!("expected failure"),
    }
}

#[test]
fn spawn_error_is_a_failure_without_output() {
    let j = sample_job();
    match spawn_failure(j, String::from("no such executable")) {
        Outcome::Failure { diag } => match diag.kind {
            FailureKind::Spawn { message } => assert_eq!(message, "no such executable"),
            _ => panic!("expected a spawn failure"),
        },
        Outcome::Success { .. } => panic!("expected failure"),
    }
}

#[test]
fn one_encode_failure_does_not_block_the_rest() {
    // a non-zero exit for one job, under continue-on-error, leaves every
    // other job recorded as a success
    let mut o = Orchestrator::new(3, Policy::ContinueOnError);
    let j = sample_job();
    o.record(1, classify_exit(j, false, Vec::new(), b"boom".to_vec()));
    assert!(o.should_dispatch());
    o.record(0, success("out/x.flac"));
    o.record(2, success("out/y.flac"));
    assert!(o.complete());
    match o.into_result() {
        BatchResult::Failed { failures } => {
            assert_eq!(failures.len(), 1);
            assert_eq!(failures[0].index, 1);
        },
        BatchResult::Success => panic!("expected one failure"),
    }
}
