use adamantite::Action;
use adamantite::Distfile;
use adamantite::Event;
use adamantite::Package;
use adamantite::Phase;
use adamantite::Pipeline;
use adamantite::PipelineError;

const DATA: &[u8] = b"hello world\n";

fn one_distfile_package() -> Package {
    Package {
        version: "1.0".to_string(),
        build: "cp f.bin \"$PACKAGE_OUT\"/\n".to_string(),
        depends: vec![],
        distfiles: Some(vec![Distfile {
            uri: "https://host/pkg/f.bin".to_string(),
            blake2b: "d39dba75".to_string(),
            name: None,
        }]),
    }
}

fn new_pipeline() -> Pipeline {
    Pipeline::new(one_distfile_package(), "mypkg", "/cache", "/stage").unwrap()
}

#[test]
fn full_run_in_order_with_fetch() {
    let mut p = new_pipeline();
    match p.step(Event::Start) {
        Action::ReadCache { path } => assert_eq!(path, "/cache/f.bin"),
        _ => panic!("expected a cache read"),
    }
    match p.step(Event::CacheRead { data: None }) {
        Action::Fetch { uri } => assert_eq!(uri, "https://host/pkg/f.bin"),
        _ => panic!("expected a fetch"),
    }
    match p.step(Event::Fetched { body: Some(DATA.to_vec()) }) {
        Action::WriteCache { path, data } => {
            assert_eq!(path, "/cache/f.bin");
            assert_eq!(data, DATA.to_vec());
        }
        _ => panic!("expected a cache write"),
    }
    match p.step(Event::CacheWritten { ok: true }) {
        Action::PrepareStaging { root, work_dir, out_dir } => {
            assert_eq!(root, "/stage");
            assert_eq!(work_dir, "/stage/work");
            assert_eq!(out_dir, "/stage/out");
        }
        _ => panic!("expected staging preparation"),
    }
    match p.step(Event::StagingReady { ok: true }) {
        Action::CopyDistfile { from, to } => {
            assert_eq!(from, "/cache/f.bin");
            assert_eq!(to, "/stage/work/f.bin");
        }
        _ => panic!("expected a distfile copy"),
    }
    match p.step(Event::Copied { ok: true }) {
        Action::WriteScript { path, script } => {
            assert_eq!(path, "/stage/build");
            assert_eq!(script, "cp f.bin \"$PACKAGE_OUT\"/\n");
        }
        _ => panic!("expected the script write"),
    }
    match p.step(Event::ScriptWritten { ok: true }) {
        Action::RunBuild { script_path, work_dir, out_dir } => {
            assert_eq!(script_path, "/stage/build");
            assert_eq!(work_dir, "/stage/work");
            assert_eq!(out_dir, "/stage/out");
        }
        _ => panic!("expected the build run"),
    }
    match p.step(Event::BuildExited { code: Some(0) }) {
        Action::PackageOut { out_dir, artifact } => {
            assert_eq!(out_dir, "/stage/out");
            assert_eq!(artifact, "mypkg_1.0.tar");
        }
        _ => panic!("expected packaging"),
    }
    match p.step(Event::Packaged { ok: true }) {
        Action::Finished => {}
        _ => panic!("expected the run to finish"),
    }
    assert_eq!(p.phase, Phase::Done);
}

#[test]
fn cached_copy_is_reused_after_reverification() {
    let mut p = new_pipeline();
    match p.step(Event::Start) {
        Action::ReadCache { .. } => {}
        _ => panic!("expected a cache read"),
    }
    match p.step(Event::CacheRead { data: Some(DATA.to_vec()) }) {
        Action::PrepareStaging { .. } => {}
        _ => panic!("a verified cached copy should lead straight to staging"),
    }
}

#[test]
fn corrupted_cache_fails_and_is_not_refetched() {
    let mut p = new_pipeline();
    match p.step(Event::Start) {
        Action::ReadCache { .. } => {}
        _ => panic!("expected a cache read"),
    }
    let mut corrupt = DATA.to_vec();
    corrupt[0] ^= 0x01;
    match p.step(Event::CacheRead { data: Some(corrupt) }) {
        Action::Fail { error } => assert_eq!(
            error,
            PipelineError::ChecksumMismatch {
                expected: "d39dba75".to_string(),
                actual: "5d56a7d4".to_string(),
            }
        ),
        Action::Fetch { .. } => panic!("a corrupted cache must not be silently re-fetched"),
        _ => panic!("expected the run to fail"),
    }
    assert_eq!(p.phase, Phase::Failed);
}

#[test]
fn fetched_bytes_failing_verification_are_fatal() {
    let mut p = new_pipeline();
    p.step(Event::Start);
    p.step(Event::CacheRead { data: None });
    match p.step(Event::Fetched { body: Some(b"wrong".to_vec()) }) {
        Action::Fail { error } => match error {
            PipelineError::ChecksumMismatch { expected, .. } => {
                assert_eq!(expected, "d39dba75");
            }
            _ => panic!("expected a checksum mismatch"),
        },
        _ => panic!("expected the run to fail"),
    }
    assert_eq!(p.phase, Phase::Failed);
}

#[test]
fn failed_fetch_is_fatal() {
    let mut p = new_pipeline();
    p.step(Event::Start);
    p.step(Event::CacheRead { data: None });
    match p.step(Event::Fetched { body: None }) {
        Action::Fail { error } => assert_eq!(error, PipelineError::FetchFailure),
        _ => panic!("expected the run to fail"),
    }
}

#[test]
fn failed_cache_write_is_fatal() {
    let mut p = new_pipeline();
    p.step(Event::Start);
    p.step(Event::CacheRead { data: None });
    p.step(Event::Fetched { body: Some(DATA.to_vec()) });
    match p.step(Event::CacheWritten { ok: false }) {
        Action::Fail { error } => assert_eq!(error, PipelineError::FilesystemFailure),
        _ => panic!("expected the run to fail"),
    }
}

#[test]
fn nonzero_build_exit_produces_no_artifact() {
    let mut p = new_pipeline();
    p.step(Event::Start);
    p.step(Event::CacheRead { data: Some(DATA.to_vec()) });
    p.step(Event::StagingReady { ok: true });
    p.step(Event::Copied { ok: true });
    p.step(Event::ScriptWritten { ok: true });
    match p.step(Event::BuildExited { code: Some(2) }) {
        Action::Fail { error } => assert_eq!(error, PipelineError::BuildFailed { code: Some(2) }),
        _ => panic!("a failing build must fail the run"),
    }
    assert_eq!(p.phase, Phase::Failed);
}

#[test]
fn packaging_failure_is_reported() {
    let mut p = new_pipeline();
    p.step(Event::Start);
    p.step(Event::CacheRead { data: Some(DATA.to_vec()) });
    p.step(Event::StagingReady { ok: true });
    p.step(Event::Copied { ok: true });
    p.step(Event::ScriptWritten { ok: true });
    p.step(Event::BuildExited { code: Some(0) });
    match p.step(Event::Packaged { ok: false }) {
        Action::Fail { error } => assert_eq!(error, PipelineError::PackagingFailure),
        _ => panic!("expected the run to fail"),
    }
}

#[test]
fn unresolvable_distfile_name_fails_the_run() {
    let package = Package {
        version: "1.0".to_string(),
        build: String::new(),
        depends: vec![],
        distfiles: Some(vec![Distfile {
            uri: "https://host/dir/".to_string(),
            blake2b: "d39dba75".to_string(),
            name: None,
        }]),
    };
    let mut p = Pipeline::new(package, "mypkg", "/cache", "/stage").unwrap();
    match p.step(Event::Start) {
        Action::Fail { error } => assert_eq!(error, PipelineError::NameResolution),
        _ => panic!("expected the run to fail"),
    }
}

#[test]
fn package_without_distfiles_goes_straight_to_staging() {
    let package = Package {
        version: "2.1".to_string(),
        build: "touch \"$PACKAGE_OUT\"/done\n".to_string(),
        depends: vec!["base".to_string()],
        distfiles: None,
    };
    let mut p = Pipeline::new(package, "tiny", "/cache", "/stage").unwrap();
    match p.step(Event::Start) {
        Action::PrepareStaging { root, .. } => assert_eq!(root, "/stage"),
        _ => panic!("expected staging preparation"),
    }
    p.step(Event::StagingReady { ok: true });
    p.step(Event::ScriptWritten { ok: true });
    match p.step(Event::BuildExited { code: Some(0) }) {
        Action::PackageOut { artifact, .. } => assert_eq!(artifact, "tiny_2.1.tar"),
        _ => panic!("expected packaging"),
    }
}

#[test]
fn unsupported_digest_length_is_rejected_up_front() {
    let too_short = Package {
        version: "1.0".to_string(),
        build: String::new(),
        depends: vec![],
        distfiles: Some(vec![Distfile {
            uri: "https://host/f.bin".to_string(),
            blake2b: String::new(),
            name: None,
        }]),
    };
    assert!(Pipeline::new(too_short, "p", "/cache", "/stage").is_none());
    let too_long = Package {
        version: "1.0".to_string(),
        build: String::new(),
        depends: vec![],
        distfiles: Some(vec![Distfile {
            uri: "https://host/f.bin".to_string(),
            blake2b: "00".repeat(65),
            name: None,
        }]),
    };
    assert!(Pipeline::new(too_long, "p", "/cache", "/stage").is_none());
}

#[test]
fn second_run_recreates_staging_before_any_copy() {
    let mut first = new_pipeline();
    first.step(Event::Start);
    first.step(Event::CacheRead { data: Some(DATA.to_vec()) });
    first.step(Event::StagingReady { ok: true });
    first.step(Event::Copied { ok: true });
    first.step(Event::ScriptWritten { ok: true });
    first.step(Event::BuildExited { code: Some(0) });
    first.step(Event::Packaged { ok: true });
    assert_eq!(first.phase, Phase::Done);

    // A second run against the same staging root asks for it to be removed
    // and recreated before anything is copied into it.
    let mut second = new_pipeline();
    second.step(Event::Start);
    match second.step(Event::CacheRead { data: Some(DATA.to_vec()) }) {
        Action::PrepareStaging { root, work_dir, out_dir } => {
            assert_eq!(root, "/stage");
            assert_eq!(work_dir, "/stage/work");
            assert_eq!(out_dir, "/stage/out");
        }
        _ => panic!("staging must be recreated before any copy"),
    }
    match second.step(Event::StagingReady { ok: true }) {
        Action::CopyDistfile { .. } => {}
        _ => panic!("the copy comes only after staging preparation"),
    }
}

#[test]
fn cache_round_trip_reverifies() {
    let mut p = new_pipeline();
    p.step(Event::Start);
    p.step(Event::CacheRead { data: None });
    let written = match p.step(Event::Fetched { body: Some(DATA.to_vec()) }) {
        Action::WriteCache { data, .. } => data,
        _ => panic!("expected a cache write"),
    };
    // Reading the written bytes back in a later run verifies successfully.
    let mut again = new_pipeline();
    again.step(Event::Start);
    match again.step(Event::CacheRead { data: Some(written) }) {
        Action::PrepareStaging { .. } => {}
        _ => panic!("bytes written by a successful fetch must re-verify"),
    }
}
