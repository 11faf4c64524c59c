use adamantite::Distfile;
use adamantite::PipelineError;
use adamantite::resolve_name;

fn df(uri: &str, blake2b: &str, name: Option<&str>) -> Distfile {
    Distfile {
        uri: uri.to_string(),
        blake2b: blake2b.to_string(),
        name: name.map(|n| n.to_string()),
    }
}

#[test]
fn explicit_name_wins() {
    let d = df("https://host/a/b/file.tar.gz", "d39dba75", Some("other.bin"));
    assert_eq!(resolve_name(&d).unwrap(), "other.bin");
}

#[test]
fn explicit_name_wins_even_with_unusable_uri() {
    let d = df("not a uri at all", "d39dba75", Some("kept.bin"));
    assert_eq!(resolve_name(&d).unwrap(), "kept.bin");
}

#[test]
fn name_derived_from_uri() {
    let d = df("https://host/a/b/file.tar.gz", "d39dba75", None);
    assert_eq!(resolve_name(&d).unwrap(), "file.tar.gz");
}

#[test]
fn trailing_slash_fails() {
    let d = df("https://host/a/b/", "d39dba75", None);
    assert_eq!(resolve_name(&d), Err(PipelineError::NameResolution));
}

#[test]
fn bare_host_fails() {
    let d = df("https://host", "d39dba75", None);
    assert_eq!(resolve_name(&d), Err(PipelineError::NameResolution));
}

#[test]
fn unparsable_uri_fails() {
    let d = df("not a uri at all", "d39dba75", None);
    assert_eq!(resolve_name(&d), Err(PipelineError::NameResolution));
}

#[test]
fn resolution_is_stable_across_calls() {
    let d = df("https://host/pkg/src-1.2.tar.xz", "d39dba75", None);
    let first = resolve_name(&d).unwrap();
    let second = resolve_name(&d).unwrap();
    assert_eq!(first, second);
    assert_eq!(first, "src-1.2.tar.xz");
}
