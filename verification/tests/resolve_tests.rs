use check_my_setup::config::{LinkKind, LinkSpec, SetupError};
use check_my_setup::resolve::{linking_line, resolve_entry, ResolvedPair};

fn entry(source: Option<&str>, target: Option<&str>) -> LinkSpec {
    LinkSpec {
        name: String::from("e"),
        kind: LinkKind::File,
        source_location: source.map(String::from),
        target_location: target.map(String::from),
    }
}

#[test]
fn absolute_paths_come_back_unchanged() {
    let pair = resolve_entry(&entry(Some("/tmp/src.txt"), Some("/tmp/dst.txt"))).unwrap();
    assert_eq!(pair.source, "/tmp/src.txt");
    assert_eq!(pair.target, "/tmp/dst.txt");
}

#[test]
fn root_comes_back_unchanged() {
    let pair = resolve_entry(&entry(Some("/"), Some("/tmp"))).unwrap();
    assert_eq!(pair.source, "/");
    assert_eq!(pair.target, "/tmp");
}

#[test]
fn dot_segments_are_collapsed() {
    let pair = resolve_entry(&entry(Some("/tmp/a/../b"), Some("/tmp/./c"))).unwrap();
    assert_eq!(pair.source, "/tmp/b");
    assert_eq!(pair.target, "/tmp/c");
}

#[test]
fn relative_paths_become_absolute() {
    let pair = resolve_entry(&entry(Some("some/file.txt"), Some("other.txt"))).unwrap();
    assert!(pair.source.starts_with('/'));
    assert!(pair.target.starts_with('/'));
    assert!(pair.source.ends_with("some/file.txt"));
    assert!(pair.target.ends_with("other.txt"));
}

#[test]
fn missing_source_is_config_error() {
    assert_eq!(
        resolve_entry(&entry(None, Some("/tmp/dst.txt"))).unwrap_err(),
        SetupError::ConfigError
    );
}

#[test]
fn missing_target_is_config_error() {
    assert_eq!(
        resolve_entry(&entry(Some("/tmp/src.txt"), None)).unwrap_err(),
        SetupError::ConfigError
    );
}

#[test]
fn missing_both_is_config_error() {
    assert_eq!(
        resolve_entry(&entry(None, None)).unwrap_err(),
        SetupError::ConfigError
    );
}

#[test]
fn linking_line_format() {
    let pair = ResolvedPair {
        source: String::from("/tmp/src.txt"),
        target: String::from("/tmp/dst.txt"),
    };
    assert_eq!(
        linking_line(&pair),
        "Linking: \"/tmp/src.txt\" to \"/tmp/dst.txt\""
    );
}
