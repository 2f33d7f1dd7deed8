use cratesfyi::options::{generate_paths, DocBuilderOptions, OptionsError};
use cratesfyi::paths::join_path;

#[test]
fn options_from_prefix() {
    let o = DocBuilderOptions::from_prefix("../cratesfyi-prefix".to_string());
    assert_eq!(o.prefix, "../cratesfyi-prefix");
    assert_eq!(o.destination, "../cratesfyi-prefix/documentations");
    assert_eq!(o.crates_io_index_path, "../cratesfyi-prefix/crates.io-index");
    assert!(!o.keep_build_directory && !o.skip_if_exists && !o.debug);
}

#[test]
fn paths_under_prefix_with_trailing_separator() {
    let (p, d, i) = generate_paths("/srv/".to_string());
    assert_eq!(p, "/srv/");
    assert_eq!(d, "/srv/documentations");
    assert_eq!(i, "/srv/crates.io-index");
    let (_, d, _) = generate_paths(String::new());
    assert_eq!(d, "documentations");
}

#[test]
fn joining_paths() {
    assert_eq!(join_path("a", "b"), "a/b");
    assert_eq!(join_path("a/", "b"), "a/b");
    assert_eq!(join_path("", "b"), "b");
    assert_eq!(join_path("a", "/b"), "/b");
}

#[test]
fn missing_paths_are_reported() {
    let o = DocBuilderOptions::from_prefix("x".to_string());
    assert!(o.check_paths(true, true).is_ok());
    match o.check_paths(false, false) {
        Err(OptionsError::DestinationMissing(p)) => assert_eq!(p, "x/documentations"),
        other => panic!("unexpected {:?}", other),
    }
    match o.check_paths(true, false) {
        Err(OptionsError::IndexMissing(p)) => assert_eq!(p, "x/crates.io-index"),
        other => panic!("unexpected {:?}", other),
    }
}
