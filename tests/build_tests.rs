use cratesfyi::assets::{
    essential_build_dir_name, essential_file_names, essential_files, stored_file_name,
    toolchain_config_key, toolchain_config_value,
};
use cratesfyi::execute::{
    additional_targets, cargo_args, extern_html_root_url, join_words, normalize_crate_name,
    resolve_target, rustc_flags, rustdoc_flags, Dependency, PackageMetadata,
};
use cratesfyi::pipeline::{
    build_dir_name, doc_destination, package_doc_dir, rustdoc_prefix, should_save_cache,
    sources_prefix, target_doc_dir, upload_source, BuildStep, PackageBuild,
};
use cratesfyi::toolchain::{parse_rustc_version, update_toolchain, version_from_output, ToolchainError};

fn strings(v: &[&str]) -> Vec<String> {
    v.iter().map(|x| x.to_string()).collect()
}

#[test]
fn version_needs_exactly_one_line() {
    assert_eq!(version_from_output(&strings(&["rustc 1.1"])).unwrap(), "rustc 1.1");
    assert_eq!(version_from_output(&vec![]), Err(ToolchainError::InvalidVersionOutput));
    assert_eq!(version_from_output(&strings(&["a", "b"])), Err(ToolchainError::InvalidVersionOutput));
}

#[test]
fn second_refresh_without_change_is_skipped() {
    let out = strings(&["rustc 1.30.0-nightly (abc 2018-09-01)"]);
    let first = update_toolchain(None, &out).unwrap();
    assert!(first.refresh_assets);
    let second = update_toolchain(Some(first.version.clone()), &out).unwrap();
    assert!(!second.refresh_assets);
    assert_eq!(second.version, first.version);
}

#[test]
fn version_change_refreshes_with_new_token() {
    let first = update_toolchain(None, &strings(&["1.0 (abc)"])).unwrap();
    let second = update_toolchain(Some(first.version.clone()), &strings(&["1.1 (def)"])).unwrap();
    assert!(second.refresh_assets);
    let third = update_toolchain(Some(second.version.clone()), &strings(&["1.1 (def)"])).unwrap();
    assert!(!third.refresh_assets);
    let token = parse_rustc_version(&second.version).unwrap();
    assert_eq!(token, "1.1");
    let names = essential_file_names(&token);
    assert!(names.contains(&"rustdoc-1.1.css".to_string()));
    assert!(!names.iter().any(|n| n.contains("1.0")));
}

#[test]
fn version_token_parsing() {
    assert_eq!(
        parse_rustc_version("rustc 1.22.0-nightly (d93036a04 2017-09-18)").unwrap(),
        "1.22.0-nightly"
    );
    assert_eq!(parse_rustc_version("rustc nightly"), Err(ToolchainError::NoVersionNumber));
    assert_eq!(parse_rustc_version(""), Err(ToolchainError::NoVersionNumber));
    assert_eq!(parse_rustc_version("x9 2"), Ok("2".to_string()));
}

#[test]
fn essential_asset_names() {
    let files = essential_files();
    assert_eq!(files.len(), 22);
    let names = essential_file_names("1.2.3");
    assert_eq!(names.len(), 22);
    assert_eq!(names[0], "brush-1.2.3.svg");
    assert_eq!(names[2], "down-arrow-1.2.3.svg");
    assert_eq!(names[14], "rust-logo-1.2.3.png");
    assert_eq!(names[15], "FiraSans-Medium.woff");
    assert_eq!(names[19], "SourceSerifPro-Bold.ttf.woff");
    assert_eq!(stored_file_name(&files[7], "t"), "rustdoc-t.css");
    assert_eq!(essential_build_dir_name("1.1"), "essential-files-1.1");
}

#[test]
fn toolchain_version_config_is_json() {
    assert_eq!(toolchain_config_key(), "rustc_version");
    assert_eq!(toolchain_config_value(&"1.1 (def)".to_string()), "\"1.1 (def)\"");
    assert_eq!(toolchain_config_value(&"a\"b".to_string()), "\"a\\\"b\"");
}

#[test]
fn target_precedence() {
    let mut m = PackageMetadata::default();
    assert_eq!(resolve_target(None, &m), "x86_64-unknown-linux-gnu");
    m.default_target = Some("x86_64-pc-windows-msvc".to_string());
    assert_eq!(resolve_target(None, &m), "x86_64-pc-windows-msvc");
    assert_eq!(resolve_target(Some("i686-apple-darwin"), &m), "i686-apple-darwin");
}

#[test]
fn crate_names_and_links() {
    assert_eq!(normalize_crate_name("foo-bar-baz"), "foo_bar_baz");
    assert_eq!(normalize_crate_name(""), "");
    let d = Dependency { name: "serde-json".to_string(), version: "1.0.2".to_string() };
    assert_eq!(extern_html_root_url(&d), "serde_json=https://docs.rs/serde-json/1.0.2");
}

#[test]
fn rustdoc_flag_list() {
    let deps = vec![Dependency { name: "a-b".to_string(), version: "0.1.0".to_string() }];
    let mut m = PackageMetadata::default();
    m.rustdoc_args = Some(strings(&["--cfg", "docs"]));
    let flags = rustdoc_flags("1.1", &deps, &m);
    assert_eq!(
        flags,
        strings(&[
            "-Z",
            "unstable-options",
            "--resource-suffix",
            "-1.1",
            "--static-root-path",
            "/",
            "--disable-per-crate-search",
            "--extern-html-root-url",
            "a_b=https://docs.rs/a-b/0.1.0",
            "--cfg",
            "docs",
        ])
    );
    assert_eq!(join_words(&flags[0..2].to_vec()), "-Z unstable-options");
    assert_eq!(rustdoc_flags("2", &vec![], &PackageMetadata::default()).len(), 7);
}

#[test]
fn all_features_drops_feature_list() {
    let mut m = PackageMetadata::default();
    m.all_features = true;
    m.features = Some(strings(&["x"]));
    let args = cargo_args("x86_64-unknown-linux-gnu", &m);
    assert!(args.contains(&"--all-features".to_string()));
    assert!(!args.contains(&"--features".to_string()));
}

#[test]
fn cargo_argument_list() {
    let mut m = PackageMetadata::default();
    m.features = Some(strings(&["a", "b"]));
    m.no_default_features = true;
    assert_eq!(
        cargo_args("t", &m),
        strings(&["doc", "--lib", "--no-deps", "--target", "t", "--features", "a b", "--no-default-features"])
    );
    assert_eq!(rustc_flags(&m), "");
    m.rustc_args = Some(strings(&["-C", "opt-level=0"]));
    assert_eq!(rustc_flags(&m), "-C opt-level=0");
}

#[test]
fn storage_paths() {
    assert_eq!(sources_prefix("foo", "1.0.0"), "sources/foo/1.0.0");
    assert_eq!(rustdoc_prefix("foo", "1.0.0"), "rustdoc/foo/1.0.0");
    assert_eq!(build_dir_name("foo", "1.0.0"), "foo-1.0.0");
    assert_eq!(doc_destination("/d", "foo", "1.0", "i686-pc-windows-msvc", true), "/d/foo/1.0");
    assert_eq!(
        doc_destination("/d", "foo", "1.0", "i686-pc-windows-msvc", false),
        "/d/foo/1.0/i686-pc-windows-msvc"
    );
    assert_eq!(upload_source("/d", "foo", "1.0"), "/d/foo/1.0");
    assert_eq!(target_doc_dir("t", "x"), "t/x/doc");
    assert_eq!(package_doc_dir("t", "x", "my-crate"), "t/x/doc/my_crate");
}

#[test]
fn cache_checkpoints() {
    assert!(should_save_cache(true, 10));
    assert!(should_save_cache(true, 20));
    assert!(!should_save_cache(false, 10));
    assert!(!should_save_cache(true, 11));
}

#[test]
fn failed_default_build_has_no_fanout() {
    let b = PackageBuild::after_default_build(false, true);
    assert!(!b.has_docs());
    assert!(!b.default_successful());
    assert!(matches!(b.next_step(), BuildStep::Finish));
    assert!(b.successful_targets().is_empty());
}

#[test]
fn fanout_keeps_targets_with_docs() {
    let mut b = PackageBuild::after_default_build(true, true);
    assert!(b.has_docs());
    let targets = additional_targets();
    let mut i = 0;
    while let BuildStep::BuildTarget(t) = b.next_step() {
        assert_eq!(t, targets[i]);
        // only the even ones succeed; the second leaves no documentation
        b.record_target(i % 2 == 0, i != 2);
        i += 1;
    }
    assert_eq!(i, 6);
    assert_eq!(b.successful_targets(), vec![targets[0].clone(), targets[4].clone()]);
}

#[test]
fn success_without_docs_dir_has_no_docs() {
    let b = PackageBuild::after_default_build(true, false);
    assert!(!b.has_docs());
    assert!(b.default_successful());
    assert!(matches!(b.next_step(), BuildStep::Finish));
}
