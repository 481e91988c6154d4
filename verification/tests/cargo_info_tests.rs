use tauri_bundler::cargo_info::{
    checked_cli_outdated_version, checked_outdated_version, cli_missing_line, cli_outdated_version,
    crate_docs_url, crate_report_line, crate_version, crate_version_with_path_text, dependency_path,
    latest_version_from_redirect,
    lock_packages, outdated_note, outdated_version, parse_cli_version, reported_crates, CargoLock,
    CargoLockPackage, CargoManifest, CargoManifestDependency, CargoManifestDependencyPackage,
    CargoManifestPackage, cli_report_line,
};

fn lock_pkg(name: &str, version: &str, source: Option<&str>) -> CargoLockPackage {
    CargoLockPackage { name: name.into(), version: version.into(), source: source.map(|s| s.into()) }
}

fn manifest(deps: Vec<(&str, CargoManifestDependency)>) -> CargoManifest {
    CargoManifest::new(
        CargoManifestPackage { version: "0.1.0".into() },
        deps.into_iter().map(|(n, d)| (n.to_string(), d)).collect(),
    )
    .unwrap()
}

fn table() -> CargoManifestDependencyPackage {
    CargoManifestDependencyPackage { version: None, git: None, branch: None, rev: None, path: None }
}

#[test]
fn lock_packages_keep_matching_names_in_order() {
    let lock = CargoLock {
        package: vec![lock_pkg("tauri", "1.0.0", None), lock_pkg("wry", "0.2.0", None), lock_pkg("tauri", "1.1.0", None)],
    };
    let found = lock_packages(Some(&lock), "tauri");
    assert_eq!(found.len(), 2);
    assert_eq!(found[0].version, "1.0.0");
    assert_eq!(found[1].version, "1.1.0");
    assert!(lock_packages(None, "tauri").is_empty());
}

#[test]
fn single_lock_package_decides_version() {
    let lock = CargoLock { package: vec![lock_pkg("tauri", "1.5.2", Some("registry+https://github.com/rust-lang/crates.io-index"))] };
    let m = manifest(vec![("tauri", CargoManifestDependency::Version("1".into()))]);
    let (text, found) = crate_version(Some(&m), Some(&lock), "tauri", None);
    assert_eq!(text, "1.5.2");
    assert_eq!(found, vec!["1.5.2".to_string()]);
    let (text, found) = crate_version(None, Some(&lock), "tauri", None);
    assert_eq!(text, "1.5.2 (no manifest)");
    assert_eq!(found, vec!["1.5.2".to_string()]);
}

#[test]
fn git_lock_package_shows_source() {
    let lock = CargoLock { package: vec![lock_pkg("tauri", "2.0.0", Some("git+https://github.com/tauri-apps/tauri#abc"))] };
    let (text, _) = crate_version(None, Some(&lock), "tauri", None);
    assert_eq!(text, "git+https://github.com/tauri-apps/tauri#abc (2.0.0) (no manifest)");
}

#[test]
fn manifest_version_with_ambiguous_lock() {
    let lock = CargoLock { package: vec![lock_pkg("tauri", "1.0.0", None), lock_pkg("tauri", "1.1.0", None)] };
    let m = manifest(vec![("tauri", CargoManifestDependency::Version("1.1".into()))]);
    let (text, found) = crate_version(Some(&m), Some(&lock), "tauri", None);
    assert_eq!(text, "1.1 (1.0.0, 1.1.0)");
    assert_eq!(found, vec!["1.1".to_string()]);
}

#[test]
fn missing_manifest_and_lock() {
    let (text, found) = crate_version(None, None, "tauri", None);
    assert_eq!(text, "no manifest (no lockfile)");
    assert!(found.is_empty());
    let lock = CargoLock { package: vec![lock_pkg("wry", "0.1.0", None)] };
    let m = manifest(vec![]);
    let (text, _) = crate_version(Some(&m), Some(&lock), "tauri", None);
    assert_eq!(text, "no manifest (unknown lockfile)");
}

#[test]
fn table_dependency_forms() {
    let mut versioned = table();
    versioned.version = Some("1.4".into());
    let m = manifest(vec![("tauri", CargoManifestDependency::Package(versioned))]);
    let (text, found) = crate_version(Some(&m), None, "tauri", None);
    assert_eq!(text, "1.4 (no lockfile)");
    assert_eq!(found, vec!["1.4".to_string()]);

    let mut git = table();
    git.git = Some("https://github.com/tauri-apps/tauri".into());
    git.branch = Some("dev".into());
    let m = manifest(vec![("tauri", CargoManifestDependency::Package(git))]);
    let (text, found) = crate_version(Some(&m), None, "tauri", None);
    assert_eq!(text, "git:https://github.com/tauri-apps/tauri&branch=dev (git manifest)(no lockfile)");
    assert!(found.is_empty());

    let mut rev = table();
    rev.git = Some("https://example.com/t".into());
    rev.rev = Some("abc123".into());
    let m = manifest(vec![("tauri", CargoManifestDependency::Package(rev))]);
    let (text, _) = crate_version(Some(&m), None, "tauri", None);
    assert_eq!(text, "git:https://example.com/t#abc123 (git manifest)(no lockfile)");

    let m = manifest(vec![("tauri", CargoManifestDependency::Package(table()))]);
    let (text, _) = crate_version(Some(&m), None, "tauri", None);
    assert_eq!(text, "unknown manifest (no lockfile)");
}

#[test]
fn path_dependency_reads_its_manifest() {
    let mut path = table();
    path.path = Some("../tauri".into());
    let m = manifest(vec![("tauri", CargoManifestDependency::Package(path))]);
    assert_eq!(dependency_path(Some(&m), None, "tauri"), Some("../tauri".to_string()));
    let (text, found) = crate_version(Some(&m), None, "tauri", Some("1.6.0"));
    assert_eq!(text, "path:\"../tauri\" [1.6.0] (no lockfile)");
    assert!(found.is_empty());
    let (text, _) = crate_version(Some(&m), None, "tauri", None);
    assert_eq!(text, "path:\"../tauri\" [unknown version] (no lockfile)");
    let lock = CargoLock { package: vec![lock_pkg("tauri", "1.6.0", None)] };
    assert_eq!(dependency_path(Some(&m), Some(&lock), "tauri"), None);
    assert_eq!(dependency_path(None, None, "tauri"), None);
}

#[test]
fn outdated_when_every_found_version_precedes_latest() {
    let found = vec!["1.4.0".to_string(), "1.5.0".to_string()];
    assert_eq!(outdated_version(&found, Some("1.6.0")), Some("1.6.0".to_string()));
    assert_eq!(outdated_version(&found, Some("1.5.0")), None);
    assert_eq!(outdated_version(&found, Some("1.4.5")), None);
    assert_eq!(outdated_version(&found, None), None);
    let unparsed = vec!["1".to_string()];
    assert_eq!(outdated_version(&unparsed, Some("9.9.9")), None);
    let mixed = vec!["1".to_string(), "0.9.0".to_string()];
    assert_eq!(outdated_version(&mixed, Some("1.0.0")), Some("1.0.0".to_string()));
}

#[test]
fn checked_outdated_rejects_unparsable_latest() {
    let found = vec!["1.4.0".to_string()];
    assert_eq!(checked_outdated_version(&found, Some("latest")), None);
    assert_eq!(checked_outdated_version(&found, Some("2.0.0")), Some(Some("2.0.0".to_string())));
    let unparsed = vec!["1".to_string()];
    assert_eq!(checked_outdated_version(&unparsed, Some("latest")), Some(None));
}

#[test]
fn docs_redirect_names_latest_version() {
    assert_eq!(crate_docs_url("wry"), "https://docs.rs/crate/wry/");
    assert_eq!(
        latest_version_from_redirect("wry", 302, Some("https://docs.rs/crate/wry/0.24.4")),
        Some("0.24.4".to_string())
    );
    assert_eq!(latest_version_from_redirect("wry", 200, Some("https://docs.rs/crate/wry/0.24.4")), None);
    assert_eq!(latest_version_from_redirect("wry", 302, None), None);
}

#[test]
fn cli_version_read_back() {
    assert_eq!(parse_cli_version("tauri-cli 1.5.6\n"), ("tauri-cli".to_string(), "1.5.6".to_string()));
    assert_eq!(parse_cli_version("tauri-cli 1.5.6"), ("tauri-cli".to_string(), String::new()));
    assert_eq!(parse_cli_version("tauri-cli"), ("tauri-cli".to_string(), String::new()));
    assert_eq!(parse_cli_version(""), (String::new(), String::new()));
}

#[test]
fn cli_outdated_compares_versions() {
    assert_eq!(cli_outdated_version("1.5.6", Some("1.6.0")), Some("1.6.0".to_string()));
    assert_eq!(cli_outdated_version("1.6.0", Some("1.6.0")), None);
    assert_eq!(cli_outdated_version("1.6.0", None), None);
    assert_eq!(checked_cli_outdated_version("", Some("1.6.0")), None);
    assert_eq!(checked_cli_outdated_version("1.0.0", Some("1.6.0")), Some(Some("1.6.0".to_string())));
    assert_eq!(checked_cli_outdated_version("", None), Some(None));
}

#[test]
fn report_lines() {
    assert_eq!(outdated_note("outdated", "1.6.0"), " (outdated, latest: 1.6.0)");
    assert_eq!(crate_report_line("tauri", "[RUST]", "1.5.2", None), "tauri [RUST]: 1.5.2");
    assert_eq!(
        crate_report_line("tauri", "[RUST]", "1.5.2", Some(" (outdated, latest: 1.6.0)")),
        "tauri [RUST]: 1.5.2, (outdated, latest: 1.6.0)"
    );
    assert_eq!(cli_report_line("tauri-cli", "[RUST]", "1.5.6", None), "tauri-cli [RUST]: 1.5.6");
    assert_eq!(
        cli_report_line("tauri-cli", "[RUST]", "1.5.6", Some(" (outdated, latest: 1.6.0)")),
        "tauri-cli [RUST]: 1.5.6,  (outdated, latest: 1.6.0)"
    );
    assert_eq!(cli_missing_line("[RUST]"), "tauri-cli [RUST]: not installed!");
    assert_eq!(reported_crates(), vec!["tauri", "tauri-build", "wry", "tao"]);
}

#[test]
fn manifest_rejects_repeated_names() {
    let deps = vec![
        ("tauri".to_string(), CargoManifestDependency::Version("1".into())),
        ("wry".to_string(), CargoManifestDependency::Version("0.2".into())),
        ("tauri".to_string(), CargoManifestDependency::Version("2".into())),
    ];
    assert!(CargoManifest::new(CargoManifestPackage { version: "0.1.0".into() }, deps).is_none());
    let m = manifest(vec![("tauri", CargoManifestDependency::Version("1".into())), ("wry", CargoManifestDependency::Version("0.2".into()))]);
    assert_eq!(m.package().version, "0.1.0");
    assert_eq!(m.dependencies().len(), 2);
    let (text, _) = crate_version(Some(&m), None, "wry", None);
    assert_eq!(text, "0.2 (no lockfile)");
}

#[test]
fn outdated_latest_is_written_as_semver_writes_it() {
    let found = vec!["1.0.0".to_string()];
    assert_eq!(outdated_version(&found, Some("1.0.1+build.5")), Some("1.0.1+build.5".to_string()));
    assert_eq!(cli_outdated_version("1.0.0", Some("2.0.0-rc.1")), Some("2.0.0-rc.1".to_string()));
}

#[test]
fn path_text_is_written_as_given() {
    let mut path = table();
    path.path = Some("../tauri".into());
    let m = manifest(vec![("tauri", CargoManifestDependency::Package(path))]);
    let (text, found) = crate_version_with_path_text(Some(&m), None, "tauri", Some("1.6.0"), "<tauri>");
    assert_eq!(text, "path:<tauri> [1.6.0] (no lockfile)");
    assert!(found.is_empty());
    let lock = CargoLock { package: vec![lock_pkg("tauri", "1.6.0", None)] };
    let (text, found) = crate_version_with_path_text(Some(&m), Some(&lock), "tauri", None, "<tauri>");
    assert_eq!(text, "1.6.0");
    assert_eq!(found, vec!["1.6.0".to_string()]);
}

#[test]
fn latest_version_is_written_as_parsed() {
    let found = vec!["1.0.0".to_string()];
    assert_eq!(outdated_version(&found, Some("2.0.0-rc.1+build.05")), Some("2.0.0-rc.1+build.05".to_string()));
    assert_eq!(cli_outdated_version("1.0.0", Some("1.2.3-beta")), Some("1.2.3-beta".to_string()));
}
