use std::collections::HashMap;

use tauri_bundler::error::Error;
use tauri_bundler::package_type::PackageType;
use tauri_bundler::platform::{LogLevel, NSISInstallerMode, WebviewInstallMode};
use tauri_bundler::settings::{
    BundleBinary, BundleSettings, NsisSettings, PackageSettings, ResourcePatterns, Settings,
    SettingsBuilder, UpdaterSettings, WindowsSettings, WixLanguage, WixLanguageConfig, WixSettings,
};

fn package() -> PackageSettings {
    PackageSettings {
        product_name: "Demo".to_string(),
        version: "1.2.3".to_string(),
        description: "A demo app".to_string(),
        homepage: None,
        authors: None,
        default_run: None,
    }
}

fn builder(target: &str) -> SettingsBuilder {
    SettingsBuilder::new()
        .package_settings(package())
        .project_out_directory("target/release")
        .target(target.to_string())
}

fn settings(target: &str, bundle: BundleSettings) -> Settings {
    builder(target).bundle_settings(bundle).build(Err(Error::GenericError("no host".into()))).unwrap()
}

fn updater(active: bool) -> UpdaterSettings {
    UpdaterSettings { active, ..Default::default() }
}

#[test]
fn windows_settings_default() {
    let w = WindowsSettings::default();
    assert_eq!(w.icon_path, "icons/icon.ico");
    assert!(w.allow_downgrades);
    assert!(!w.tsp);
    assert!(w.wix.is_none());
    assert!(w.nsis.is_none());
    assert!(w.digest_algorithm.is_none());
    assert!(w.certificate_thumbprint.is_none());
    assert!(w.timestamp_url.is_none());
    assert!(w.webview_fixed_runtime_path.is_none());
    assert!(matches!(w.webview_install_mode, WebviewInstallMode::DownloadBootstrapper { silent: true }));
}

#[test]
fn webview_and_installer_defaults() {
    assert!(matches!(WebviewInstallMode::default(), WebviewInstallMode::DownloadBootstrapper { silent: true }));
    assert_eq!(NSISInstallerMode::default(), NSISInstallerMode::CurrentUser);
    assert_eq!(NsisSettings::default().install_mode, NSISInstallerMode::CurrentUser);
}

#[test]
fn wix_language_default_is_en_us() {
    let l = WixLanguage::default();
    assert_eq!(l.0.len(), 1);
    assert_eq!(l.0[0].0, "en-US");
    assert!(l.0[0].1.locale_path.is_none());
}

#[test]
fn bundle_settings_default_is_empty() {
    let b = BundleSettings::default();
    assert!(b.identifier.is_none());
    assert!(b.external_bin.is_none());
    assert!(b.updater.is_none());
    assert!(b.deb.files.is_empty());
    assert!(b.macos.frameworks.is_none());
    assert_eq!(b.windows.icon_path, "icons/icon.ico");
}

#[test]
fn bundle_settings_clone_keeps_fields() {
    let mut bin = HashMap::new();
    bin.insert("helper".to_string(), BundleSettings::default());
    let b = BundleSettings {
        identifier: Some("com.demo.app".into()),
        bin: Some(bin),
        ..Default::default()
    };
    let c = b.clone();
    assert_eq!(c.identifier.as_deref(), Some("com.demo.app"));
    assert!(c.bin.unwrap().contains_key("helper"));
}

#[test]
fn bundle_binary_accessors() {
    let mut b = BundleBinary::new("app".to_string(), false);
    assert_eq!(b.name(), "app");
    assert!(!b.main());
    assert_eq!(b.src_path(), None);
    b.set_main(true);
    b.set_name("renamed".to_string());
    let b = b.set_src_path(Some("src/main.rs".to_string()));
    assert_eq!(b.name(), "renamed");
    assert!(b.main());
    assert_eq!(b.src_path(), Some(&"src/main.rs".to_string()));
}

#[test]
fn build_gives_back_what_was_set() {
    let s = builder("x86_64-unknown-linux-gnu")
        .package_types(vec![PackageType::Deb])
        .log_level(LogLevel::Info)
        .binaries(vec![BundleBinary::new("demo".into(), true)])
        .build(Err(Error::GenericError("unused".into())))
        .unwrap();
    assert_eq!(s.target(), "x86_64-unknown-linux-gnu");
    assert_eq!(s.project_out_directory(), "target/release");
    assert_eq!(s.log_level(), LogLevel::Info);
    assert_eq!(s.product_name(), "Demo");
    assert_eq!(s.version_string(), "1.2.3");
    assert_eq!(s.binaries().len(), 1);
    assert_eq!(s.binaries()[0].name(), "demo");
}

#[test]
fn log_level_defaults_to_error() {
    let mut s = settings("x86_64-unknown-linux-gnu", BundleSettings::default());
    assert_eq!(s.log_level(), LogLevel::Error);
    s.set_log_level(LogLevel::Trace);
    assert_eq!(s.log_level(), LogLevel::Trace);
}

#[test]
fn build_uses_host_target_when_none_set() {
    let s = SettingsBuilder::new()
        .package_settings(package())
        .project_out_directory("out")
        .build(Ok("aarch64-apple-darwin".to_string()))
        .unwrap();
    assert_eq!(s.target(), "aarch64-apple-darwin");
}

#[test]
fn build_reports_host_target_error() {
    let r = SettingsBuilder::new()
        .package_settings(package())
        .project_out_directory("out")
        .build(Err(Error::GenericError("unknown host".into())));
    match r {
        Err(Error::GenericError(m)) => assert_eq!(m, "unknown host"),
        Ok(_) => panic!("expected an error"),
    }
}

#[test]
fn external_binaries_carry_target() {
    let bundle = BundleSettings {
        external_bin: Some(vec!["bin/sqlite3".into(), "helper".into()]),
        ..Default::default()
    };
    let s = settings("x86_64-unknown-linux-gnu", bundle);
    match s.external_binaries().patterns {
        ResourcePatterns::Paths(p) => assert_eq!(
            p,
            &["bin/sqlite3-x86_64-unknown-linux-gnu".to_string(), "helper-x86_64-unknown-linux-gnu".to_string()]
        ),
        ResourcePatterns::Mapped(_) => panic!("expected paths"),
    }
    assert!(s.external_binaries().allow_walk);
}

#[test]
fn external_binaries_on_windows_end_with_exe() {
    let bundle = BundleSettings { external_bin: Some(vec!["sqlite3".into()]), ..Default::default() };
    let s = settings("x86_64-pc-windows-msvc", bundle);
    match s.external_binaries().patterns {
        ResourcePatterns::Paths(p) => assert_eq!(p, &["sqlite3-x86_64-pc-windows-msvc.exe".to_string()]),
        ResourcePatterns::Mapped(_) => panic!("expected paths"),
    }
}

#[test]
fn copy_name_restores_binary_name() {
    let s = settings("x86_64-unknown-linux-gnu", BundleSettings::default());
    assert_eq!(s.external_binary_copy_name("sqlite3-x86_64-unknown-linux-gnu"), "sqlite3");
    assert_eq!(s.external_binary_copy_name("plain"), "plain");
    let w = settings("x86_64-pc-windows-msvc", BundleSettings::default());
    assert_eq!(w.external_binary_copy_name("sqlite3-x86_64-pc-windows-msvc.exe"), "sqlite3.exe");
}

#[test]
fn binary_arch_by_target() {
    let arch = |t: &str| settings(t, BundleSettings::default()).binary_arch();
    assert_eq!(arch("x86_64-unknown-linux-gnu"), "x86_64");
    assert_eq!(arch("i686-pc-windows-msvc"), "x86");
    assert_eq!(arch("armv7-unknown-linux-gnueabihf"), "arm");
    assert_eq!(arch("aarch64-apple-darwin"), "aarch64");
    assert_eq!(arch("universal-apple-darwin"), "universal");
}

#[test]
fn main_binary_name_is_the_first_main() {
    let s = builder("x86_64-unknown-linux-gnu")
        .binaries(vec![
            BundleBinary::new("helper".into(), false),
            BundleBinary::new("first".into(), true),
            BundleBinary::new("second".into(), true),
        ])
        .build(Err(Error::GenericError("unused".into())))
        .unwrap();
    assert_eq!(s.main_binary_name(), "first");
}

#[test]
fn binary_path_joins_the_out_directory() {
    let s = settings("x86_64-unknown-linux-gnu", BundleSettings::default());
    let b = BundleBinary::new("demo".into(), true);
    assert_eq!(s.binary_path(&b), "target/release/demo");
}

#[test]
fn package_types_native_to_each_target() {
    let types = |t: &str| settings(t, BundleSettings::default()).package_types("linux").unwrap();
    assert_eq!(types("x86_64-unknown-linux-gnu"), vec![PackageType::Deb, PackageType::AppImage]);
    assert_eq!(types("aarch64-apple-darwin"), vec![PackageType::MacOsBundle, PackageType::Dmg]);
    assert_eq!(types("aarch64-apple-ios"), vec![PackageType::IosBundle]);
    assert_eq!(types("x86_64-pc-windows-msvc"), vec![PackageType::WindowsMsi, PackageType::Nsis]);
}

#[test]
fn package_types_fall_back_to_host_os() {
    let s = settings("universal", BundleSettings::default());
    assert_eq!(s.package_types("windows").unwrap(), vec![PackageType::WindowsMsi, PackageType::Nsis]);
    assert_eq!(s.package_types("darwin").unwrap(), vec![PackageType::MacOsBundle, PackageType::Dmg]);
}

#[test]
fn package_types_add_updater_when_active() {
    let active = BundleSettings { updater: Some(updater(true)), ..Default::default() };
    let s = settings("x86_64-unknown-linux-gnu", active);
    assert!(s.is_update_enabled());
    assert_eq!(
        s.package_types("linux").unwrap(),
        vec![PackageType::Deb, PackageType::AppImage, PackageType::Updater]
    );
    let inactive = BundleSettings { updater: Some(updater(false)), ..Default::default() };
    let s = settings("x86_64-unknown-linux-gnu", inactive);
    assert!(!s.is_update_enabled());
    assert_eq!(s.package_types("linux").unwrap(), vec![PackageType::Deb, PackageType::AppImage]);
}

#[test]
fn package_types_filter_requested_list() {
    let s = builder("x86_64-unknown-linux-gnu")
        .package_types(vec![PackageType::Dmg, PackageType::AppImage, PackageType::Updater, PackageType::Deb])
        .build(Err(Error::GenericError("unused".into())))
        .unwrap();
    assert_eq!(s.package_types("linux").unwrap(), vec![PackageType::AppImage, PackageType::Deb]);
}

#[test]
fn package_types_reject_unsupported_os() {
    let s = settings("x86_64-unknown-freebsd", BundleSettings::default());
    match s.package_types("linux") {
        Err(Error::GenericError(m)) => assert_eq!(m, "Native freebsd bundles not yet supported."),
        Ok(_) => panic!("expected an error"),
    }
}

#[test]
fn optional_texts_and_fallbacks() {
    let s = settings("x86_64-unknown-linux-gnu", BundleSettings::default());
    assert_eq!(s.bundle_identifier(), "");
    assert_eq!(s.homepage_url(), "");
    assert_eq!(s.publisher(), None);
    assert_eq!(s.copyright_string(), None);
    assert_eq!(s.long_description(), None);
    assert_eq!(s.short_description(), "A demo app");
    assert!(s.updater().is_none());
    assert!(s.app_category().is_none());

    let bundle = BundleSettings {
        identifier: Some("com.demo.app".into()),
        publisher: Some("Demo Inc".into()),
        copyright: Some("(c) Demo".into()),
        short_description: Some("Short".into()),
        long_description: Some("Long".into()),
        updater: Some(updater(true)),
        ..Default::default()
    };
    let s = settings("x86_64-unknown-linux-gnu", bundle);
    assert_eq!(s.bundle_identifier(), "com.demo.app");
    assert_eq!(s.publisher(), Some("Demo Inc"));
    assert_eq!(s.copyright_string(), Some("(c) Demo"));
    assert_eq!(s.short_description(), "Short");
    assert_eq!(s.long_description(), Some("Long"));
    assert!(s.updater().unwrap().active);
}

#[test]
fn authors_joined_with_commas() {
    let mut p = package();
    p.authors = Some(vec!["Ann".into(), "Bob".into(), "Cy".into()]);
    p.homepage = Some("https://demo.app".into());
    let s = SettingsBuilder::new()
        .package_settings(p)
        .project_out_directory("out")
        .target("x86_64-unknown-linux-gnu".into())
        .build(Err(Error::GenericError("unused".into())))
        .unwrap();
    assert_eq!(s.author_names(), &["Ann".to_string(), "Bob".to_string(), "Cy".to_string()]);
    assert_eq!(s.authors_comma_separated(), Some("Ann, Bob, Cy".to_string()));
    assert_eq!(s.homepage_url(), "https://demo.app");
}

#[test]
fn no_authors_gives_none() {
    let s = settings("x86_64-unknown-linux-gnu", BundleSettings::default());
    assert!(s.author_names().is_empty());
    assert_eq!(s.authors_comma_separated(), None);
}

#[test]
fn icon_and_resource_selection() {
    let bundle = BundleSettings {
        icon: Some(vec!["icons/32x32.png".into()]),
        resources: Some(vec!["assets/*".into()]),
        ..Default::default()
    };
    let s = settings("x86_64-unknown-linux-gnu", bundle);
    let icons = s.icon_files();
    assert!(!icons.allow_walk);
    assert!(matches!(icons.patterns, ResourcePatterns::Paths(p) if p == ["icons/32x32.png".to_string()]));
    let res = s.resource_files();
    assert!(res.allow_walk);
    assert!(matches!(res.patterns, ResourcePatterns::Paths(p) if p == ["assets/*".to_string()]));

    let mut map = HashMap::new();
    map.insert("assets/a.txt".to_string(), "data/a.txt".to_string());
    let s = settings("x86_64-unknown-linux-gnu", BundleSettings { resources_map: Some(map), ..Default::default() });
    assert!(matches!(s.resource_files().patterns, ResourcePatterns::Mapped(m) if m.len() == 1));

    let s = settings("x86_64-unknown-linux-gnu", BundleSettings::default());
    assert!(matches!(s.icon_files().patterns, ResourcePatterns::Paths(p) if p.is_empty()));
    assert!(matches!(s.resource_files().patterns, ResourcePatterns::Paths(p) if p.is_empty()));
}

#[test]
fn platform_settings_are_handed_back() {
    let s = settings("x86_64-unknown-linux-gnu", BundleSettings::default());
    assert!(s.deb().depends.is_none());
    assert!(s.macos().minimum_system_version.is_none());
    assert_eq!(s.windows().icon_path, "icons/icon.ico");
}

#[test]
fn publisher_defaults_to_identifier_second_element() {
    let bundle = BundleSettings { identifier: Some("com.tauri.app".into()), ..Default::default() };
    let s = settings("x86_64-pc-windows-msvc", bundle);
    assert_eq!(s.publisher(), Some("tauri"));
    let bundle = BundleSettings { identifier: Some("single".into()), ..Default::default() };
    assert_eq!(settings("x86_64-pc-windows-msvc", bundle).publisher(), None);
    let bundle = BundleSettings {
        identifier: Some("com.tauri.app".into()),
        publisher: Some("Tauri Programme".into()),
        ..Default::default()
    };
    assert_eq!(settings("x86_64-pc-windows-msvc", bundle).publisher(), Some("Tauri Programme"));
}

#[test]
fn resource_map_takes_precedence() {
    let mut map = HashMap::new();
    map.insert("assets/a.txt".to_string(), "data/a.txt".to_string());
    let bundle = BundleSettings {
        resources: Some(vec!["ignored/*".into()]),
        resources_map: Some(map),
        ..Default::default()
    };
    let s = settings("x86_64-unknown-linux-gnu", bundle);
    let sel = s.resource_files();
    assert!(sel.allow_walk);
    assert!(matches!(sel.patterns, ResourcePatterns::Mapped(m) if m.get("assets/a.txt").map(|v| v.as_str()) == Some("data/a.txt")));
}

#[test]
fn binary_path_after_trailing_separator() {
    let s = SettingsBuilder::new()
        .package_settings(package())
        .project_out_directory("target/release/")
        .target("x86_64-unknown-linux-gnu".into())
        .build(Err(Error::GenericError("unused".into())))
        .unwrap();
    assert_eq!(s.binary_path(&BundleBinary::new("demo".into(), true)), "target/release/demo");
}

#[test]
fn bundle_settings_clone_keeps_every_setting() {
    let mut files = HashMap::new();
    files.insert("/usr/share/demo".to_string(), "assets/demo".to_string());
    let mut b = BundleSettings {
        icon: Some(vec!["icon.png".into()]),
        resources: Some(vec!["assets/*".into()]),
        external_bin: Some(vec!["helper".into()]),
        updater: Some(UpdaterSettings { active: true, pubkey: "key".into(), ..Default::default() }),
        ..Default::default()
    };
    b.deb.files = files;
    b.macos.license = Some("LICENSE".into());
    b.windows.allow_downgrades = false;
    let c = b.clone();
    assert_eq!(c.icon, Some(vec!["icon.png".to_string()]));
    assert_eq!(c.resources, Some(vec!["assets/*".to_string()]));
    assert_eq!(c.external_bin, Some(vec!["helper".to_string()]));
    assert_eq!(c.updater.as_ref().unwrap().pubkey, "key");
    assert!(c.updater.unwrap().active);
    assert_eq!(c.deb.files.get("/usr/share/demo").map(|s| s.as_str()), Some("assets/demo"));
    assert_eq!(c.macos.license.as_deref(), Some("LICENSE"));
    assert!(!c.windows.allow_downgrades);
}

#[test]
fn host_os_fills_missing_os() {
    let bare = settings("x86_64", BundleSettings::default());
    let full = settings("x86_64-unknown-linux", BundleSettings::default());
    assert_eq!(bare.package_types("linux").unwrap(), full.package_types("linux").unwrap());
}

#[test]
fn missing_setting_names_the_first_missing_one() {
    assert_eq!(SettingsBuilder::new().missing_setting(), Some("package settings is required"));
    assert_eq!(
        SettingsBuilder::new().project_out_directory("out").missing_setting(),
        Some("package settings is required")
    );
    assert_eq!(
        SettingsBuilder::new().package_settings(package()).missing_setting(),
        Some("out directory is required")
    );
    assert_eq!(builder("x86_64-unknown-linux-gnu").missing_setting(), None);
}

#[test]
fn windows_clone_keeps_wix_and_nsis_settings() {
    let mut languages = WixLanguage::default();
    languages.0.push(("de-DE".to_string(), WixLanguageConfig { locale_path: Some("de.wxl".into()) }));
    let wix = WixSettings {
        language: languages,
        fragment_paths: vec!["fragments/a.wxs".into()],
        merge_refs: vec!["Merge1".into()],
        fips_compliant: true,
        banner_path: Some("banner.bmp".into()),
        ..Default::default()
    };
    let mut custom = HashMap::new();
    custom.insert("German".to_string(), "de.nsh".to_string());
    let nsis = NsisSettings {
        languages: Some(vec!["German".into()]),
        custom_language_files: Some(custom),
        install_mode: NSISInstallerMode::PerMachine,
        display_language_selector: true,
        ..Default::default()
    };
    let windows = WindowsSettings { wix: Some(wix), nsis: Some(nsis), ..Default::default() };
    let c = windows.clone();
    let w = c.wix.unwrap();
    assert!(w.fips_compliant);
    assert_eq!(w.fragment_paths, vec!["fragments/a.wxs".to_string()]);
    assert_eq!(w.merge_refs, vec!["Merge1".to_string()]);
    assert_eq!(w.banner_path.as_deref(), Some("banner.bmp"));
    assert_eq!(w.language.0.len(), 2);
    assert_eq!(w.language.0[1].0, "de-DE");
    assert_eq!(w.language.0[1].1.locale_path.as_deref(), Some("de.wxl"));
    let n = c.nsis.unwrap();
    assert_eq!(n.languages, Some(vec!["German".to_string()]));
    assert_eq!(n.custom_language_files.unwrap().get("German").map(|s| s.as_str()), Some("de.nsh"));
    assert_eq!(n.install_mode, NSISInstallerMode::PerMachine);
    assert!(n.display_language_selector);
}

#[test]
fn bundle_clone_keeps_nested_binary_settings() {
    let mut inner = BundleSettings { identifier: Some("com.demo.helper".into()), ..Default::default() };
    inner.windows.wix = Some(WixSettings { fips_compliant: true, ..Default::default() });
    let mut bin = HashMap::new();
    bin.insert("helper".to_string(), inner);
    let b = BundleSettings { bin: Some(bin), ..Default::default() };
    let c = b.clone();
    let helper = &c.bin.as_ref().unwrap()["helper"];
    assert_eq!(helper.identifier.as_deref(), Some("com.demo.helper"));
    assert!(helper.windows.wix.as_ref().unwrap().fips_compliant);
}

#[test]
fn binary_and_package_clones_keep_every_field() {
    let b = BundleBinary::new("app".to_string(), true).set_src_path(Some("src/main.rs".to_string()));
    let c = b.clone();
    assert_eq!(c.name(), "app");
    assert!(c.main());
    assert_eq!(c.src_path(), Some(&"src/main.rs".to_string()));
    let plain = BundleBinary::new("app".to_string(), true);
    assert_eq!(plain.clone().src_path(), None);
    let mut p = package();
    p.authors = Some(vec!["Ann".into()]);
    p.homepage = Some("https://example.com".into());
    let q = p.clone();
    assert_eq!(q.product_name, "Demo");
    assert_eq!(q.version, "1.2.3");
    assert_eq!(q.authors, Some(vec!["Ann".to_string()]));
    assert_eq!(q.homepage.as_deref(), Some("https://example.com"));
}

#[test]
fn settings_clone_keeps_every_field() {
    let bundle = BundleSettings { external_bin: Some(vec!["helper".into()]), ..Default::default() };
    let s = builder("x86_64-unknown-linux-gnu")
        .binaries(vec![BundleBinary::new("app".to_string(), true)])
        .package_types(vec![PackageType::Deb])
        .log_level(LogLevel::Info)
        .bundle_settings(bundle)
        .build(Err(Error::GenericError("no host".into())))
        .unwrap();
    let c = s.clone();
    assert_eq!(c.target(), "x86_64-unknown-linux-gnu");
    assert_eq!(c.log_level(), LogLevel::Info);
    assert_eq!(c.product_name(), "Demo");
    assert_eq!(c.binaries().len(), 1);
    assert_eq!(c.binaries()[0].name(), "app");
    assert_eq!(c.package_types("linux").unwrap(), vec![PackageType::Deb]);
    match c.external_binaries().patterns {
        ResourcePatterns::Paths(p) => assert_eq!(p, &["helper-x86_64-unknown-linux-gnu".to_string()][..]),
        ResourcePatterns::Mapped(_) => panic!("external binaries are listed as paths"),
    }
}
