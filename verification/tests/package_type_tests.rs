use tauri_bundler::package_type::{BundleType, PackageType};

const ALL_TYPES: [PackageType; 9] = [
    PackageType::MacOsBundle,
    PackageType::IosBundle,
    PackageType::WindowsMsi,
    PackageType::Nsis,
    PackageType::Deb,
    PackageType::Rpm,
    PackageType::AppImage,
    PackageType::Dmg,
    PackageType::Updater,
];

#[test]
fn from_short_name_reads_every_documented_name() {
    assert_eq!(PackageType::from_short_name("deb"), Some(PackageType::Deb));
    assert_eq!(PackageType::from_short_name("ios"), Some(PackageType::IosBundle));
    assert_eq!(PackageType::from_short_name("msi"), Some(PackageType::WindowsMsi));
    assert_eq!(PackageType::from_short_name("nsis"), Some(PackageType::Nsis));
    assert_eq!(PackageType::from_short_name("app"), Some(PackageType::MacOsBundle));
    assert_eq!(PackageType::from_short_name("rpm"), Some(PackageType::Rpm));
    assert_eq!(PackageType::from_short_name("appimage"), Some(PackageType::AppImage));
    assert_eq!(PackageType::from_short_name("dmg"), Some(PackageType::Dmg));
    assert_eq!(PackageType::from_short_name("updater"), Some(PackageType::Updater));
}

#[test]
fn from_short_name_rejects_other_names() {
    assert_eq!(PackageType::from_short_name(""), None);
    assert_eq!(PackageType::from_short_name("apk"), None);
    assert_eq!(PackageType::from_short_name("Deb"), None);
    assert_eq!(PackageType::from_short_name("deb "), None);
    assert_eq!(PackageType::from_short_name("appimag"), None);
}

#[test]
fn short_name_round_trip() {
    for t in ALL_TYPES {
        assert_eq!(PackageType::from_short_name(t.short_name()), Some(t));
    }
}

#[test]
fn short_names_are_the_documented_ones() {
    assert_eq!(PackageType::Deb.short_name(), "deb");
    assert_eq!(PackageType::IosBundle.short_name(), "ios");
    assert_eq!(PackageType::WindowsMsi.short_name(), "msi");
    assert_eq!(PackageType::Nsis.short_name(), "nsis");
    assert_eq!(PackageType::MacOsBundle.short_name(), "app");
    assert_eq!(PackageType::Rpm.short_name(), "rpm");
    assert_eq!(PackageType::AppImage.short_name(), "appimage");
    assert_eq!(PackageType::Dmg.short_name(), "dmg");
    assert_eq!(PackageType::Updater.short_name(), "updater");
}

#[test]
fn dependencies_are_built_first() {
    assert!(PackageType::MacOsBundle.priority() < PackageType::Dmg.priority());
    for t in ALL_TYPES {
        if t != PackageType::Updater {
            assert!(t.priority() < PackageType::Updater.priority());
        }
    }
    assert_eq!(PackageType::Deb.priority(), 0);
    assert_eq!(PackageType::Dmg.priority(), 1);
    assert_eq!(PackageType::Updater.priority(), 2);
}

#[test]
fn all_lists_the_types_of_each_os() {
    assert_eq!(
        PackageType::all("linux"),
        vec![PackageType::Deb, PackageType::Rpm, PackageType::AppImage, PackageType::Updater]
    );
    assert_eq!(
        PackageType::all("macos"),
        vec![PackageType::IosBundle, PackageType::MacOsBundle, PackageType::Dmg, PackageType::Updater]
    );
    assert_eq!(
        PackageType::all("windows"),
        vec![PackageType::WindowsMsi, PackageType::Nsis, PackageType::Updater]
    );
    assert_eq!(PackageType::all("freebsd"), vec![PackageType::Updater]);
}

#[test]
fn all_ends_with_the_updater() {
    for os in ["linux", "macos", "windows", "android", ""] {
        let types = PackageType::all(os);
        assert_eq!(types.last(), Some(&PackageType::Updater));
    }
}

#[test]
fn bundle_types_map_to_package_types() {
    assert_eq!(PackageType::from(BundleType::Deb), PackageType::Deb);
    assert_eq!(PackageType::from(BundleType::Rpm), PackageType::Rpm);
    assert_eq!(PackageType::from(BundleType::AppImage), PackageType::AppImage);
    assert_eq!(PackageType::from(BundleType::Msi), PackageType::WindowsMsi);
    assert_eq!(PackageType::from(BundleType::Nsis), PackageType::Nsis);
    assert_eq!(PackageType::from(BundleType::App), PackageType::MacOsBundle);
    assert_eq!(PackageType::from(BundleType::Dmg), PackageType::Dmg);
    assert_eq!(PackageType::from(BundleType::Updater), PackageType::Updater);
}

#[test]
fn bundle_type_conversion_is_injective() {
    let bundles = [
        BundleType::Deb,
        BundleType::Rpm,
        BundleType::AppImage,
        BundleType::Msi,
        BundleType::Nsis,
        BundleType::App,
        BundleType::Dmg,
        BundleType::Updater,
    ];
    for a in bundles {
        for b in bundles {
            assert_eq!(PackageType::from(a) == PackageType::from(b), a == b);
        }
    }
}
