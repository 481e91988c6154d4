//! The kinds of package the bundler produces, their short names, their build order,
//! and the kinds each operating system supports.

use vstd::prelude::*;

use crate::text::text_eq;

verus! {

/// The type of the package we're bundling.
#[derive(Clone, Copy, Debug, PartialEq, Eq, Structural, Hash)]
#[non_exhaustive]
pub enum PackageType {
    /// The macOS application bundle (.app).
    MacOsBundle,
    /// The iOS app bundle.
    IosBundle,
    /// The Windows bundle (.msi).
    WindowsMsi,
    /// The NSIS bundle (.exe).
    Nsis,
    /// The Linux Debian package bundle (.deb).
    Deb,
    /// The Linux RPM bundle (.rpm).
    Rpm,
    /// The Linux AppImage bundle (.AppImage).
    AppImage,
    /// The macOS DMG bundle (.dmg).
    Dmg,
    /// The Updater bundle.
    Updater,
}

/// The bundle formats that a project's configuration can name.
#[derive(Clone, Copy, Debug, PartialEq, Eq, Structural, Hash)]
pub enum BundleType {
    /// The debian bundle (.deb).
    Deb,
    /// The RPM bundle (.rpm).
    Rpm,
    /// The AppImage bundle (.appimage).
    AppImage,
    /// The Microsoft Installer bundle (.msi).
    Msi,
    /// The NSIS bundle (.exe).
    Nsis,
    /// The macOS application bundle (.app).
    App,
    /// The Apple Disk Image bundle (.dmg).
    Dmg,
    /// The updater bundle.
    Updater,
}

impl PackageType {
    /// The short name of a package type, as written on a command line.
    pub open spec fn short_name_of(self) -> Seq<char> {
        match self {
            PackageType::Deb => "deb"@,
            PackageType::IosBundle => "ios"@,
            PackageType::WindowsMsi => "msi"@,
            PackageType::Nsis => "nsis"@,
            PackageType::MacOsBundle => "app"@,
            PackageType::Rpm => "rpm"@,
            PackageType::AppImage => "appimage"@,
            PackageType::Dmg => "dmg"@,
            PackageType::Updater => "updater"@,
        }
    }

    /// The build priority of a package type: lower numbers are built first.
    pub open spec fn priority_of(self) -> u32 {
        match self {
            PackageType::Dmg => 1,
            PackageType::Updater => 2,
            _ => 0,
        }
    }
}

/// The package type whose short name is `name`, if any.
pub open spec fn package_type_named(name: Seq<char>) -> Option<PackageType> {
    if name == "deb"@ {
        Some(PackageType::Deb)
    } else if name == "ios"@ {
        Some(PackageType::IosBundle)
    } else if name == "msi"@ {
        Some(PackageType::WindowsMsi)
    } else if name == "nsis"@ {
        Some(PackageType::Nsis)
    } else if name == "app"@ {
        Some(PackageType::MacOsBundle)
    } else if name == "rpm"@ {
        Some(PackageType::Rpm)
    } else if name == "appimage"@ {
        Some(PackageType::AppImage)
    } else if name == "dmg"@ {
        Some(PackageType::Dmg)
    } else if name == "updater"@ {
        Some(PackageType::Updater)
    } else {
        None
    }
}

/// The package types that can be built on the operating system named `os`
/// (`"linux"`, `"macos"`, `"windows"`, ...), in their listing order.
pub open spec fn package_types_for_os(os: Seq<char>) -> Seq<PackageType> {
    if os == "linux"@ {
        seq![PackageType::Deb, PackageType::Rpm, PackageType::AppImage, PackageType::Updater]
    } else if os == "macos"@ {
        seq![PackageType::IosBundle, PackageType::MacOsBundle, PackageType::Dmg, PackageType::Updater]
    } else if os == "windows"@ {
        seq![PackageType::WindowsMsi, PackageType::Nsis, PackageType::Updater]
    } else {
        seq![PackageType::Updater]
    }
}

/// The package type that builds a bundle format.
pub open spec fn package_type_of_bundle(bundle: BundleType) -> PackageType {
    match bundle {
        BundleType::Deb => PackageType::Deb,
        BundleType::Rpm => PackageType::Rpm,
        BundleType::AppImage => PackageType::AppImage,
        BundleType::Msi => PackageType::WindowsMsi,
        BundleType::Nsis => PackageType::Nsis,
        BundleType::App => PackageType::MacOsBundle,
        BundleType::Dmg => PackageType::Dmg,
        BundleType::Updater => PackageType::Updater,
    }
}

impl From<BundleType> for PackageType {
    fn from(bundle: BundleType) -> (r: Self) {
        match bundle {
            BundleType::Deb => PackageType::Deb,
            BundleType::Rpm => PackageType::Rpm,
            BundleType::AppImage => PackageType::AppImage,
            BundleType::Msi => PackageType::WindowsMsi,
            BundleType::Nsis => PackageType::Nsis,
            BundleType::App => PackageType::MacOsBundle,
            BundleType::Dmg => PackageType::Dmg,
            BundleType::Updater => PackageType::Updater,
        }
    }
}

impl vstd::std_specs::convert::FromSpecImpl<BundleType> for PackageType {
    open spec fn obeys_from_spec() -> bool {
        true
    }

    open spec fn from_spec(v: BundleType) -> Self {
        package_type_of_bundle(v)
    }
}

impl PackageType {
    /// Maps a short name to a PackageType.
    /// Possible values are "deb", "ios", "msi", "nsis", "app", "rpm", "appimage", "dmg",
    /// "updater".
    pub fn from_short_name(name: &str) -> (r: Option<PackageType>)
        ensures
            r == package_type_named(name@),
    {
        if text_eq(name, "deb") {
            Some(PackageType::Deb)
        } else if text_eq(name, "ios") {
            Some(PackageType::IosBundle)
        } else if text_eq(name, "msi") {
            Some(PackageType::WindowsMsi)
        } else if text_eq(name, "nsis") {
            Some(PackageType::Nsis)
        } else if text_eq(name, "app") {
            Some(PackageType::MacOsBundle)
        } else if text_eq(name, "rpm") {
            Some(PackageType::Rpm)
        } else if text_eq(name, "appimage") {
            Some(PackageType::AppImage)
        } else if text_eq(name, "dmg") {
            Some(PackageType::Dmg)
        } else if text_eq(name, "updater") {
            Some(PackageType::Updater)
        } else {
            None
        }
    }

    /// Gets the short name of this PackageType.
    pub fn short_name(&self) -> (r: &'static str)
        ensures
            r@ == self.short_name_of(),
    {
        match *self {
            PackageType::Deb => "deb",
            PackageType::IosBundle => "ios",
            PackageType::WindowsMsi => "msi",
            PackageType::Nsis => "nsis",
            PackageType::MacOsBundle => "app",
            PackageType::Rpm => "rpm",
            PackageType::AppImage => "appimage",
            PackageType::Dmg => "dmg",
            PackageType::Updater => "updater",
        }
    }

    /// Gets the list of the package types that can be built on the operating system
    /// `target_os` (the name `std::env::consts::OS` gives it).
    pub fn all(target_os: &str) -> (r: Vec<PackageType>)
        ensures
            r@ == package_types_for_os(target_os@),
    {
        let mut types: Vec<PackageType> = Vec::new();
        if text_eq(target_os, "linux") {
            types.push(PackageType::Deb);
            types.push(PackageType::Rpm);
            types.push(PackageType::AppImage);
        } else if text_eq(target_os, "macos") {
            types.push(PackageType::IosBundle);
            types.push(PackageType::MacOsBundle);
            types.push(PackageType::Dmg);
        } else if text_eq(target_os, "windows") {
            types.push(PackageType::WindowsMsi);
            types.push(PackageType::Nsis);
        }
        types.push(PackageType::Updater);
        assert(types@ =~= package_types_for_os(target_os@));
        types
    }

    /// Gets a number representing priority which used to sort package types
    /// in an order that guarantees that if a certain package type
    /// depends on another (like Dmg depending on MacOsBundle), the dependency
    /// will be built first
    ///
    /// The lower the number, the higher the priority
    pub fn priority(&self) -> (r: u32)
        ensures
            r == self.priority_of(),
    {
        match self {
            PackageType::MacOsBundle => 0,
            PackageType::IosBundle => 0,
            PackageType::WindowsMsi => 0,
            PackageType::Nsis => 0,
            PackageType::Deb => 0,
            PackageType::Rpm => 0,
            PackageType::AppImage => 0,
            PackageType::Dmg => 1,
            PackageType::Updater => 2,
        }
    }
}

/// The short names of the package types are pairwise different.
proof fn lemma_short_names_distinct()
    ensures
        "deb"@ != "ios"@ && "deb"@ != "msi"@ && "deb"@ != "nsis"@ && "deb"@ != "app"@
            && "deb"@ != "rpm"@ && "deb"@ != "appimage"@ && "deb"@ != "dmg"@ && "deb"@
            != "updater"@,
        "ios"@ != "msi"@ && "ios"@ != "nsis"@ && "ios"@ != "app"@ && "ios"@ != "rpm"@
            && "ios"@ != "appimage"@ && "ios"@ != "dmg"@ && "ios"@ != "updater"@,
        "msi"@ != "nsis"@ && "msi"@ != "app"@ && "msi"@ != "rpm"@ && "msi"@ != "appimage"@
            && "msi"@ != "dmg"@ && "msi"@ != "updater"@,
        "nsis"@ != "app"@ && "nsis"@ != "rpm"@ && "nsis"@ != "appimage"@ && "nsis"@ != "dmg"@
            && "nsis"@ != "updater"@,
        "app"@ != "rpm"@ && "app"@ != "appimage"@ && "app"@ != "dmg"@ && "app"@ != "updater"@,
        "rpm"@ != "appimage"@ && "rpm"@ != "dmg"@ && "rpm"@ != "updater"@,
        "appimage"@ != "dmg"@ && "appimage"@ != "updater"@,
        "dmg"@ != "updater"@,
{
    reveal_strlit("deb");
    reveal_strlit("ios");
    reveal_strlit("msi");
    reveal_strlit("nsis");
    reveal_strlit("app");
    reveal_strlit("rpm");
    reveal_strlit("appimage");
    reveal_strlit("dmg");
    reveal_strlit("updater");
    assert("deb"@[0] != "ios"@[0]);
    assert("deb"@[0] != "msi"@[0]);
    assert("deb"@[0] != "nsis"@[0]);
    assert("deb"@[0] != "app"@[0]);
    assert("deb"@[0] != "rpm"@[0]);
    assert("deb"@[0] != "appimage"@[0]);
    assert("deb"@[1] != "dmg"@[1]);
    assert("deb"@[0] != "updater"@[0]);
    assert("ios"@[0] != "msi"@[0]);
    assert("ios"@[0] != "nsis"@[0]);
    assert("ios"@[0] != "app"@[0]);
    assert("ios"@[0] != "rpm"@[0]);
    assert("ios"@[0] != "appimage"@[0]);
    assert("ios"@[0] != "dmg"@[0]);
    assert("ios"@[0] != "updater"@[0]);
    assert("msi"@[0] != "nsis"@[0]);
    assert("msi"@[0] != "app"@[0]);
    assert("msi"@[0] != "rpm"@[0]);
    assert("msi"@[0] != "appimage"@[0]);
    assert("msi"@[0] != "dmg"@[0]);
    assert("msi"@[0] != "updater"@[0]);
    assert("nsis"@[0] != "app"@[0]);
    assert("nsis"@[0] != "rpm"@[0]);
    assert("nsis"@[0] != "appimage"@[0]);
    assert("nsis"@[0] != "dmg"@[0]);
    assert("nsis"@[0] != "updater"@[0]);
    assert("app"@[0] != "rpm"@[0]);
    assert("app"@.len() != "appimage"@.len());
    assert("app"@[0] != "dmg"@[0]);
    assert("app"@[0] != "updater"@[0]);
    assert("rpm"@[0] != "appimage"@[0]);
    assert("rpm"@[0] != "dmg"@[0]);
    assert("rpm"@[0] != "updater"@[0]);
    assert("appimage"@[0] != "dmg"@[0]);
    assert("appimage"@[0] != "updater"@[0]);
    assert("dmg"@[0] != "updater"@[0]);
}

/// Reading back the short name of any package type gives that package type.
pub proof fn lemma_short_name_round_trip(t: PackageType)
    ensures
        package_type_named(t.short_name_of()) == Some(t),
{
    lemma_short_names_distinct();
}

/// A short name that names a package type is that package type's short name.
pub proof fn lemma_named_type_has_that_short_name(name: Seq<char>, t: PackageType)
    requires
        package_type_named(name) == Some(t),
    ensures
        t.short_name_of() == name,
{
    lemma_short_names_distinct();
}

/// Package types are built after the package types they depend on: the DMG image after
/// the macOS application bundle it packs, and the updater bundle after every other one.
pub proof fn lemma_dependencies_built_first(t: PackageType)
    ensures
        PackageType::MacOsBundle.priority_of() < PackageType::Dmg.priority_of(),
        t != PackageType::Updater ==> t.priority_of() < PackageType::Updater.priority_of(),
{
}

/// Every operating system lists the updater bundle, last, and lists no package type twice.
pub proof fn lemma_all_lists_updater_last(os: Seq<char>)
    ensures
        package_types_for_os(os).len() > 0,
        package_types_for_os(os).last() == PackageType::Updater,
        package_types_for_os(os).no_duplicates(),
{
}

/// Different bundle formats are built by different package types.
pub proof fn lemma_bundle_conversion_injective(a: BundleType, b: BundleType)
    ensures
        package_type_of_bundle(a) == package_type_of_bundle(b) ==> a == b,
{
}

} // verus!
