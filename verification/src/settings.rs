//! The settings of a bundling run: the package, the per-platform bundle settings, the
//! binaries to bundle, and the rules that derive the bundler's choices from them.

use std::collections::HashMap;

use vstd::prelude::*;

use crate::category::AppCategory;
use crate::error::Error;
use crate::package_type::PackageType;
use crate::platform::{LogLevel, NSISInstallerMode, NsisCompression, WebviewInstallMode};
use crate::text::{
    contains_text, has_prefix, join_texts, join_with, lemma_replace_after_unmatched,
    lemma_split_after_separator, lemma_split_without_separator,
    lemma_replace_without_match, occurs_at, opt_text, replace_all, replace_text, split_fields,
    split_text, starts_with_char, starts_with_text, str_views, text_eq, views_of,
};

verus! {

/// The package settings.
#[derive(Debug)]
pub struct PackageSettings {
    /// the package's product name.
    pub product_name: String,
    /// the package's version.
    pub version: String,
    /// the package's description.
    pub description: String,
    /// the package's homepage.
    pub homepage: Option<String>,
    /// the package's authors.
    pub authors: Option<Vec<String>>,
    /// the default binary to run.
    pub default_run: Option<String>,
}

/// The updater settings.
#[derive(Debug, Default)]
pub struct UpdaterSettings {
    /// Whether the updater is active or not.
    pub active: bool,
    /// The updater endpoints.
    pub endpoints: Option<Vec<String>>,
    /// Signature public key.
    pub pubkey: String,
    /// Display built-in dialog or use event system if disabled.
    pub dialog: bool,
    /// Args to pass to `msiexec.exe` to run the updater on Windows.
    pub msiexec_args: Option<&'static [&'static str]>,
}

/// The Linux debian bundle settings.
#[derive(Debug)]
pub struct DebianSettings {
    /// the list of debian dependencies.
    pub depends: Option<Vec<String>>,
    /// List of custom files to add to the deb package.
    /// Maps the path on the debian package to the path of the file to include (relative to
    /// the current working directory).
    pub files: HashMap<String, String>,
    /// Path to a custom desktop file Handlebars template.
    pub desktop_template: Option<String>,
}

/// The macOS bundle settings.
#[derive(Debug)]
pub struct MacOsSettings {
    /// MacOS frameworks that need to be bundled with the app: names of frameworks, or paths
    /// to framework bundles.
    pub frameworks: Option<Vec<String>>,
    /// A version string indicating the minimum MacOS version that the bundled app supports.
    pub minimum_system_version: Option<String>,
    /// The path to the LICENSE file for macOS apps.
    pub license: Option<String>,
    /// The exception domain to use on the macOS .app bundle.
    pub exception_domain: Option<String>,
    /// Code signing identity.
    pub signing_identity: Option<String>,
    /// Provider short name for notarization.
    pub provider_short_name: Option<String>,
    /// Path to the entitlements.plist file.
    pub entitlements: Option<String>,
    /// Path to the Info.plist file for the bundle.
    pub info_plist_path: Option<String>,
}

/// Configuration for a target language for the WiX build.
#[derive(Debug, Default)]
pub struct WixLanguageConfig {
    /// The path to a locale (`.wxl`) file.
    pub locale_path: Option<String>,
}

/// The languages to build using WiX.
#[derive(Debug)]
pub struct WixLanguage(pub Vec<(String, WixLanguageConfig)>);

/// Settings specific to the WiX implementation.
#[derive(Debug, Default)]
pub struct WixSettings {
    /// The app languages to build.
    pub language: WixLanguage,
    /// A custom wix file to use in place of the internal template.
    pub template: Option<String>,
    /// A list of paths to .wxs files with WiX fragments to use.
    pub fragment_paths: Vec<String>,
    /// The ComponentGroup element ids you want to reference from the fragments.
    pub component_group_refs: Vec<String>,
    /// The Component element ids you want to reference from the fragments.
    pub component_refs: Vec<String>,
    /// The FeatureGroup element ids you want to reference from the fragments.
    pub feature_group_refs: Vec<String>,
    /// The Feature element ids you want to reference from the fragments.
    pub feature_refs: Vec<String>,
    /// The Merge element ids you want to reference from the fragments.
    pub merge_refs: Vec<String>,
    /// Disables the Webview2 runtime installation after app install.
    pub skip_webview_install: bool,
    /// The path to the LICENSE file.
    pub license: Option<String>,
    /// Create an elevated update task within Windows Task Scheduler.
    pub enable_elevated_update_task: bool,
    /// Path to a bitmap file to use as the installation user interface banner.
    pub banner_path: Option<String>,
    /// Path to a bitmap file to use on the installation user interface dialogs.
    pub dialog_image_path: Option<String>,
    /// Enables FIPS compliant algorithms.
    pub fips_compliant: bool,
}

/// Settings specific to the NSIS implementation.
#[derive(Debug, Default)]
pub struct NsisSettings {
    /// A custom .nsi template to use.
    pub template: Option<String>,
    /// The path to the license file to render on the installer.
    pub license: Option<String>,
    /// The path to a bitmap file to display on the header of installers pages.
    pub header_image: Option<String>,
    /// The path to a bitmap file for the Welcome page and the Finish page.
    pub sidebar_image: Option<String>,
    /// The path to an icon file used as the installer icon.
    pub installer_icon: Option<String>,
    /// Whether the installation will be for all users or just the current user.
    pub install_mode: NSISInstallerMode,
    /// A list of installer languages.
    pub languages: Option<Vec<String>>,
    /// Maps a language to the path of a custom `.nsi` file with the translated texts.
    pub custom_language_files: Option<HashMap<String, String>>,
    /// Whether to display a language selector dialog before the installer and uninstaller
    /// windows are rendered or not.
    pub display_language_selector: bool,
    /// Set compression algorithm used to compress files in the installer.
    pub compression: Option<NsisCompression>,
}

/// The Windows bundle settings.
#[derive(Debug)]
pub struct WindowsSettings {
    /// The file digest algorithm to use for creating file signatures.
    pub digest_algorithm: Option<String>,
    /// The SHA1 hash of the signing certificate.
    pub certificate_thumbprint: Option<String>,
    /// Server to use during timestamping.
    pub timestamp_url: Option<String>,
    /// Whether to use Time-Stamp Protocol (TSP, a.k.a. RFC 3161) for the timestamp server.
    pub tsp: bool,
    /// WiX configuration.
    pub wix: Option<WixSettings>,
    /// Nsis configuration.
    pub nsis: Option<NsisSettings>,
    /// The path to the application icon. Defaults to `./icons/icon.ico`.
    pub icon_path: String,
    /// The installation mode for the Webview2 runtime.
    pub webview_install_mode: WebviewInstallMode,
    /// Path to the webview fixed runtime to use.
    pub webview_fixed_runtime_path: Option<String>,
    /// Validates a second app installation, blocking the user from installing an older
    /// version if set to `false`. Defaults to `true`.
    pub allow_downgrades: bool,
}

/// The bundle settings of the BuildArtifact we're bundling.
#[derive(Debug)]
pub struct BundleSettings {
    /// the app's identifier.
    pub identifier: Option<String>,
    /// The app's publisher. Defaults to the second element in the identifier string.
    pub publisher: Option<String>,
    /// the app's icon list.
    pub icon: Option<Vec<String>>,
    /// the app's resources to bundle: paths to files or folders, or glob patterns.
    pub resources: Option<Vec<String>>,
    /// The app's resources to bundle, each mapped to its target directory in the bundle
    /// resources directory. Takes precedence over `Self::resources` when specified.
    pub resources_map: Option<HashMap<String, String>>,
    /// the app's copyright.
    pub copyright: Option<String>,
    /// the app's category.
    pub category: Option<AppCategory>,
    /// the app's short description.
    pub short_description: Option<String>,
    /// the app's long description.
    pub long_description: Option<String>,
    /// Configuration map for the apps to bundle.
    pub bin: Option<HashMap<String, BundleSettings>>,
    /// External binaries to add to the bundle; each name gets the target triple appended
    /// when the settings are built.
    pub external_bin: Option<Vec<String>>,
    /// Debian-specific settings.
    pub deb: DebianSettings,
    /// MacOS-specific settings.
    pub macos: MacOsSettings,
    /// Updater configuration.
    pub updater: Option<UpdaterSettings>,
    /// Windows-specific settings.
    pub windows: WindowsSettings,
}

impl DebianSettings {
    /// No dependency, no file and no template.
    pub open spec fn is_empty(self) -> bool {
        &&& self.depends is None
        &&& self.files@ == Map::<String, String>::empty()
        &&& self.desktop_template is None
    }
}

impl MacOsSettings {
    /// No macOS option set.
    pub open spec fn is_empty(self) -> bool {
        &&& self.frameworks is None
        &&& self.minimum_system_version is None
        &&& self.license is None
        &&& self.exception_domain is None
        &&& self.signing_identity is None
        &&& self.provider_short_name is None
        &&& self.entitlements is None
        &&& self.info_plist_path is None
    }
}

impl WixLanguage {
    /// The single language `en-US`, with no locale file.
    pub open spec fn is_default(self) -> bool {
        &&& self.0@.len() == 1
        &&& self.0@[0].0@ == "en-US"@
        &&& self.0@[0].1.locale_path is None
    }
}

impl WindowsSettings {
    /// The Windows settings used when a project gives none.
    pub open spec fn is_default(self) -> bool {
        &&& self.digest_algorithm is None
        &&& self.certificate_thumbprint is None
        &&& self.timestamp_url is None
        &&& !self.tsp
        &&& self.wix is None
        &&& self.nsis is None
        &&& self.icon_path@ == "icons/icon.ico"@
        &&& self.webview_install_mode == (WebviewInstallMode::DownloadBootstrapper {
            silent: true,
        })
        &&& self.webview_fixed_runtime_path is None
        &&& self.allow_downgrades
    }
}

impl BundleSettings {
    /// The bundle settings used when a project gives none.
    pub open spec fn is_default(self) -> bool {
        &&& self.identifier is None
        &&& self.publisher is None
        &&& self.icon is None
        &&& self.resources is None
        &&& self.resources_map is None
        &&& self.copyright is None
        &&& self.category is None
        &&& self.short_description is None
        &&& self.long_description is None
        &&& self.bin is None
        &&& self.external_bin is None
        &&& self.deb.is_empty()
        &&& self.macos.is_empty()
        &&& self.updater is None
        &&& self.windows.is_default()
    }
}

impl Default for DebianSettings {
    fn default() -> (r: Self)
        ensures
            r.is_empty(),
    {
        DebianSettings { depends: None, files: HashMap::new(), desktop_template: None }
    }
}

impl Default for MacOsSettings {
    fn default() -> (r: Self)
        ensures
            r.is_empty(),
    {
        MacOsSettings {
            frameworks: None,
            minimum_system_version: None,
            license: None,
            exception_domain: None,
            signing_identity: None,
            provider_short_name: None,
            entitlements: None,
            info_plist_path: None,
        }
    }
}

impl Default for WixLanguage {
    fn default() -> (r: Self)
        ensures
            r.is_default(),
    {
        let mut languages: Vec<(String, WixLanguageConfig)> = Vec::new();
        languages.push(("en-US".to_owned(), WixLanguageConfig { locale_path: None }));
        WixLanguage(languages)
    }
}

impl Default for WindowsSettings {
    fn default() -> (r: Self)
        ensures
            r.is_default(),
    {
        WindowsSettings {
            digest_algorithm: None,
            certificate_thumbprint: None,
            timestamp_url: None,
            tsp: false,
            wix: None,
            nsis: None,
            icon_path: "icons/icon.ico".to_owned(),
            webview_install_mode: WebviewInstallMode::default(),
            webview_fixed_runtime_path: None,
            allow_downgrades: true,
        }
    }
}

impl Default for BundleSettings {
    fn default() -> (r: Self)
        ensures
            r.is_default(),
    {
        BundleSettings {
            identifier: None,
            publisher: None,
            icon: None,
            resources: None,
            resources_map: None,
            copyright: None,
            category: None,
            short_description: None,
            long_description: None,
            bin: None,
            external_bin: None,
            deb: DebianSettings::default(),
            macos: MacOsSettings::default(),
            updater: None,
            windows: WindowsSettings::default(),
        }
    }
}

/// The views of the texts of an optional list.
pub open spec fn list_view(o: Option<Vec<String>>) -> Option<Seq<Seq<char>>> {
    match o {
        Some(v) => Some(views_of(v@)),
        None => None,
    }
}

/// The contents of an optional map of texts.
pub open spec fn text_map_view(o: Option<HashMap<String, String>>) -> Option<Map<String, String>> {
    match o {
        Some(m) => Some(m@),
        None => None,
    }
}

/// A copy of an optional list of texts.
fn copy_list(o: &Option<Vec<String>>) -> (r: Option<Vec<String>>)
    ensures
        list_view(r) == list_view(*o),
{
    match o {
        None => None,
        Some(v) => {
            let mut out: Vec<String> = Vec::new();
            let mut i: usize = 0;
            while i < v.len()
                invariant
                    i <= v.len(),
                    views_of(out@) == views_of(v@.take(i as int)),
                decreases v.len() - i,
            {
                let c = v[i].clone();
                let ghost before = out@;
                out.push(c);
                assert(v@.take(i + 1) =~= v@.take(i as int).push(v@[i as int]));
                assert(views_of(out@) =~= views_of(before).push(c@));
                assert(views_of(v@.take(i + 1)) =~= views_of(v@.take(i as int)).push(
                    v@[i as int]@,
                ));
                i = i + 1;
            }
            assert(v@.take(v.len() as int) =~= v@);
            Some(out)
        },
    }
}

/// A copy of an optional map from texts to texts.
fn copy_opt_text_map(o: &Option<HashMap<String, String>>) -> (r: Option<HashMap<String, String>>)
    ensures
        text_map_view(r) == text_map_view(*o),
{
    match o {
        Some(m) => Some(m.clone()),
        None => None,
    }
}

impl PackageSettings {
    /// `self` holds the same settings as `other`.
    pub open spec fn agrees_with(self, other: PackageSettings) -> bool {
        &&& self.product_name == other.product_name
        &&& self.version == other.version
        &&& self.description == other.description
        &&& self.homepage == other.homepage
        &&& list_view(self.authors) == list_view(other.authors)
        &&& self.default_run == other.default_run
    }
}

impl Clone for PackageSettings {
    fn clone(&self) -> (r: Self)
        ensures
            r.agrees_with(*self),
    {
        PackageSettings {
            product_name: self.product_name.clone(),
            version: self.version.clone(),
            description: self.description.clone(),
            homepage: self.homepage.clone(),
            authors: copy_list(&self.authors),
            default_run: self.default_run.clone(),
        }
    }
}

impl UpdaterSettings {
    /// `self` holds the same settings as `other`.
    pub open spec fn agrees_with(self, other: UpdaterSettings) -> bool {
        &&& self.active == other.active
        &&& list_view(self.endpoints) == list_view(other.endpoints)
        &&& self.pubkey@ == other.pubkey@
        &&& self.dialog == other.dialog
        &&& self.msiexec_args == other.msiexec_args
    }
}

impl DebianSettings {
    /// `self` holds the same settings as `other`.
    pub open spec fn agrees_with(self, other: DebianSettings) -> bool {
        &&& list_view(self.depends) == list_view(other.depends)
        &&& self.files@ == other.files@
        &&& self.desktop_template == other.desktop_template
    }
}

impl MacOsSettings {
    /// `self` holds the same settings as `other`.
    pub open spec fn agrees_with(self, other: MacOsSettings) -> bool {
        &&& list_view(self.frameworks) == list_view(other.frameworks)
        &&& self.minimum_system_version == other.minimum_system_version
        &&& self.license == other.license
        &&& self.exception_domain == other.exception_domain
        &&& self.signing_identity == other.signing_identity
        &&& self.provider_short_name == other.provider_short_name
        &&& self.entitlements == other.entitlements
        &&& self.info_plist_path == other.info_plist_path
    }
}

impl WixSettings {
    /// `self` holds the same settings as `other`.
    pub open spec fn agrees_with(self, other: WixSettings) -> bool {
        &&& self.language.0@ == other.language.0@
        &&& self.template == other.template
        &&& self.fragment_paths@ == other.fragment_paths@
        &&& self.component_group_refs@ == other.component_group_refs@
        &&& self.component_refs@ == other.component_refs@
        &&& self.feature_group_refs@ == other.feature_group_refs@
        &&& self.feature_refs@ == other.feature_refs@
        &&& self.merge_refs@ == other.merge_refs@
        &&& self.skip_webview_install == other.skip_webview_install
        &&& self.license == other.license
        &&& self.enable_elevated_update_task == other.enable_elevated_update_task
        &&& self.banner_path == other.banner_path
        &&& self.dialog_image_path == other.dialog_image_path
        &&& self.fips_compliant == other.fips_compliant
    }
}

impl NsisSettings {
    /// `self` holds the same settings as `other`.
    pub open spec fn agrees_with(self, other: NsisSettings) -> bool {
        &&& self.template == other.template
        &&& self.license == other.license
        &&& self.header_image == other.header_image
        &&& self.sidebar_image == other.sidebar_image
        &&& self.installer_icon == other.installer_icon
        &&& self.install_mode == other.install_mode
        &&& list_view(self.languages) == list_view(other.languages)
        &&& text_map_view(self.custom_language_files) == text_map_view(
            other.custom_language_files,
        )
        &&& self.display_language_selector == other.display_language_selector
        &&& self.compression == other.compression
    }
}

impl WindowsSettings {
    /// `self` holds the same settings as `other`, its WiX and NSIS settings included.
    pub open spec fn agrees_with(self, other: WindowsSettings) -> bool {
        &&& self.digest_algorithm == other.digest_algorithm
        &&& self.certificate_thumbprint == other.certificate_thumbprint
        &&& self.timestamp_url == other.timestamp_url
        &&& self.tsp == other.tsp
        &&& (self.wix is Some <==> other.wix is Some)
        &&& (self.wix matches Some(w) ==> w.agrees_with(other.wix->0))
        &&& (self.nsis is Some <==> other.nsis is Some)
        &&& (self.nsis matches Some(n) ==> n.agrees_with(other.nsis->0))
        &&& self.icon_path == other.icon_path
        &&& self.webview_install_mode == other.webview_install_mode
        &&& self.webview_fixed_runtime_path == other.webview_fixed_runtime_path
        &&& self.allow_downgrades == other.allow_downgrades
    }
}

impl Clone for UpdaterSettings {
    fn clone(&self) -> (r: Self)
        ensures
            r.agrees_with(*self),
    {
        UpdaterSettings {
            active: self.active,
            endpoints: copy_list(&self.endpoints),
            pubkey: self.pubkey.clone(),
            dialog: self.dialog,
            msiexec_args: self.msiexec_args,
        }
    }
}

impl Clone for DebianSettings {
    fn clone(&self) -> (r: Self)
        ensures
            r.agrees_with(*self),
    {
        DebianSettings {
            depends: copy_list(&self.depends),
            files: self.files.clone(),
            desktop_template: self.desktop_template.clone(),
        }
    }
}

impl Clone for MacOsSettings {
    fn clone(&self) -> (r: Self)
        ensures
            r.agrees_with(*self),
    {
        MacOsSettings {
            frameworks: copy_list(&self.frameworks),
            minimum_system_version: self.minimum_system_version.clone(),
            license: self.license.clone(),
            exception_domain: self.exception_domain.clone(),
            signing_identity: self.signing_identity.clone(),
            provider_short_name: self.provider_short_name.clone(),
            entitlements: self.entitlements.clone(),
            info_plist_path: self.info_plist_path.clone(),
        }
    }
}

impl Clone for WixLanguageConfig {
    fn clone(&self) -> (r: Self)
        ensures
            r == *self,
    {
        WixLanguageConfig { locale_path: self.locale_path.clone() }
    }
}

impl Clone for WixLanguage {
    fn clone(&self) -> (r: Self)
        ensures
            r.0@ == self.0@,
    {
        let mut out: Vec<(String, WixLanguageConfig)> = Vec::new();
        let mut i: usize = 0;
        while i < self.0.len()
            invariant
                i <= self.0.len(),
                out@ == self.0@.take(i as int),
            decreases self.0.len() - i,
        {
            let entry = &self.0[i];
            out.push((entry.0.clone(), entry.1.clone()));
            assert(self.0@.take(i + 1) =~= self.0@.take(i as int).push(self.0@[i as int]));
            i = i + 1;
        }
        assert(self.0@.take(self.0.len() as int) =~= self.0@);
        WixLanguage(out)
    }
}

/// A copy of a list of texts.
fn copy_texts(v: &Vec<String>) -> (r: Vec<String>)
    ensures
        r@ == v@,
{
    let r = v.clone();
    assert(r@ =~= v@);
    r
}

impl Clone for WixSettings {
    fn clone(&self) -> (r: Self)
        ensures
            r.agrees_with(*self),
    {
        WixSettings {
            language: self.language.clone(),
            template: self.template.clone(),
            fragment_paths: copy_texts(&self.fragment_paths),
            component_group_refs: copy_texts(&self.component_group_refs),
            component_refs: copy_texts(&self.component_refs),
            feature_group_refs: copy_texts(&self.feature_group_refs),
            feature_refs: copy_texts(&self.feature_refs),
            merge_refs: copy_texts(&self.merge_refs),
            skip_webview_install: self.skip_webview_install,
            license: self.license.clone(),
            enable_elevated_update_task: self.enable_elevated_update_task,
            banner_path: self.banner_path.clone(),
            dialog_image_path: self.dialog_image_path.clone(),
            fips_compliant: self.fips_compliant,
        }
    }
}

impl Clone for NsisSettings {
    fn clone(&self) -> (r: Self)
        ensures
            r.agrees_with(*self),
    {
        NsisSettings {
            template: self.template.clone(),
            license: self.license.clone(),
            header_image: self.header_image.clone(),
            sidebar_image: self.sidebar_image.clone(),
            installer_icon: self.installer_icon.clone(),
            install_mode: self.install_mode,
            languages: copy_list(&self.languages),
            custom_language_files: copy_opt_text_map(&self.custom_language_files),
            display_language_selector: self.display_language_selector,
            compression: self.compression,
        }
    }
}

impl Clone for WindowsSettings {
    fn clone(&self) -> (r: Self)
        ensures
            r.agrees_with(*self),
    {
        WindowsSettings {
            digest_algorithm: self.digest_algorithm.clone(),
            certificate_thumbprint: self.certificate_thumbprint.clone(),
            timestamp_url: self.timestamp_url.clone(),
            tsp: self.tsp,
            wix: match &self.wix {
                Some(w) => Some(w.clone()),
                None => None,
            },
            nsis: match &self.nsis {
                Some(n) => Some(n.clone()),
                None => None,
            },
            icon_path: self.icon_path.clone(),
            webview_install_mode: self.webview_install_mode.clone(),
            webview_fixed_runtime_path: self.webview_fixed_runtime_path.clone(),
            allow_downgrades: self.allow_downgrades,
        }
    }
}

impl BundleSettings {
    /// `self` holds the same settings as `other` down to `depth` levels of per-binary
    /// settings: the same settings of its own, the same binary names, and, while `depth` is
    /// positive, settings for each binary that agree with `other`'s down to `depth - 1`
    /// levels.
    pub open spec fn agrees_to_depth(self, other: BundleSettings, depth: nat) -> bool
        decreases depth,
    {
        &&& self.identifier == other.identifier
        &&& self.publisher == other.publisher
        &&& list_view(self.icon) == list_view(other.icon)
        &&& list_view(self.resources) == list_view(other.resources)
        &&& text_map_view(self.resources_map) == text_map_view(other.resources_map)
        &&& self.copyright == other.copyright
        &&& self.category == other.category
        &&& self.short_description == other.short_description
        &&& self.long_description == other.long_description
        &&& (self.bin is Some <==> other.bin is Some)
        &&& (self.bin matches Some(m) ==> m@.dom() == other.bin->0@.dom())
        &&& (depth > 0 && self.bin is Some) ==> forall|k: String|
            #[trigger] self.bin->0@.dom().contains(k) ==> self.bin->0@[k].agrees_to_depth(
                other.bin->0@[k],
                (depth - 1) as nat,
            )
        &&& list_view(self.external_bin) == list_view(other.external_bin)
        &&& self.deb.agrees_with(other.deb)
        &&& self.macos.agrees_with(other.macos)
        &&& (self.updater is Some <==> other.updater is Some)
        &&& (self.updater matches Some(u) ==> u.agrees_with(other.updater->0))
        &&& self.windows.agrees_with(other.windows)
    }

    /// `self` holds the same settings as `other`, at every level of per-binary settings.
    pub open spec fn agrees_with(self, other: BundleSettings) -> bool {
        forall|depth: nat| #[trigger] self.agrees_to_depth(other, depth)
    }
}

/// Trusted: the standard library's `Clone` of the map of per-binary bundle settings. Its
/// source copies every entry, cloning the key (a `String`, copied exactly) and the value
/// with `BundleSettings::clone`, whose verified contract gives a copy that agrees with its
/// source at every level; the contract states that the copy is present exactly when the
/// source map is, has the same keys, and holds for each key settings that agree with the
/// source's.
#[verifier::external_body]
fn clone_per_binary_settings(bin: &Option<HashMap<String, BundleSettings>>) -> (r: Option<
    HashMap<String, BundleSettings>,
>)
    ensures
        r is Some <==> bin is Some,
        r matches Some(m) ==> m@.dom() == bin->0@.dom(),
        r matches Some(m) ==> forall|k: String|
            #[trigger] m@.dom().contains(k) ==> m@[k].agrees_with(bin->0@[k]),
{
    bin.clone()
}

impl Clone for BundleSettings {
    fn clone(&self) -> (r: Self)
        ensures
            r.agrees_with(*self),
    {
        let r = BundleSettings {
            identifier: self.identifier.clone(),
            publisher: self.publisher.clone(),
            icon: copy_list(&self.icon),
            resources: copy_list(&self.resources),
            resources_map: copy_opt_text_map(&self.resources_map),
            copyright: self.copyright.clone(),
            category: self.category,
            short_description: self.short_description.clone(),
            long_description: self.long_description.clone(),
            bin: clone_per_binary_settings(&self.bin),
            external_bin: copy_list(&self.external_bin),
            deb: self.deb.clone(),
            macos: self.macos.clone(),
            updater: match &self.updater {
                Some(u) => Some(u.clone()),
                None => None,
            },
            windows: self.windows.clone(),
        };
        assert forall|depth: nat| #[trigger] r.agrees_to_depth(*self, depth) by {
            if depth > 0 && r.bin is Some {
                assert forall|k: String| #[trigger]
                    r.bin->0@.dom().contains(k) implies r.bin->0@[k].agrees_to_depth(
                    self.bin->0@[k],
                    (depth - 1) as nat,
                ) by {
                    assert(r.bin->0@[k].agrees_with(self.bin->0@[k]));
                }
            }
        }
        r
    }
}


/// A binary to bundle.
#[derive(Debug)]
pub struct BundleBinary {
    name: String,
    src_path: Option<String>,
    main: bool,
}

/// The contents of a [`BundleBinary`].
pub struct BundleBinaryView {
    pub name: Seq<char>,
    pub src_path: Option<Seq<char>>,
    pub main: bool,
}

impl View for BundleBinary {
    type V = BundleBinaryView;

    closed spec fn view(&self) -> BundleBinaryView {
        BundleBinaryView { name: self.name@, src_path: opt_text(self.src_path), main: self.main }
    }
}

impl Clone for BundleBinary {
    fn clone(&self) -> (r: Self)
        ensures
            r == *self,
    {
        BundleBinary { name: self.name.clone(), src_path: self.src_path.clone(), main: self.main }
    }
}

impl BundleBinary {
    /// Creates a new bundle binary.
    pub fn new(name: String, main: bool) -> (r: Self)
        ensures
            r@ == (BundleBinaryView { name: name@, src_path: None, main }),
    {
        Self { name, src_path: None, main }
    }

    /// Sets the src path of the binary.
    #[must_use]
    pub fn set_src_path(self, src_path: Option<String>) -> (r: Self)
        ensures
            r@ == (BundleBinaryView { src_path: opt_text(src_path), ..self@ }),
    {
        let mut this = self;
        this.src_path = src_path;
        this
    }

    /// Mark the binary as the main executable.
    pub fn set_main(&mut self, main: bool)
        ensures
            final(self)@ == (BundleBinaryView { main, ..old(self)@ }),
    {
        self.main = main;
    }

    /// Sets the binary name.
    pub fn set_name(&mut self, name: String)
        ensures
            final(self)@ == (BundleBinaryView { name: name@, ..old(self)@ }),
    {
        self.name = name;
    }

    /// Returns the binary name.
    pub fn name(&self) -> (r: &str)
        ensures
            r@ == self@.name,
    {
        self.name.as_str()
    }

    /// Returns the binary `main` flag.
    pub fn main(&self) -> (r: bool)
        ensures
            r == self@.main,
    {
        self.main
    }

    /// Returns the binary source path.
    pub fn src_path(&self) -> (r: Option<&String>)
        ensures
            match r {
                Some(p) => self@.src_path == Some(p@),
                None => self@.src_path is None,
            },
    {
        self.src_path.as_ref()
    }
}


/// The name under which an external binary `bin` is looked up for `target`: the target
/// triple appended after a dash, and `.exe` after that for Windows targets.
pub open spec fn binary_name_for_target(bin: Seq<char>, target: Seq<char>) -> Seq<char> {
    bin + "-"@ + target + if contains_text(target, "windows"@) {
        ".exe"@
    } else {
        Seq::<char>::empty()
    }
}

/// Trusted: `tauri_utils::resources::external_binaries`. Its source formats each name as
/// `"{name}-{target}{ext}"`, where `ext` is `".exe"` when the target contains `"windows"`
/// and empty otherwise, keeping the order of the names; the contract states that.
#[verifier::external_body]
fn external_binaries_for_target(bins: &Vec<String>, target: &str) -> (r: Vec<String>)
    ensures
        views_of(r@) == bins@.map_values(|b: String| binary_name_for_target(b@, target@)),
{
    tauri_utils::resources::external_binaries(bins, target)
}

/// `name` is a plain file name: not empty, not `.` or `..`, and without a path
/// separator (`/`, `\`) or a drive separator (`:`).
pub open spec fn is_plain_file_name(name: Seq<char>) -> bool {
    &&& name.len() > 0
    &&& name != seq!['.']
    &&& name != seq!['.', '.']
    &&& !name.contains('/')
    &&& !name.contains('\\')
    &&& !name.contains(':')
}

/// `base` is a non-empty path that ends inside a file or directory name: its last
/// character is no separator, and it holds no `?` (of a verbatim path prefix).
pub open spec fn ends_in_name(base: Seq<char>) -> bool {
    &&& base.len() > 0
    &&& base.last() != '/'
    &&& base.last() != '\\'
    &&& base.last() != ':'
    &&& !base.contains('?')
}

/// `base` is a non-empty path that ends with a `/` separator and holds no `?` (of a
/// verbatim path prefix).
pub open spec fn ends_in_slash(base: Seq<char>) -> bool {
    &&& base.len() > 0
    &&& base.last() == '/'
    &&& !base.contains('?')
}

/// Trusted: `std::path::PathBuf::push` of the standard library, pushing `name` onto the
/// path `base`. Its documentation shows a relative path extended by the pushed one, after
/// a separator unless the path already ends with one (`/` is a separator on every
/// platform). The contract states that much for a plain file name, leaving open which
/// separator is added (`/`, or `\` on Windows); of other inputs, where the platform's
/// path rules decide, nothing is stated.
#[verifier::external_body]
fn path_pushed(base: &String, name: &str) -> (r: String)
    ensures
        is_plain_file_name(name@) && ends_in_name(base@) ==> (r@ == base@ + seq!['/'] + name@
            || r@ == base@ + seq!['\\'] + name@),
        is_plain_file_name(name@) && ends_in_slash(base@) ==> r@ == base@ + name@,
{
    let mut path = std::path::PathBuf::from(base);
    path.push(name);
    path.to_string_lossy().into_owned()
}

/// The Settings exposed by the module.
#[derive(Debug)]
pub struct Settings {
    /// The log level.
    log_level: LogLevel,
    /// the package settings.
    package: PackageSettings,
    /// the package types we're bundling.
    ///
    /// if not present, we'll use the PackageType list for the target OS.
    package_types: Option<Vec<PackageType>>,
    /// the directory where the bundles will be placed.
    project_out_directory: String,
    /// the bundle settings.
    bundle_settings: BundleSettings,
    /// the binaries to bundle.
    binaries: Vec<BundleBinary>,
    /// The target triple.
    target: String,
}

/// The contents of [`Settings`].
pub struct SettingsView {
    pub log_level: LogLevel,
    pub package: PackageSettings,
    pub package_types: Option<Seq<PackageType>>,
    pub project_out_directory: Seq<char>,
    pub bundle_settings: BundleSettings,
    pub binaries: Seq<BundleBinary>,
    pub target: Seq<char>,
}

impl View for Settings {
    type V = SettingsView;

    closed spec fn view(&self) -> SettingsView {
        SettingsView {
            log_level: self.log_level,
            package: self.package,
            package_types: match self.package_types {
                Some(v) => Some(v@),
                None => None,
            },
            project_out_directory: self.project_out_directory@,
            bundle_settings: self.bundle_settings,
            binaries: self.binaries@,
            target: self.target@,
        }
    }
}

impl Clone for Settings {
    fn clone(&self) -> (r: Self)
        ensures
            r@.log_level == self@.log_level,
            r@.package.agrees_with(self@.package),
            r@.package_types == self@.package_types,
            r@.project_out_directory == self@.project_out_directory,
            r@.bundle_settings.agrees_with(self@.bundle_settings),
            r@.binaries == self@.binaries,
            r@.target == self@.target,
    {
        let binaries = self.binaries.clone();
        assert(binaries@ =~= self.binaries@);
        let package_types = match &self.package_types {
            Some(v) => {
                let c = v.clone();
                assert(c@ =~= v@);
                Some(c)
            },
            None => None,
        };
        Settings {
            log_level: self.log_level,
            package: self.package.clone(),
            package_types,
            project_out_directory: self.project_out_directory.clone(),
            bundle_settings: self.bundle_settings.clone(),
            binaries,
            target: self.target.clone(),
        }
    }
}

/// A builder for [`Settings`].
#[derive(Default)]
pub struct SettingsBuilder {
    log_level: Option<LogLevel>,
    project_out_directory: Option<String>,
    package_types: Option<Vec<PackageType>>,
    package_settings: Option<PackageSettings>,
    bundle_settings: BundleSettings,
    binaries: Vec<BundleBinary>,
    target: Option<String>,
}

/// The contents of a [`SettingsBuilder`].
pub struct SettingsBuilderView {
    pub log_level: Option<LogLevel>,
    pub project_out_directory: Option<Seq<char>>,
    pub package_types: Option<Seq<PackageType>>,
    pub package_settings: Option<PackageSettings>,
    pub bundle_settings: BundleSettings,
    pub binaries: Seq<BundleBinary>,
    pub target: Option<Seq<char>>,
}

impl View for SettingsBuilder {
    type V = SettingsBuilderView;

    closed spec fn view(&self) -> SettingsBuilderView {
        SettingsBuilderView {
            log_level: self.log_level,
            project_out_directory: opt_text(self.project_out_directory),
            package_types: match self.package_types {
                Some(v) => Some(v@),
                None => None,
            },
            package_settings: self.package_settings,
            bundle_settings: self.bundle_settings,
            binaries: self.binaries@,
            target: opt_text(self.target),
        }
    }
}

impl SettingsBuilderView {
    /// The builder holds what building needs once the target triple is known.
    pub open spec fn is_complete(self) -> bool {
        self.package_settings is Some && self.project_out_directory is Some
    }

    /// `s` holds what this builder holds, built for the target triple `target`: the log
    /// level defaults to `Error`, and each external binary's name gets the target appended.
    pub open spec fn builds(self, target: Seq<char>, s: SettingsView) -> bool {
        &&& s.log_level == match self.log_level {
            Some(l) => l,
            None => LogLevel::Error,
        }
        &&& Some(s.package) == self.package_settings
        &&& s.package_types == self.package_types
        &&& Some(s.project_out_directory) == self.project_out_directory
        &&& s.binaries == self.binaries
        &&& s.target == target
        &&& s.bundle_settings == (BundleSettings {
            external_bin: s.bundle_settings.external_bin,
            ..self.bundle_settings
        })
        &&& match self.bundle_settings.external_bin {
            Some(bins) => s.bundle_settings.external_bin matches Some(named) && views_of(named@)
                == bins@.map_values(|b: String| binary_name_for_target(b@, target)),
            None => s.bundle_settings.external_bin is None,
        }
    }
}

impl SettingsBuilder {
    /// Creates the default settings builder.
    pub fn new() -> (r: Self)
        ensures
            r@.log_level is None,
            r@.project_out_directory is None,
            r@.package_types is None,
            r@.package_settings is None,
            r@.bundle_settings.is_default(),
            r@.binaries.len() == 0,
            r@.target is None,
    {
        SettingsBuilder {
            log_level: None,
            project_out_directory: None,
            package_types: None,
            package_settings: None,
            bundle_settings: BundleSettings::default(),
            binaries: Vec::new(),
            target: None,
        }
    }

    /// Sets the project output directory. It's used as current working directory.
    #[must_use]
    pub fn project_out_directory(self, path: &str) -> (r: Self)
        ensures
            r@ == (SettingsBuilderView { project_out_directory: Some(path@), ..self@ }),
    {
        let mut this = self;
        this.project_out_directory = Some(path.to_owned());
        this
    }

    /// Sets the package types to create.
    #[must_use]
    pub fn package_types(self, package_types: Vec<PackageType>) -> (r: Self)
        ensures
            r@ == (SettingsBuilderView { package_types: Some(package_types@), ..self@ }),
    {
        let mut this = self;
        this.package_types = Some(package_types);
        this
    }

    /// Sets the package settings.
    #[must_use]
    pub fn package_settings(self, settings: PackageSettings) -> (r: Self)
        ensures
            r@ == (SettingsBuilderView { package_settings: Some(settings), ..self@ }),
    {
        let mut this = self;
        this.package_settings = Some(settings);
        this
    }

    /// Sets the bundle settings.
    #[must_use]
    pub fn bundle_settings(self, settings: BundleSettings) -> (r: Self)
        ensures
            r@ == (SettingsBuilderView { bundle_settings: settings, ..self@ }),
    {
        let mut this = self;
        this.bundle_settings = settings;
        this
    }

    /// Sets the binaries to bundle.
    #[must_use]
    pub fn binaries(self, binaries: Vec<BundleBinary>) -> (r: Self)
        ensures
            r@ == (SettingsBuilderView { binaries: binaries@, ..self@ }),
    {
        let mut this = self;
        this.binaries = binaries;
        this
    }

    /// Sets the target triple.
    #[must_use]
    pub fn target(self, target: String) -> (r: Self)
        ensures
            r@ == (SettingsBuilderView { target: Some(target@), ..self@ }),
    {
        let mut this = self;
        this.target = Some(target);
        this
    }

    /// Sets the log level for spawned commands. Defaults to [`LogLevel::Error`].
    #[must_use]
    pub fn log_level(self, level: LogLevel) -> (r: Self)
        ensures
            r@ == (SettingsBuilderView { log_level: Some(level), ..self@ }),
    {
        let mut this = self;
        this.log_level = Some(level);
        this
    }

    /// The message of the first setting that building needs and that is missing: the
    /// package settings, then the output directory.
    pub fn missing_setting(&self) -> (r: Option<&'static str>)
        ensures
            self@.package_settings is None ==> (r matches Some(m) && m@
                == "package settings is required"@),
            self@.package_settings is Some && self@.project_out_directory is None ==> (
            r matches Some(m) && m@ == "out directory is required"@),
            self@.is_complete() ==> r is None,
    {
        if self.package_settings.is_none() {
            Some("package settings is required")
        } else if self.project_out_directory.is_none() {
            Some("out directory is required")
        } else {
            None
        }
    }

    /// Whether a target triple was set.
    pub fn has_target(&self) -> (r: bool)
        ensures
            r == self@.target is Some,
    {
        self.target.is_some()
    }

    /// Builds a Settings from the builder.
    ///
    /// The target triple is the one set on the builder; without one, `host_target`, the
    /// host's triple or the error met in finding it, decides. The package settings and the
    /// output directory must have been set by then.
    pub fn build(self, host_target: Result<String, Error>) -> (r: Result<Settings, Error>)
        requires
            (self@.target is Some || host_target is Ok) ==> self@.is_complete(),
        ensures
            match self@.target {
                Some(t) => r matches Ok(s) && self@.builds(t, s@),
                None => match host_target {
                    Ok(t) => r matches Ok(s) && self@.builds(t@, s@),
                    Err(e) => r matches Err(f) && f == e,
                },
            },
    {
        let ghost old_view = self@;
        let SettingsBuilder {
            log_level,
            project_out_directory,
            package_types,
            package_settings,
            bundle_settings,
            binaries,
            target,
        } = self;
        let target: String = match target {
            Some(t) => t,
            None => match host_target {
                Ok(t) => t,
                Err(e) => {
                    return Err(e);
                },
            },
        };
        let external_bin = match &bundle_settings.external_bin {
            Some(bins) => Some(external_binaries_for_target(bins, target.as_str())),
            None => None,
        };
        let mut bundle_settings = bundle_settings;
        bundle_settings.external_bin = external_bin;
        let log_level = match log_level {
            Some(level) => level,
            None => LogLevel::Error,
        };
        let settings = Settings {
            log_level,
            package: package_settings.expect("package settings is required"),
            package_types,
            project_out_directory: project_out_directory.expect("out directory is required"),
            binaries,
            bundle_settings,
            target,
        };
        assert(old_view.builds(settings@.target, settings@));
        Ok(settings)
    }
}


/// The name of the operating system a target triple builds for: the third dash-separated
/// field of the triple, or `host_os` when the triple has fewer fields, with `darwin` read
/// as `macos`.
pub open spec fn target_os_of(target: Seq<char>, host_os: Seq<char>) -> Seq<char> {
    let fields = split_fields(target, '-');
    replace_all(
        if fields.len() > 2 {
            fields[2]
        } else {
            host_os
        },
        "darwin"@,
        "macos"@,
    )
}

/// The package types native to an operating system, if the bundler supports it.
pub open spec fn native_package_types(os: Seq<char>) -> Option<Seq<PackageType>> {
    if os == "macos"@ {
        Some(seq![PackageType::MacOsBundle, PackageType::Dmg])
    } else if os == "ios"@ {
        Some(seq![PackageType::IosBundle])
    } else if os == "linux"@ {
        Some(seq![PackageType::Deb, PackageType::AppImage])
    } else if os == "windows"@ {
        Some(seq![PackageType::WindowsMsi, PackageType::Nsis])
    } else {
        None
    }
}

/// The message given when no package type is native to `os`.
pub open spec fn unsupported_os_message(os: Seq<char>) -> Seq<char> {
    "Native "@ + os + " bundles not yet supported."@
}

/// The package types that the settings select among the `platform` ones: the requested
/// types, in the requested order, that the platform supports; all of the platform's types
/// when none were requested.
pub open spec fn selected_package_types(
    requested: Option<Seq<PackageType>>,
    platform: Seq<PackageType>,
) -> Seq<PackageType> {
    match requested {
        Some(req) => req.filter(|t: PackageType| platform.contains(t)),
        None => platform,
    }
}

/// Where the resources, icons or external binaries of a bundle are listed.
pub enum ResourcePatterns<'a> {
    /// A list of paths or glob patterns.
    Paths(&'a [String]),
    /// Paths or glob patterns, each mapped to its target directory.
    Mapped(&'a HashMap<String, String>),
}

/// The resource patterns to walk for a bundle, and whether directories may be walked.
pub struct ResourceSelection<'a> {
    pub patterns: ResourcePatterns<'a>,
    pub allow_walk: bool,
}

impl<'a> ResourceSelection<'a> {
    /// The selection lists the paths `paths`, with `allow_walk`.
    pub open spec fn lists(self, paths: Seq<String>, allow_walk: bool) -> bool {
        &&& self.patterns matches ResourcePatterns::Paths(p) && p@ == paths
        &&& self.allow_walk == allow_walk
    }
}

/// The empty list of patterns.
fn no_patterns() -> (r: &'static [String])
    ensures
        r@ == Seq::<String>::empty(),
{
    let empty: &'static [String] = &[];
    assert(empty@ =~= Seq::<String>::empty());
    empty
}

/// The list in `o`, or the empty list.
pub open spec fn listed(o: Option<Vec<String>>) -> Seq<String> {
    match o {
        Some(v) => v@,
        None => Seq::<String>::empty(),
    }
}

/// The publisher of a bundle: the one set, or else the second element of the
/// dot-separated identifier, when the identifier has one.
pub open spec fn publisher_of(b: BundleSettings) -> Option<Seq<char>> {
    match b.publisher {
        Some(p) => Some(p@),
        None => match b.identifier {
            Some(id) => if split_fields(id@, '.').len() > 1 {
                Some(split_fields(id@, '.')[1])
            } else {
                None
            },
            None => None,
        },
    }
}

/// The architecture name of a target triple, when the bundler knows it.
pub open spec fn arch_of(target: Seq<char>) -> Option<Seq<char>> {
    if has_prefix(target, "x86_64"@) {
        Some("x86_64"@)
    } else if target.len() > 0 && target[0] == 'i' {
        Some("x86"@)
    } else if has_prefix(target, "arm"@) {
        Some("arm"@)
    } else if has_prefix(target, "aarch64"@) {
        Some("aarch64"@)
    } else if has_prefix(target, "universal"@) {
        Some("universal"@)
    } else {
        None
    }
}

impl SettingsView {
    /// Whether the updater is configured and active.
    pub open spec fn update_enabled(self) -> bool {
        match self.bundle_settings.updater {
            Some(u) => u.active,
            None => false,
        }
    }

    /// The package types these settings bundle when the host runs `host_os`, or the
    /// message of the error met.
    pub open spec fn package_types_on(self, host_os: Seq<char>) -> Result<
        Seq<PackageType>,
        Seq<char>,
    > {
        let os = target_os_of(self.target, host_os);
        match native_package_types(os) {
            Some(native) => Ok(
                selected_package_types(
                    self.package_types,
                    if self.update_enabled() {
                        native.push(PackageType::Updater)
                    } else {
                        native
                    },
                ),
            ),
            None => Err(unsupported_os_message(os)),
        }
    }

    /// Some binary is marked as the main executable.
    pub open spec fn has_main_binary(self) -> bool {
        exists|i: int| 0 <= i < self.binaries.len() && self.binaries[i]@.main
    }

    /// `i` is the index of the first binary marked as the main executable.
    pub open spec fn is_first_main(self, i: int) -> bool {
        &&& 0 <= i < self.binaries.len()
        &&& self.binaries[i]@.main
        &&& forall|j: int| 0 <= j < i ==> !self.binaries[j]@.main
    }

    /// The authors of the package, or none.
    pub open spec fn author_list(self) -> Seq<String> {
        listed(self.package.authors)
    }
}

impl Settings {
    /// Sets the log level for spawned commands.
    pub fn set_log_level(&mut self, level: LogLevel)
        ensures
            final(self)@ == (SettingsView { log_level: level, ..old(self)@ }),
    {
        self.log_level = level;
    }

    /// Returns the log level for spawned commands.
    pub fn log_level(&self) -> (r: LogLevel)
        ensures
            r == self@.log_level,
    {
        self.log_level
    }

    /// Returns the directory where the bundle should be placed.
    pub fn project_out_directory(&self) -> (r: &str)
        ensures
            r@ == self@.project_out_directory,
    {
        self.project_out_directory.as_str()
    }

    /// Returns the target triple.
    pub fn target(&self) -> (r: &str)
        ensures
            r@ == self@.target,
    {
        self.target.as_str()
    }

    /// Returns the architecture for the binary being bundled (e.g. "arm", "x86" or
    /// "x86_64").
    pub fn binary_arch(&self) -> (r: &'static str)
        requires
            arch_of(self@.target) is Some,
        ensures
            Some(r@) == arch_of(self@.target),
    {
        let target = self.target.as_str();
        if starts_with_text(target, "x86_64") {
            "x86_64"
        } else if starts_with_char(target, 'i') {
            "x86"
        } else if starts_with_text(target, "arm") {
            "arm"
        } else if starts_with_text(target, "aarch64") {
            "aarch64"
        } else {
            "universal"
        }
    }

    /// Returns the file name of the binary being bundled.
    pub fn main_binary_name(&self) -> (r: &str)
        requires
            self@.has_main_binary(),
        ensures
            exists|i: int| self@.is_first_main(i) && r@ == self@.binaries[i]@.name,
    {
        let mut i: usize = 0;
        while i < self.binaries.len()
            invariant
                i <= self.binaries.len(),
                self@.has_main_binary(),
                forall|j: int| 0 <= j < i ==> !self@.binaries[j]@.main,
            decreases self.binaries.len() - i,
        {
            if self.binaries[i].main() {
                assert(self@.is_first_main(i as int));
                return self.binaries[i].name();
            }
            i = i + 1;
        }
        assert(false);
        self.binaries[0].name()
    }

    /// Returns the path to the specified binary: the output directory, a path separator
    /// unless the directory ends with one, and the binary's name, when that name is a
    /// plain file name.
    pub fn binary_path(&self, binary: &BundleBinary) -> (r: String)
        ensures
            is_plain_file_name(binary@.name) && ends_in_name(self@.project_out_directory) ==> (r@
                == self@.project_out_directory + seq!['/'] + binary@.name || r@
                == self@.project_out_directory + seq!['\\'] + binary@.name),
            is_plain_file_name(binary@.name) && ends_in_slash(self@.project_out_directory) ==> r@
                == self@.project_out_directory + binary@.name,
    {
        path_pushed(&self.project_out_directory, binary.name())
    }

    /// Returns the list of binaries to bundle.
    pub fn binaries(&self) -> (r: &Vec<BundleBinary>)
        ensures
            r@ == self@.binaries,
    {
        &self.binaries
    }

    /// If a list of package types was specified, returns that list filtered by the
    /// package types native to the target OS; otherwise returns the native package
    /// type(s). The target OS is the one of the target triple, or `host_os` (the name
    /// `std::env::consts::OS` gives the host) when the triple does not name one. The
    /// updater bundle counts as native when the updater is active.
    ///
    /// Fails if the target's native package type is not supported.
    pub fn package_types(&self, host_os: &str) -> (r: Result<Vec<PackageType>, Error>)
        ensures
            match r {
                Ok(v) => self@.package_types_on(host_os@) == Ok::<Seq<PackageType>, Seq<char>>(
                    v@,
                ),
                Err(Error::GenericError(m)) => self@.package_types_on(host_os@) == Err::<
                    Seq<PackageType>,
                    Seq<char>,
                >(m@),
            },
    {
        let fields = split_text(self.target.as_str(), '-');
        let os_name: &str = if fields.len() > 2 {
            fields[2]
        } else {
            host_os
        };
        proof {
            reveal_strlit("darwin");
        }
        let target_os = replace_text(os_name, "darwin", "macos");
        let mut platform_types: Vec<PackageType> = Vec::new();
        if text_eq(target_os.as_str(), "macos") {
            platform_types.push(PackageType::MacOsBundle);
            platform_types.push(PackageType::Dmg);
        } else if text_eq(target_os.as_str(), "ios") {
            platform_types.push(PackageType::IosBundle);
        } else if text_eq(target_os.as_str(), "linux") {
            platform_types.push(PackageType::Deb);
            platform_types.push(PackageType::AppImage);
        } else if text_eq(target_os.as_str(), "windows") {
            platform_types.push(PackageType::WindowsMsi);
            platform_types.push(PackageType::Nsis);
        } else {
            let mut message = "Native ".to_owned();
            message.append(target_os.as_str());
            message.append(" bundles not yet supported.");
            return Err(Error::GenericError(message));
        }
        if self.is_update_enabled() {
            platform_types.push(PackageType::Updater);
        }
        assert(Some(platform_types@) =~= (if self@.update_enabled() {
            Some(
                native_package_types(target_os_of(self@.target, host_os@))->0.push(
                    PackageType::Updater,
                ),
            )
        } else {
            native_package_types(target_os_of(self@.target, host_os@))
        }));
        match &self.package_types {
            Some(requested) => {
                let ghost platform = platform_types@;
                let ghost supported = |t: PackageType| platform.contains(t);
                let mut types: Vec<PackageType> = Vec::new();
                let mut i: usize = 0;
                while i < requested.len()
                    invariant
                        i <= requested.len(),
                        platform == platform_types@,
                        supported == (|t: PackageType| platform.contains(t)),
                        types@ == requested@.take(i as int).filter(supported),
                    decreases requested.len() - i,
                {
                    let t = requested[i];
                    let mut found = false;
                    let mut j: usize = 0;
                    while j < platform_types.len()
                        invariant
                            j <= platform_types.len(),
                            platform == platform_types@,
                            found <==> exists|k: int| 0 <= k < j && platform[k] == t,
                        decreases platform_types.len() - j,
                    {
                        if platform_types[j] == t {
                            found = true;
                        }
                        j = j + 1;
                    }
                    assert(found <==> platform.contains(t));
                    proof {
                        requested@.take(i as int).lemma_filter_push(t, supported);
                        assert(requested@.take(i + 1) =~= requested@.take(i as int).push(t));
                    }
                    if found {
                        types.push(t);
                    }
                    i = i + 1;
                }
                assert(requested@.take(requested.len() as int) =~= requested@);
                Ok(types)
            },
            None => Ok(platform_types),
        }
    }

    /// Returns the product name.
    pub fn product_name(&self) -> (r: &str)
        ensures
            r@ == self@.package.product_name@,
    {
        self.package.product_name.as_str()
    }

    /// Returns the bundle's identifier, or `""` when none is set.
    pub fn bundle_identifier(&self) -> (r: &str)
        ensures
            r@ == match self@.bundle_settings.identifier {
                Some(id) => id@,
                None => ""@,
            },
    {
        match &self.bundle_settings.identifier {
            Some(id) => id.as_str(),
            None => "",
        }
    }

    /// Returns the bundle's publisher: the one set, or else the second element of the
    /// dot-separated identifier, when the identifier has one.
    pub fn publisher(&self) -> (r: Option<&str>)
        ensures
            match r {
                Some(p) => publisher_of(self@.bundle_settings) == Some(p@),
                None => publisher_of(self@.bundle_settings) is None,
            },
    {
        match &self.bundle_settings.publisher {
            Some(p) => Some(p.as_str()),
            None => match &self.bundle_settings.identifier {
                Some(id) => {
                    let fields = split_text(id.as_str(), '.');
                    if fields.len() > 1 {
                        assert(str_views(fields@)[1] == fields@[1]@);
                        Some(fields[1])
                    } else {
                        None
                    }
                },
                None => None,
            },
        }
    }

    /// Returns the icon files to be used for this bundle; directories are not walked.
    pub fn icon_files(&self) -> (r: ResourceSelection<'_>)
        ensures
            r.lists(listed(self@.bundle_settings.icon), false),
    {
        match &self.bundle_settings.icon {
            Some(paths) => ResourceSelection {
                patterns: ResourcePatterns::Paths(paths.as_slice()),
                allow_walk: false,
            },
            None => ResourceSelection { patterns: ResourcePatterns::Paths(no_patterns()), allow_walk: false },
        }
    }

    /// Returns the resource files to be included in this bundle, walking directories: the
    /// resource map when one is set (it takes precedence over the resource list), else
    /// the resource list.
    pub fn resource_files(&self) -> (r: ResourceSelection<'_>)
        ensures
            r.allow_walk,
            match self@.bundle_settings.resources_map {
                Some(map) => r.patterns matches ResourcePatterns::Mapped(m) && *m == map,
                None => r.lists(listed(self@.bundle_settings.resources), true),
            },
    {
        match (&self.bundle_settings.resources, &self.bundle_settings.resources_map) {
            (_, Some(map)) => ResourceSelection {
                patterns: ResourcePatterns::Mapped(map),
                allow_walk: true,
            },
            (Some(paths), None) => ResourceSelection {
                patterns: ResourcePatterns::Paths(paths.as_slice()),
                allow_walk: true,
            },
            (None, None) => ResourceSelection {
                patterns: ResourcePatterns::Paths(no_patterns()),
                allow_walk: true,
            },
        }
    }

    /// Returns the external binaries to be included in this bundle, walking directories.
    pub fn external_binaries(&self) -> (r: ResourceSelection<'_>)
        ensures
            r.lists(listed(self@.bundle_settings.external_bin), true),
    {
        match &self.bundle_settings.external_bin {
            Some(paths) => ResourceSelection {
                patterns: ResourcePatterns::Paths(paths.as_slice()),
                allow_walk: true,
            },
            None => ResourceSelection { patterns: ResourcePatterns::Paths(no_patterns()), allow_walk: true },
        }
    }

    /// The file name under which an external binary named `file_name` is copied into the
    /// bundle: the name with every `-{target}` taken out.
    pub fn external_binary_copy_name(&self, file_name: &str) -> (r: String)
        ensures
            r@ == replace_all(file_name@, "-"@ + self@.target, Seq::<char>::empty()),
    {
        let mut suffix = "-".to_owned();
        suffix.append(self.target.as_str());
        proof {
            reveal_strlit("-");
            reveal_strlit("");
            assert(""@ =~= Seq::<char>::empty());
        }
        replace_text(file_name, suffix.as_str(), "")
    }

    /// Returns the version string of the bundle.
    pub fn version_string(&self) -> (r: &str)
        ensures
            r@ == self@.package.version@,
    {
        self.package.version.as_str()
    }

    /// Returns the copyright text.
    pub fn copyright_string(&self) -> (r: Option<&str>)
        ensures
            match r {
                Some(c) => opt_text(self@.bundle_settings.copyright) == Some(c@),
                None => self@.bundle_settings.copyright is None,
            },
    {
        match &self.bundle_settings.copyright {
            Some(c) => Some(c.as_str()),
            None => None,
        }
    }

    /// Returns the list of authors name.
    pub fn author_names(&self) -> (r: &[String])
        ensures
            r@ == self@.author_list(),
    {
        match &self.package.authors {
            Some(names) => names.as_slice(),
            None => &[],
        }
    }

    /// Returns the authors as a comma-separated string, or `None` when there are none.
    pub fn authors_comma_separated(&self) -> (r: Option<String>)
        ensures
            match r {
                Some(s) => self@.author_list().len() > 0 && s@ == join_with(
                    views_of(self@.author_list()),
                    ", "@,
                ),
                None => self@.author_list().len() == 0,
            },
    {
        let names = self.author_names();
        if names.len() == 0 {
            None
        } else {
            Some(join_texts(names, ", "))
        }
    }

    /// Returns the package's homepage URL, defaulting to "" if not defined.
    pub fn homepage_url(&self) -> (r: &str)
        ensures
            r@ == match self@.package.homepage {
                Some(h) => h@,
                None => ""@,
            },
    {
        match &self.package.homepage {
            Some(h) => h.as_str(),
            None => "",
        }
    }

    /// Returns the app's category.
    pub fn app_category(&self) -> (r: Option<AppCategory>)
        ensures
            r == self@.bundle_settings.category,
    {
        self.bundle_settings.category
    }

    /// Returns the app's short description, falling back to the package's description.
    pub fn short_description(&self) -> (r: &str)
        ensures
            r@ == match self@.bundle_settings.short_description {
                Some(d) => d@,
                None => self@.package.description@,
            },
    {
        match &self.bundle_settings.short_description {
            Some(d) => d.as_str(),
            None => self.package.description.as_str(),
        }
    }

    /// Returns the app's long description.
    pub fn long_description(&self) -> (r: Option<&str>)
        ensures
            match r {
                Some(d) => opt_text(self@.bundle_settings.long_description) == Some(d@),
                None => self@.bundle_settings.long_description is None,
            },
    {
        match &self.bundle_settings.long_description {
            Some(d) => Some(d.as_str()),
            None => None,
        }
    }

    /// Returns the debian settings.
    pub fn deb(&self) -> (r: &DebianSettings)
        ensures
            *r == self@.bundle_settings.deb,
    {
        &self.bundle_settings.deb
    }

    /// Returns the MacOS settings.
    pub fn macos(&self) -> (r: &MacOsSettings)
        ensures
            *r == self@.bundle_settings.macos,
    {
        &self.bundle_settings.macos
    }

    /// Returns the Windows settings.
    pub fn windows(&self) -> (r: &WindowsSettings)
        ensures
            *r == self@.bundle_settings.windows,
    {
        &self.bundle_settings.windows
    }

    /// Returns the Updater settings.
    pub fn updater(&self) -> (r: Option<&UpdaterSettings>)
        ensures
            match r {
                Some(u) => self@.bundle_settings.updater == Some(*u),
                None => self@.bundle_settings.updater is None,
            },
    {
        self.bundle_settings.updater.as_ref()
    }

    /// Is update enabled
    pub fn is_update_enabled(&self) -> (r: bool)
        ensures
            r == self@.update_enabled(),
    {
        match &self.bundle_settings.updater {
            Some(val) => val.active,
            None => false,
        }
    }
}


/// The package types bundled for a supported target OS are native to it, the updater
/// bundle counting as native exactly when the updater is active. When a list was requested,
/// every bundled type is a requested one, and every requested native type is bundled;
/// otherwise all native types are bundled. An unsupported OS gives an error.
pub proof fn lemma_package_types_are_native(s: SettingsView, host_os: Seq<char>)
    ensures
        ({
            let os = target_os_of(s.target, host_os);
            let native = native_package_types(os);
            let platform = if s.update_enabled() {
                native->0.push(PackageType::Updater)
            } else {
                native->0
            };
            &&& native is None <==> s.package_types_on(host_os) is Err
            &&& s.package_types_on(host_os) matches Ok(v) ==> {
                &&& forall|i: int| 0 <= i < v.len() ==> #[trigger] platform.contains(v[i])
                &&& forall|i: int|
                    0 <= i < v.len() && v[i] == PackageType::Updater ==> s.update_enabled()
                &&& s.package_types matches Some(req) ==> {
                    &&& forall|i: int| 0 <= i < v.len() ==> req.contains(#[trigger] v[i])
                    &&& forall|j: int|
                        0 <= j < req.len() && platform.contains(req[j]) ==> v.contains(
                            #[trigger] req[j],
                        )
                }
                &&& s.package_types is None ==> v == platform
            }
        }),
{
    broadcast use vstd::seq_lib::group_filter_ensures;

    let os = target_os_of(s.target, host_os);
    let native = native_package_types(os);
    if native is Some {
        let platform = if s.update_enabled() {
            native->0.push(PackageType::Updater)
        } else {
            native->0
        };
        assert(!native->0.contains(PackageType::Updater)) by {
            if native->0.contains(PackageType::Updater) {
                let k = choose|k: int| 0 <= k < native->0.len() && native->0[k] == PackageType::Updater;
            }
        }
        assert forall|t: PackageType| platform.contains(t) && t == PackageType::Updater implies s.update_enabled() by {
            if !s.update_enabled() {
                assert(platform == native->0);
            }
        }
        if let Some(req) = s.package_types {
            let pred = |t: PackageType| platform.contains(t);
            let v = req.filter(pred);
            assert forall|i: int| 0 <= i < v.len() implies req.contains(#[trigger] v[i]) by {
                req.lemma_filter_contains_rev(pred, v[i]);
            }
        }
    }
}

/// Without a log level set, the built settings use `Error`.
pub proof fn lemma_log_level_defaults_to_error(
    b: SettingsBuilderView,
    target: Seq<char>,
    s: SettingsView,
)
    requires
        b.builds(target, s),
        b.log_level is None,
    ensures
        s.log_level == LogLevel::Error,
{
}

/// What was set on the builder is what the built settings give back, the target triple
/// being the builder's when one was set.
pub proof fn lemma_build_gives_back_what_was_set(
    b: SettingsBuilderView,
    target: Seq<char>,
    s: SettingsView,
)
    requires
        b.builds(target, s),
    ensures
        b.log_level matches Some(l) ==> s.log_level == l,
        b.package_settings == Some(s.package),
        b.package_types == s.package_types,
        b.project_out_directory == Some(s.project_out_directory),
        b.binaries == s.binaries,
        s.target == target,
        s.bundle_settings.identifier == b.bundle_settings.identifier,
        s.bundle_settings.updater == b.bundle_settings.updater,
        s.bundle_settings.windows == b.bundle_settings.windows,
{
}

/// Every external binary of the built settings carries the target triple after a dash,
/// and `.exe` after that for Windows targets.
pub proof fn lemma_external_binaries_carry_target(
    b: SettingsBuilderView,
    target: Seq<char>,
    s: SettingsView,
)
    requires
        b.builds(target, s),
    ensures
        s.bundle_settings.external_bin is Some <==> b.bundle_settings.external_bin is Some,
        s.bundle_settings.external_bin matches Some(named) ==> {
            &&& named@.len() == b.bundle_settings.external_bin->0@.len()
            &&& forall|i: int|
                0 <= i < named@.len() ==> #[trigger] named@[i]@ == b.bundle_settings.external_bin->0@[i]@
                    + "-"@ + target + if contains_text(target, "windows"@) {
                    ".exe"@
                } else {
                    Seq::<char>::empty()
                }
        },
{
    if let Some(named) = s.bundle_settings.external_bin {
        let bins = b.bundle_settings.external_bin->0;
        assert(views_of(named@).len() == named@.len());
        assert forall|i: int| 0 <= i < named@.len() implies #[trigger] named@[i]@
            == bins@[i]@ + "-"@ + target + if contains_text(target, "windows"@) {
            ".exe"@
        } else {
            Seq::<char>::empty()
        } by {
            assert(views_of(named@)[i] == named@[i]@);
        }
    }
}

/// Copying an external binary into the bundle gives it back the name the project gave it
/// (followed by `.exe` for Windows targets), provided `-{target}` does not already occur
/// within that name.
pub proof fn lemma_copy_name_restores_binary_name(bin: Seq<char>, target: Seq<char>)
    requires
        forall|i: int|
            0 <= i < bin.len() ==> !occurs_at(binary_name_for_target(bin, target), "-"@ + target, i),
    ensures
        replace_all(binary_name_for_target(bin, target), "-"@ + target, Seq::<char>::empty()) == bin
            + if contains_text(target, "windows"@) {
            ".exe"@
        } else {
            Seq::<char>::empty()
        },
{
    reveal_strlit("-");
    reveal_strlit(".exe");
    let p = "-"@ + target;
    let ext = if contains_text(target, "windows"@) {
        ".exe"@
    } else {
        Seq::<char>::empty()
    };
    assert(binary_name_for_target(bin, target) =~= bin + p + ext);
    assert forall|i: int| !occurs_at(ext, p, i) by {
        if occurs_at(ext, p, i) {
            assert(ext.subrange(i, i + p.len())[0] == p[0]);
        }
    }
    lemma_replace_after_unmatched(bin, p, ext, Seq::<char>::empty());
    lemma_replace_without_match(ext, p, Seq::<char>::empty());
    assert(bin + Seq::<char>::empty() + ext =~= bin + ext);
}


/// A target triple without an OS part falls back to the host OS: settings whose triple has
/// fewer than three dash-separated fields bundle what the same settings bundle for the
/// triple `{arch}-{vendor}-{host_os}`, when no part holds a dash.
pub proof fn lemma_host_os_fills_missing_os(
    s1: SettingsView,
    s2: SettingsView,
    arch: Seq<char>,
    vendor: Seq<char>,
    host_os: Seq<char>,
)
    requires
        split_fields(s1.target, '-').len() <= 2,
        !arch.contains('-'),
        !vendor.contains('-'),
        !host_os.contains('-'),
        s2.target == arch + seq!['-'] + vendor + seq!['-'] + host_os,
        s1 == (SettingsView { target: s1.target, ..s2 }),
    ensures
        s1.package_types_on(host_os) == s2.package_types_on(host_os),
{
    lemma_split_after_separator(arch + seq!['-'] + vendor, '-', host_os);
    lemma_split_after_separator(arch, '-', vendor);
    lemma_split_without_separator(arch, '-');
    assert(split_fields(s2.target, '-') =~= seq![arch, vendor, host_os]);
    assert(target_os_of(s1.target, host_os) == target_os_of(s2.target, host_os));
}

/// Every triple names its architecture by its beginning: one that begins with `x86_64` is
/// an `x86_64` target, one that begins with `i` an `x86` target, one that begins with `arm`
/// an `arm` target, one that begins with `aarch64` an `aarch64` target and one that begins
/// with `universal` a `universal` one.
pub proof fn lemma_arch_follows_triple_prefix(target: Seq<char>)
    ensures
        has_prefix(target, "x86_64"@) ==> arch_of(target) == Some("x86_64"@),
        target.len() > 0 && target[0] == 'i' ==> arch_of(target) == Some("x86"@),
        has_prefix(target, "arm"@) ==> arch_of(target) == Some("arm"@),
        has_prefix(target, "aarch64"@) ==> arch_of(target) == Some("aarch64"@),
        has_prefix(target, "universal"@) ==> arch_of(target) == Some("universal"@),
{
    reveal_strlit("x86_64");
    reveal_strlit("arm");
    reveal_strlit("aarch64");
    reveal_strlit("universal");
    if has_prefix(target, "arm"@) || has_prefix(target, "aarch64"@) || has_prefix(
        target,
        "universal"@,
    ) {
        assert(target[0] == target.subrange(0, 1)[0]);
        assert(!has_prefix(target, "x86_64"@)) by {
            if has_prefix(target, "x86_64"@) {
                assert(target.subrange(0, 6)[0] == 'x');
            }
        }
    }
    if target.len() > 0 && target[0] == 'i' {
        assert(!has_prefix(target, "x86_64"@)) by {
            if has_prefix(target, "x86_64"@) {
                assert(target.subrange(0, 6)[0] == 'x');
            }
        }
    }
    if has_prefix(target, "arm"@) {
        assert(target.subrange(0, 3)[0] == 'a');
    }
    if has_prefix(target, "aarch64"@) {
        assert(target.subrange(0, 7)[0] == 'a' && target.subrange(0, 7)[1] == 'a');
        assert(!has_prefix(target, "arm"@)) by {
            if has_prefix(target, "arm"@) {
                assert(target.subrange(0, 3)[1] == 'r');
            }
        }
    }
    if has_prefix(target, "universal"@) {
        assert(target.subrange(0, 9)[0] == 'u');
        assert(!has_prefix(target, "arm"@)) by {
            if has_prefix(target, "arm"@) {
                assert(target.subrange(0, 3)[0] == 'a');
            }
        }
        assert(!has_prefix(target, "aarch64"@)) by {
            if has_prefix(target, "aarch64"@) {
                assert(target.subrange(0, 7)[0] == 'a');
            }
        }
    }
}

/// The fields of a text split at `sep` begin with the fields of any part of it that a
/// `sep` ends, and there are more of them.
proof fn lemma_split_keeps_leading_fields(p: Seq<char>, sep: char, rest: Seq<char>)
    ensures
        split_fields(p + seq![sep] + rest, sep).len() > split_fields(p, sep).len(),
        split_fields(p + seq![sep] + rest, sep).take(split_fields(p, sep).len() as int)
            == split_fields(p, sep),
    decreases rest.len(),
{
    let whole = p + seq![sep] + rest;
    if rest.len() == 0 {
        assert(whole =~= p.push(sep));
        assert(whole.drop_last() =~= p);
        assert(split_fields(p, sep).push(Seq::<char>::empty()).take(
            split_fields(p, sep).len() as int,
        ) =~= split_fields(p, sep));
    } else {
        lemma_split_keeps_leading_fields(p, sep, rest.drop_last());
        assert(whole.drop_last() =~= p + seq![sep] + rest.drop_last());
        let before = split_fields(whole.drop_last(), sep);
        let n = split_fields(p, sep).len() as int;
        if whole.last() == sep {
            assert(before.push(Seq::<char>::empty()).take(n) =~= before.take(n));
        } else {
            assert(before.update(before.len() - 1, before.last().push(whole.last())).take(n)
                =~= before.take(n));
        }
    }
}

/// Without a publisher of its own, a bundle's publisher is the second dot-separated part
/// of its identifier: for `first.second` and `first.second.rest`, where neither `first`
/// nor `second` holds a dot, it is `second`.
pub proof fn lemma_publisher_defaults_to_second_field(
    b: BundleSettings,
    first: Seq<char>,
    second: Seq<char>,
    rest: Seq<char>,
)
    requires
        b.publisher is None,
        !first.contains('.'),
        !second.contains('.'),
        b.identifier matches Some(id) && (id@ == first + seq!['.'] + second || id@ == first
            + seq!['.'] + second + seq!['.'] + rest),
    ensures
        publisher_of(b) == Some(second),
{
    let id = b.identifier->0@;
    let head = first + seq!['.'] + second;
    lemma_split_without_separator(first, '.');
    lemma_split_after_separator(first, '.', second);
    assert(split_fields(head, '.') =~= seq![first, second]);
    if id == head {
    } else {
        lemma_split_keeps_leading_fields(head, '.', rest);
        assert(split_fields(id, '.').take(2)[1] == split_fields(id, '.')[1]);
    }
}

} // verus!
