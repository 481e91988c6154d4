//! Plain-value forms of the configuration choices that the bundle settings carry:
//! the log level of spawned commands and the Windows installer options.

use vstd::prelude::*;

use tauri_utils::config as tauri_config;
use tauri_utils::config::WebviewInstallMode as WebviewConfig;

verus! {

/// The verbosity of the commands the bundler spawns, from the least to the most verbose.
#[derive(Clone, Copy, Debug, PartialEq, Eq, Structural, Hash)]
pub enum LogLevel {
    Error,
    Warn,
    Info,
    Debug,
    Trace,
}

/// Install modes for the NSIS installer.
#[derive(Clone, Copy, Debug, PartialEq, Eq, Structural, Hash)]
pub enum NSISInstallerMode {
    /// Install the app in a directory that doesn't require Administrator access.
    CurrentUser,
    /// Install the app in the `Program Files` folder, which requires Administrator access.
    PerMachine,
    /// Let the user choose at install time between the two modes above.
    Both,
}

/// Compression algorithms used in the NSIS installer.
#[derive(Clone, Copy, Debug, PartialEq, Eq, Structural, Hash)]
pub enum NsisCompression {
    Zlib,
    Bzip2,
    Lzma,
}

/// The installation mode for the Webview2 runtime.
#[derive(Debug)]
pub enum WebviewInstallMode {
    /// Do not install the Webview2 as part of the Windows Installer.
    Skip,
    /// Download the bootstrapper and run it.
    DownloadBootstrapper { silent: bool },
    /// Embed the bootstrapper and run it.
    EmbedBootstrapper { silent: bool },
    /// Embed the offline installer and run it.
    OfflineInstaller { silent: bool },
    /// Embed a fixed webview2 version, found at `path`, and use it at runtime.
    FixedRuntime { path: String },
}

/// Trusted: the value of `tauri_utils::config::WebviewInstallMode::default()`, taken over
/// variant by variant. Its source returns `DownloadBootstrapper { silent: true }`, and the
/// contract states so.
#[verifier::external_body]
fn tauri_default_webview_install_mode() -> (r: WebviewInstallMode)
    ensures
        r == (WebviewInstallMode::DownloadBootstrapper { silent: true }),
{
    match WebviewConfig::default() {
        WebviewConfig::Skip => WebviewInstallMode::Skip,
        WebviewConfig::DownloadBootstrapper { silent } => WebviewInstallMode::DownloadBootstrapper { silent },
        WebviewConfig::EmbedBootstrapper { silent } => WebviewInstallMode::EmbedBootstrapper { silent },
        WebviewConfig::OfflineInstaller { silent } => WebviewInstallMode::OfflineInstaller { silent },
        WebviewConfig::FixedRuntime { path } => {
            WebviewInstallMode::FixedRuntime { path: path.to_string_lossy().into_owned() }
        },
    }
}

/// Trusted: the value of `tauri_utils::config::NSISInstallerMode::default()`, taken over
/// variant by variant. Its source returns `CurrentUser`, and the contract states so.
#[verifier::external_body]
fn tauri_default_installer_mode() -> (r: NSISInstallerMode)
    ensures
        r == NSISInstallerMode::CurrentUser,
{
    match tauri_config::NSISInstallerMode::default() {
        tauri_config::NSISInstallerMode::CurrentUser => NSISInstallerMode::CurrentUser,
        tauri_config::NSISInstallerMode::PerMachine => NSISInstallerMode::PerMachine,
        tauri_config::NSISInstallerMode::Both => NSISInstallerMode::Both,
    }
}

impl Clone for WebviewInstallMode {
    /// The same mode, with the same path for a fixed runtime.
    fn clone(&self) -> (r: Self)
        ensures
            r == *self,
    {
        match self {
            WebviewInstallMode::Skip => WebviewInstallMode::Skip,
            WebviewInstallMode::DownloadBootstrapper { silent } => {
                WebviewInstallMode::DownloadBootstrapper { silent: *silent }
            },
            WebviewInstallMode::EmbedBootstrapper { silent } => {
                WebviewInstallMode::EmbedBootstrapper { silent: *silent }
            },
            WebviewInstallMode::OfflineInstaller { silent } => {
                WebviewInstallMode::OfflineInstaller { silent: *silent }
            },
            WebviewInstallMode::FixedRuntime { path } => {
                WebviewInstallMode::FixedRuntime { path: path.clone() }
            },
        }
    }
}

impl Default for WebviewInstallMode {
    /// Downloads the bootstrapper and runs it silently.
    fn default() -> (r: Self)
        ensures
            r == (WebviewInstallMode::DownloadBootstrapper { silent: true }),
    {
        tauri_default_webview_install_mode()
    }
}

impl Default for NSISInstallerMode {
    /// Installs for the current user.
    fn default() -> (r: Self)
        ensures
            r == NSISInstallerMode::CurrentUser,
    {
        tauri_default_installer_mode()
    }
}

} // verus!
