//! Acquisition and installation pipeline for a versioned native runtime
//! component: resolve the latest version from a remote manifest, pick the
//! asset for the running platform, download it with mirror fallback and a
//! size-checked cache, and route archive entries into the library and
//! resource trees.

use vstd::prelude::*;
use vstd::string::*;

mod channel;
mod config;
mod fetch;
mod installer;
mod manifest;
mod platform;
mod remap;
mod strutil;
mod version;

pub use channel::Channel;
pub use config::{default_api_url, default_download_url, normalize_url, CLIComponents, Config};
pub use fetch::MirrorDownload;
pub use installer::{
    default_core_api_url, InstallAction, InstallEvent, InstallFlow, InstallState, MaaCore,
    UpdateAction, UpdateEvent, UpdateFlow, UpdateOutcome, UpdateState,
};
pub use manifest::{Asset, AssetView, VersionDetails, VersionJSON, VersionJsonView};
pub use platform::{Arch, Os};
pub use remap::{extract_mapper, RemapSpec};
pub use version::{Version, VersionView};

verus! {

/// Failure taxonomy of the pipeline. Each variant carries enough context
/// to retry manually.
#[derive(Debug)]
pub enum Error {
    /// Manifest fetch or asset download failed.
    Network(String),
    /// Every source (primary plus all mirrors) of the named asset failed.
    DownloadExhausted(String),
    /// Malformed manifest or unparseable version string.
    Parse(String),
    /// No asset naming rule for this operating system and architecture.
    PlatformUnsupported,
    /// The manifest lacks the asset expected for this platform.
    AssetNotFound(String),
    /// Install without force on an existing install.
    AlreadyInstalled,
    /// The archive could not be opened or an entry could not be read.
    Extract(String),
    /// Directory creation or cleanup failed.
    Filesystem(String),
}

impl Error {
    /// The user-readable description of each failure.
    pub open spec fn spec_message(&self) -> Seq<char> {
        match self {
            Error::Network(m) => "failed to fetch: "@ + m@,
            Error::DownloadExhausted(n) => "failed to download "@ + n@ + " from every source"@,
            Error::Parse(m) => "failed to parse: "@ + m@,
            Error::PlatformUnsupported => "unsupported platform or architecture"@,
            Error::AssetNotFound(n) => "asset not found: "@ + n@,
            Error::AlreadyInstalled => "MaaCore already exists, use `maa update` to update it or `maa install --force` to force reinstall"@,
            Error::Extract(m) => "failed to extract: "@ + m@,
            Error::Filesystem(m) => "filesystem operation failed: "@ + m@,
        }
    }

    /// A user-readable description, with enough context to retry manually.
    pub fn message(&self) -> (r: String)
        ensures
            r@ == self.spec_message(),
    {
        match self {
            Error::Network(m) => {
                let mut s = String::from_str("failed to fetch: ");
                s.append(m.as_str());
                s
            },
            Error::DownloadExhausted(n) => {
                let mut s = String::from_str("failed to download ");
                s.append(n.as_str());
                s.append(" from every source");
                proof {
                    assert(s@ =~= "failed to download "@ + n@ + " from every source"@);
                }
                s
            },
            Error::Parse(m) => {
                let mut s = String::from_str("failed to parse: ");
                s.append(m.as_str());
                s
            },
            Error::PlatformUnsupported => String::from_str(
                "unsupported platform or architecture",
            ),
            Error::AssetNotFound(n) => {
                let mut s = String::from_str("asset not found: ");
                s.append(n.as_str());
                s
            },
            Error::AlreadyInstalled => String::from_str(
                "MaaCore already exists, use `maa update` to update it or `maa install --force` to force reinstall",
            ),
            Error::Extract(m) => {
                let mut s = String::from_str("failed to extract: ");
                s.append(m.as_str());
                s
            },
            Error::Filesystem(m) => {
                let mut s = String::from_str("filesystem operation failed: ");
                s.append(m.as_str());
                s
            },
        }
    }
}

} // verus!
