//! The installer/updater: fresh install (refused on an existing install
//! unless forced) and update (skipped when the installed version is already
//! current). Each operation is a small state machine: the surrounding
//! program performs one action at a time (directory work, network fetches,
//! the version query, extraction) and reports what happened; every decision
//! between steps is made and verified here.

use vstd::prelude::*;
use vstd::pervasive::unreached;
use vstd::string::*;

use crate::channel::Channel;
use crate::manifest::{find_asset, spec_asset_name, Asset, VersionJSON};
use crate::platform::{Arch, Os};
use crate::version::{semver_ge, semver_parse, Version};
use crate::Error;

verus! {

/// Canonical manifest endpoint for the core component; overridable from the
/// environment by the surrounding program.
pub fn default_core_api_url() -> (r: String)
    ensures
        r@ == "https://ota.maa.plus/MaaAssistantArknights/api/version"@,
{
    String::from_str("https://ota.maa.plus/MaaAssistantArknights/api/version")
}

/// The core component's installer, bound to one release channel.
pub struct MaaCore {
    channel: Channel,
}

impl MaaCore {
    /// The channel whose manifest is used.
    pub closed spec fn spec_channel(&self) -> Channel {
        self.channel
    }

    pub fn new(channel: Channel) -> (r: Self)
        ensures
            r.spec_channel() == channel,
    {
        MaaCore { channel }
    }

    pub fn channel(&self) -> (r: Channel)
        ensures
            r == self.spec_channel(),
    {
        self.channel
    }

    /// URL of this channel's manifest under the given API base.
    pub fn manifest_url(&self, api_url: &str) -> (r: String)
        ensures
            r@ == api_url@ + "/"@ + self.spec_channel().name_seq() + ".json"@,
    {
        let mut s = String::from_str(api_url);
        s.append("/");
        s.append(self.channel.name());
        s.append(".json");
        proof {
            assert(s@ =~= api_url@ + "/"@ + self.spec_channel().name_seq() + ".json"@);
        }
        s
    }

    /// Parse the version string a running component reports: a fixed
    /// nine-character prefix, the version itself, and a trailing newline.
    /// The prefix is stripped by length, not inspected.
    pub fn parse_version_output(output: &str) -> (r: Result<Version, Error>)
        ensures
            output@.len() >= 10 ==> match r {
                Ok(v) => {
                    &&& semver_parse(output@.subrange(9, output@.len() - 1)) == Some(v@)
                    &&& v@.canon == output@.subrange(9, output@.len() - 1)
                },
                Err(e) => {
                    &&& e is Parse
                    &&& semver_parse(output@.subrange(9, output@.len() - 1)) is None
                },
            },
            output@.len() < 10 ==> (r matches Err(e) && e is Parse),
    {
        let n = output.unicode_len();
        if n < 10 {
            return Err(Error::Parse(String::from_str("version report too short")));
        }
        let ver = output.substring_char(9, n - 1);
        Version::parse(ver)
    }

    /// Begin a fresh install.
    pub fn install(&self, os: Os, arch: Arch, force: bool, no_resource: bool, timeout: u64) -> (r:
        InstallFlow)
        ensures
            r.channel == self.spec_channel(),
            r.os == os,
            r.arch == arch,
            r.force == force,
            r.no_resource == no_resource,
            r.timeout == timeout,
            r.state is EnsureLibDir,
    {
        InstallFlow {
            channel: self.channel,
            os,
            arch,
            force,
            no_resource,
            timeout,
            state: InstallState::EnsureLibDir,
        }
    }

    /// Begin an update of an existing install.
    pub fn update(&self, os: Os, arch: Arch, no_resource: bool, timeout: u64) -> (r: UpdateFlow)
        ensures
            r.channel == self.spec_channel(),
            r.os == os,
            r.arch == arch,
            r.no_resource == no_resource,
            r.timeout == timeout,
            r.state is FetchManifest,
    {
        UpdateFlow {
            channel: self.channel,
            os,
            arch,
            no_resource,
            timeout,
            state: UpdateState::FetchManifest,
        }
    }
}

/// Where an install stands.
pub enum InstallState {
    /// The library directory must be created if missing.
    EnsureLibDir,
    /// It must be determined whether the expected library file exists.
    CheckExisting,
    /// The cache directory must be created if missing and the resource
    /// directory wiped and recreated.
    PrepareDirs,
    /// The channel manifest must be fetched.
    FetchManifest,
    /// This asset must be downloaded.
    Download(Asset),
    /// The downloaded archive of this asset must be extracted.
    Extract(Asset),
    Done,
    Failed(Error),
}

/// What the surrounding program reports back after performing an action.
pub enum InstallEvent {
    /// The requested directory work succeeded.
    DirsReady,
    /// The requested directory work failed, with a description.
    DirsFailed(String),
    /// Whether the expected library file exists in the library directory.
    LibraryExists(bool),
    /// The manifest was fetched and parsed.
    Manifest(VersionJSON),
    /// The manifest could not be fetched or parsed.
    FetchFailed(String),
    /// The archive now sits at the cache path with the declared size.
    Downloaded,
    /// Every source (primary and all mirrors) failed.
    DownloadFailed,
    /// Every mapped entry was extracted.
    Extracted,
    /// The archive could not be opened or an entry could not be read.
    ExtractFailed(String),
}

/// Which events answer which state's action.
pub open spec fn install_event_fits(st: InstallState, e: InstallEvent) -> bool {
    match st {
        InstallState::EnsureLibDir => e is DirsReady || e is DirsFailed,
        InstallState::CheckExisting => e is LibraryExists,
        InstallState::PrepareDirs => e is DirsReady || e is DirsFailed,
        InstallState::FetchManifest => e is Manifest || e is FetchFailed,
        InstallState::Download(_) => e is Downloaded || e is DownloadFailed,
        InstallState::Extract(_) => e is Extracted || e is ExtractFailed,
        InstallState::Done => false,
        InstallState::Failed(_) => false,
    }
}

/// What the surrounding program must do next for an install.
#[derive(Clone, Copy, PartialEq, Eq, Structural, Debug)]
pub enum InstallAction {
    EnsureLibraryDir,
    CheckLibraryFile,
    PrepareDirs,
    FetchManifest,
    Download,
    Extract,
    Finish,
}

/// A fresh install in progress.
pub struct InstallFlow {
    pub channel: Channel,
    pub os: Os,
    pub arch: Arch,
    pub force: bool,
    pub no_resource: bool,
    pub timeout: u64,
    pub state: InstallState,
}

impl InstallFlow {
    /// The action the current state asks for.
    pub open spec fn spec_action(&self) -> InstallAction {
        match self.state {
            InstallState::EnsureLibDir => InstallAction::EnsureLibraryDir,
            InstallState::CheckExisting => InstallAction::CheckLibraryFile,
            InstallState::PrepareDirs => InstallAction::PrepareDirs,
            InstallState::FetchManifest => InstallAction::FetchManifest,
            InstallState::Download(_) => InstallAction::Download,
            InstallState::Extract(_) => InstallAction::Extract,
            InstallState::Done => InstallAction::Finish,
            InstallState::Failed(_) => InstallAction::Finish,
        }
    }

    pub fn next_action(&self) -> (r: InstallAction)
        ensures
            r == self.spec_action(),
    {
        match &self.state {
            InstallState::EnsureLibDir => InstallAction::EnsureLibraryDir,
            InstallState::CheckExisting => InstallAction::CheckLibraryFile,
            InstallState::PrepareDirs => InstallAction::PrepareDirs,
            InstallState::FetchManifest => InstallAction::FetchManifest,
            InstallState::Download(_) => InstallAction::Download,
            InstallState::Extract(_) => InstallAction::Extract,
            InstallState::Done => InstallAction::Finish,
            InstallState::Failed(_) => InstallAction::Finish,
        }
    }

    /// The asset being downloaded or extracted, if the flow is at one of
    /// those steps.
    pub fn current_asset(&self) -> (r: Option<&Asset>)
        ensures
            self.state matches InstallState::Download(a) ==> (r matches Some(x) && x == a),
            self.state matches InstallState::Extract(a) ==> (r matches Some(x) && x == a),
            !(self.state is Download) && !(self.state is Extract) ==> r is None,
    {
        match &self.state {
            InstallState::Download(a) => Some(a),
            InstallState::Extract(a) => Some(a),
            _ => None,
        }
    }

    pub fn is_finished(&self) -> (r: bool)
        ensures
            r == (self.state is Done || self.state is Failed),
    {
        match &self.state {
            InstallState::Done => true,
            InstallState::Failed(_) => true,
            _ => false,
        }
    }

    /// Feed back what happened; the flow decides the next step.
    ///
    /// An install is refused (`AlreadyInstalled`) exactly when the expected
    /// library file exists and `force` is off, before any directory is
    /// touched beyond creating the (then already existing) library
    /// directory. The asset downloaded is the manifest's first asset named
    /// as the platform expects.
    pub fn on_event(self, e: InstallEvent) -> (r: InstallFlow)
        requires
            install_event_fits(self.state, e),
        ensures
            r.channel == self.channel && r.os == self.os && r.arch == self.arch && r.force
                == self.force && r.no_resource == self.no_resource && r.timeout == self.timeout,
            self.state is EnsureLibDir && e is DirsReady ==> r.state is CheckExisting,
            self.state is PrepareDirs && e is DirsReady ==> r.state is FetchManifest,
            e matches InstallEvent::DirsFailed(m) ==> ((self.state is EnsureLibDir || self.state
                is PrepareDirs) ==> (r.state matches InstallState::Failed(Error::Filesystem(m2))
                && m2 == m)),
            e matches InstallEvent::LibraryExists(x) ==> (self.state is CheckExisting ==> (if x
                && !self.force {
                r.state matches InstallState::Failed(Error::AlreadyInstalled)
            } else {
                r.state is PrepareDirs
            })),
            e matches InstallEvent::Manifest(vj) ==> (self.state is FetchManifest ==> (match
                spec_asset_name(self.os, self.arch, vj@.version.canon) {
                Some(n) => match find_asset(vj@.assets, n) {
                    Some(i) => (r.state matches InstallState::Download(a) && a@ == vj@.assets[i]),
                    None => (r.state matches InstallState::Failed(Error::AssetNotFound(nm)) && nm@
                        == n),
                },
                None => r.state matches InstallState::Failed(Error::PlatformUnsupported),
            })),
            e matches InstallEvent::FetchFailed(m) ==> (self.state is FetchManifest ==> (r.state
                matches InstallState::Failed(Error::Network(m2)) && m2 == m)),
            self.state matches InstallState::Download(a) ==> (e is Downloaded ==> (r.state matches
                InstallState::Extract(b) && b == a)),
            self.state matches InstallState::Download(a) ==> (e is DownloadFailed ==> (r.state
                matches InstallState::Failed(Error::DownloadExhausted(nm)) && nm@ == a@.name)),
            self.state is Extract && e is Extracted ==> r.state is Done,
            e matches InstallEvent::ExtractFailed(m) ==> (self.state is Extract ==> (r.state
                matches InstallState::Failed(Error::Extract(m2)) && m2 == m)),
    {
        let InstallFlow { channel, os, arch, force, no_resource, timeout, state } = self;
        let new_state = match (state, e) {
            (InstallState::EnsureLibDir, InstallEvent::DirsReady) => InstallState::CheckExisting,
            (InstallState::EnsureLibDir, InstallEvent::DirsFailed(m)) => InstallState::Failed(
                Error::Filesystem(m),
            ),
            (InstallState::CheckExisting, InstallEvent::LibraryExists(x)) => {
                if x && !force {
                    InstallState::Failed(Error::AlreadyInstalled)
                } else {
                    InstallState::PrepareDirs
                }
            },
            (InstallState::PrepareDirs, InstallEvent::DirsReady) => InstallState::FetchManifest,
            (InstallState::PrepareDirs, InstallEvent::DirsFailed(m)) => InstallState::Failed(
                Error::Filesystem(m),
            ),
            (InstallState::FetchManifest, InstallEvent::Manifest(vj)) => {
                match vj.asset(os, arch) {
                    Ok(a) => InstallState::Download(a.duplicate()),
                    Err(er) => InstallState::Failed(er),
                }
            },
            (InstallState::FetchManifest, InstallEvent::FetchFailed(m)) => InstallState::Failed(
                Error::Network(m),
            ),
            (InstallState::Download(a), InstallEvent::Downloaded) => InstallState::Extract(a),
            (InstallState::Download(a), InstallEvent::DownloadFailed) => InstallState::Failed(
                Error::DownloadExhausted(a.name),
            ),
            (InstallState::Extract(_), InstallEvent::Extracted) => InstallState::Done,
            (InstallState::Extract(_), InstallEvent::ExtractFailed(m)) => InstallState::Failed(
                Error::Extract(m),
            ),
            _ => unreached(),
        };
        InstallFlow { channel, os, arch, force, no_resource, timeout, state: new_state }
    }

    /// The outcome of a finished install.
    pub fn into_result(self) -> (r: Result<(), Error>)
        requires
            self.state is Done || self.state is Failed,
        ensures
            self.state is Done ==> r is Ok,
            self.state matches InstallState::Failed(e) ==> (r matches Err(e2) && e2 == e),
    {
        match self.state {
            InstallState::Done => Ok(()),
            InstallState::Failed(e) => Err(e),
            _ => unreached(),
        }
    }
}

/// Where an update stands.
pub enum UpdateState {
    /// The channel manifest must be fetched.
    FetchManifest,
    /// The installed component must be asked for its version.
    QueryVersion(VersionJSON),
    /// This asset must be downloaded; nothing is cleared yet, so an
    /// interrupted download never destroys a working install.
    Download(Asset),
    /// The download succeeded; the library and resource directories must be
    /// wiped and recreated.
    CleanDirs(Asset),
    /// The downloaded archive of this asset must be extracted.
    Extract(Asset),
    Done,
    /// The installed version is at least the manifest version; nothing was
    /// downloaded.
    UpToDate(Version),
    Failed(Error),
}

/// What the surrounding program reports back after performing an action.
pub enum UpdateEvent {
    /// The manifest was fetched and parsed.
    Manifest(VersionJSON),
    /// The manifest could not be fetched or parsed.
    FetchFailed(String),
    /// The installed component reported this version.
    InstalledVersion(Version),
    /// The installed component could not be run or its report not parsed.
    QueryFailed(Error),
    /// The archive now sits at the cache path with the declared size.
    Downloaded,
    /// Every source (primary and all mirrors) failed.
    DownloadFailed,
    /// Both directories were wiped and recreated.
    Cleaned,
    /// The directory work failed, with a description.
    CleanFailed(String),
    /// Every mapped entry was extracted.
    Extracted,
    /// The archive could not be opened or an entry could not be read.
    ExtractFailed(String),
}

/// Which events answer which state's action.
pub open spec fn update_event_fits(st: UpdateState, e: UpdateEvent) -> bool {
    match st {
        UpdateState::FetchManifest => e is Manifest || e is FetchFailed,
        UpdateState::QueryVersion(_) => e is InstalledVersion || e is QueryFailed,
        UpdateState::Download(_) => e is Downloaded || e is DownloadFailed,
        UpdateState::CleanDirs(_) => e is Cleaned || e is CleanFailed,
        UpdateState::Extract(_) => e is Extracted || e is ExtractFailed,
        UpdateState::Done => false,
        UpdateState::UpToDate(_) => false,
        UpdateState::Failed(_) => false,
    }
}

/// What the surrounding program must do next for an update.
#[derive(Clone, Copy, PartialEq, Eq, Structural, Debug)]
pub enum UpdateAction {
    FetchManifest,
    QueryVersion,
    Download,
    CleanDirs,
    Extract,
    Finish,
}

/// How a finished update ended.
pub enum UpdateOutcome {
    /// A newer version was downloaded and extracted.
    Updated,
    /// The installed version was already at least the manifest version.
    UpToDate(Version),
}

/// An update in progress.
pub struct UpdateFlow {
    pub channel: Channel,
    pub os: Os,
    pub arch: Arch,
    pub no_resource: bool,
    pub timeout: u64,
    pub state: UpdateState,
}

impl UpdateFlow {
    /// The action the current state asks for.
    pub open spec fn spec_action(&self) -> UpdateAction {
        match self.state {
            UpdateState::FetchManifest => UpdateAction::FetchManifest,
            UpdateState::QueryVersion(_) => UpdateAction::QueryVersion,
            UpdateState::Download(_) => UpdateAction::Download,
            UpdateState::CleanDirs(_) => UpdateAction::CleanDirs,
            UpdateState::Extract(_) => UpdateAction::Extract,
            UpdateState::Done => UpdateAction::Finish,
            UpdateState::UpToDate(_) => UpdateAction::Finish,
            UpdateState::Failed(_) => UpdateAction::Finish,
        }
    }

    pub fn next_action(&self) -> (r: UpdateAction)
        ensures
            r == self.spec_action(),
    {
        match &self.state {
            UpdateState::FetchManifest => UpdateAction::FetchManifest,
            UpdateState::QueryVersion(_) => UpdateAction::QueryVersion,
            UpdateState::Download(_) => UpdateAction::Download,
            UpdateState::CleanDirs(_) => UpdateAction::CleanDirs,
            UpdateState::Extract(_) => UpdateAction::Extract,
            UpdateState::Done => UpdateAction::Finish,
            UpdateState::UpToDate(_) => UpdateAction::Finish,
            UpdateState::Failed(_) => UpdateAction::Finish,
        }
    }

    /// The asset being downloaded, cleaned for or extracted, if the flow is
    /// at one of those steps.
    pub fn current_asset(&self) -> (r: Option<&Asset>)
        ensures
            self.state matches UpdateState::Download(a) ==> (r matches Some(x) && x == a),
            self.state matches UpdateState::CleanDirs(a) ==> (r matches Some(x) && x == a),
            self.state matches UpdateState::Extract(a) ==> (r matches Some(x) && x == a),
            !(self.state is Download) && !(self.state is CleanDirs) && !(self.state is Extract)
                ==> r is None,
    {
        match &self.state {
            UpdateState::Download(a) => Some(a),
            UpdateState::CleanDirs(a) => Some(a),
            UpdateState::Extract(a) => Some(a),
            _ => None,
        }
    }

    pub fn is_finished(&self) -> (r: bool)
        ensures
            r == (self.state is Done || self.state is UpToDate || self.state is Failed),
    {
        match &self.state {
            UpdateState::Done => true,
            UpdateState::UpToDate(_) => true,
            UpdateState::Failed(_) => true,
            _ => false,
        }
    }

    /// Feed back what happened; the flow decides the next step.
    ///
    /// The update is a no-op exactly when the installed version is at least
    /// the manifest version: the flow then finishes up to date, and no
    /// download is asked for. Otherwise the platform's asset is downloaded,
    /// and only after a successful download are the library and resource
    /// directories cleared and the archive extracted.
    pub fn on_event(self, e: UpdateEvent) -> (r: UpdateFlow)
        requires
            update_event_fits(self.state, e),
        ensures
            r.channel == self.channel && r.os == self.os && r.arch == self.arch && r.no_resource
                == self.no_resource && r.timeout == self.timeout,
            e matches UpdateEvent::Manifest(vj) ==> (self.state is FetchManifest ==> (r.state
                matches UpdateState::QueryVersion(vj2) && vj2 == vj)),
            e matches UpdateEvent::FetchFailed(m) ==> (self.state is FetchManifest ==> (r.state
                matches UpdateState::Failed(Error::Network(m2)) && m2 == m)),
            self.state matches UpdateState::QueryVersion(vj) ==> (e matches
                UpdateEvent::InstalledVersion(v) ==> (if semver_ge(v@.canon, vj@.version.canon) {
                r.state matches UpdateState::UpToDate(v2) && v2 == v
            } else {
                match spec_asset_name(self.os, self.arch, vj@.version.canon) {
                    Some(n) => match find_asset(vj@.assets, n) {
                        Some(i) => (r.state matches UpdateState::Download(a) && a@
                            == vj@.assets[i]),
                        None => (r.state matches UpdateState::Failed(Error::AssetNotFound(nm))
                            && nm@ == n),
                    },
                    None => r.state matches UpdateState::Failed(Error::PlatformUnsupported),
                }
            })),
            self.state matches UpdateState::QueryVersion(vj) ==> (e matches
                UpdateEvent::InstalledVersion(v) ==> (v@.canon == vj@.version.canon ==> (r.state
                matches UpdateState::UpToDate(v2) && v2 == v))),
            e matches UpdateEvent::QueryFailed(er) ==> (self.state is QueryVersion ==> (r.state
                matches UpdateState::Failed(er2) && er2 == er)),
            self.state matches UpdateState::Download(a) ==> (e is Downloaded ==> (r.state matches
                UpdateState::CleanDirs(b) && b == a)),
            self.state matches UpdateState::Download(a) ==> (e is DownloadFailed ==> (r.state
                matches UpdateState::Failed(Error::DownloadExhausted(nm)) && nm@ == a@.name)),
            self.state matches UpdateState::CleanDirs(a) ==> (e is Cleaned ==> (r.state matches
                UpdateState::Extract(b) && b == a)),
            e matches UpdateEvent::CleanFailed(m) ==> (self.state is CleanDirs ==> (r.state
                matches UpdateState::Failed(Error::Filesystem(m2)) && m2 == m)),
            self.state is Extract && e is Extracted ==> r.state is Done,
            e matches UpdateEvent::ExtractFailed(m) ==> (self.state is Extract ==> (r.state
                matches UpdateState::Failed(Error::Extract(m2)) && m2 == m)),
    {
        let UpdateFlow { channel, os, arch, no_resource, timeout, state } = self;
        let new_state = match (state, e) {
            (UpdateState::FetchManifest, UpdateEvent::Manifest(vj)) => UpdateState::QueryVersion(
                vj,
            ),
            (UpdateState::FetchManifest, UpdateEvent::FetchFailed(m)) => UpdateState::Failed(
                Error::Network(m),
            ),
            (UpdateState::QueryVersion(vj), UpdateEvent::InstalledVersion(v)) => {
                if v.ge(vj.version_ref()) {
                    UpdateState::UpToDate(v)
                } else {
                    match vj.asset(os, arch) {
                        Ok(a) => UpdateState::Download(a.duplicate()),
                        Err(er) => UpdateState::Failed(er),
                    }
                }
            },
            (UpdateState::QueryVersion(_), UpdateEvent::QueryFailed(er)) => UpdateState::Failed(
                er,
            ),
            (UpdateState::Download(a), UpdateEvent::Downloaded) => UpdateState::CleanDirs(a),
            (UpdateState::Download(a), UpdateEvent::DownloadFailed) => UpdateState::Failed(
                Error::DownloadExhausted(a.name),
            ),
            (UpdateState::CleanDirs(a), UpdateEvent::Cleaned) => UpdateState::Extract(a),
            (UpdateState::CleanDirs(_), UpdateEvent::CleanFailed(m)) => UpdateState::Failed(
                Error::Filesystem(m),
            ),
            (UpdateState::Extract(_), UpdateEvent::Extracted) => UpdateState::Done,
            (UpdateState::Extract(_), UpdateEvent::ExtractFailed(m)) => UpdateState::Failed(
                Error::Extract(m),
            ),
            _ => unreached(),
        };
        UpdateFlow { channel, os, arch, no_resource, timeout, state: new_state }
    }

    /// The outcome of a finished update.
    pub fn into_outcome(self) -> (r: Result<UpdateOutcome, Error>)
        requires
            self.state is Done || self.state is UpToDate || self.state is Failed,
        ensures
            self.state is Done ==> (r matches Ok(o) && o is Updated),
            self.state matches UpdateState::UpToDate(v) ==> (r matches Ok(
                UpdateOutcome::UpToDate(v2),
            ) && v2 == v),
            self.state matches UpdateState::Failed(e) ==> (r matches Err(e2) && e2 == e),
    {
        match self.state {
            UpdateState::Done => Ok(UpdateOutcome::Updated),
            UpdateState::UpToDate(v) => Ok(UpdateOutcome::UpToDate(v)),
            UpdateState::Failed(e) => Err(e),
            _ => unreached(),
        }
    }
}

} // verus!
