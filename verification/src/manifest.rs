//! The remote version manifest: the latest version and its downloadable
//! assets, and resolution of the single asset that fits the running platform.

use vstd::prelude::*;
use vstd::string::*;

use crate::platform::{Arch, Os};
use crate::strutil::str_eq;
use crate::version::{semver_parse, Version, VersionView};
use crate::Error;

verus! {

/// Mathematical content of an asset entry.
pub struct AssetView {
    pub name: Seq<char>,
    pub size: u64,
    pub url: Seq<char>,
    pub mirrors: Seq<Seq<char>>,
}

/// One platform-specific downloadable archive described in a manifest.
pub struct Asset {
    pub name: String,
    pub size: u64,
    pub browser_download_url: String,
    pub mirrors: Vec<String>,
}

impl View for Asset {
    type V = AssetView;

    open spec fn view(&self) -> AssetView {
        AssetView {
            name: self.name@,
            size: self.size,
            url: self.browser_download_url@,
            mirrors: self.mirrors@.map_values(|m: String| m@),
        }
    }
}

impl Asset {
    /// A copy with the same content.
    pub fn duplicate(&self) -> (r: Asset)
        ensures
            r@ == self@,
    {
        let r = Asset {
            name: self.name.clone(),
            size: self.size,
            browser_download_url: self.browser_download_url.clone(),
            mirrors: self.mirrors.clone(),
        };
        proof {
            assert(r.mirrors@ =~= self.mirrors@);
            assert(r@ =~= self@);
        }
        r
    }
}

/// The asset list of a manifest.
pub struct VersionDetails {
    pub assets: Vec<Asset>,
}

impl View for VersionDetails {
    type V = Seq<AssetView>;

    open spec fn view(&self) -> Seq<AssetView> {
        self.assets@.map_values(|a: Asset| a@)
    }
}

/// Mathematical content of a manifest.
pub struct VersionJsonView {
    pub raw_version: Seq<char>,
    pub version: VersionView,
    pub assets: Seq<AssetView>,
}

/// A parsed remote manifest: its version (the raw string carries one leading
/// character, stripped before parsing) and its assets.
pub struct VersionJSON {
    raw_version: String,
    version: Version,
    details: VersionDetails,
}

impl View for VersionJSON {
    type V = VersionJsonView;

    closed spec fn view(&self) -> VersionJsonView {
        VersionJsonView {
            raw_version: self.raw_version@,
            version: self.version@,
            assets: self.details@,
        }
    }
}

/// The suffix after `MAA-v{version}` of the expected asset file name, or
/// `None` where the operating system and architecture have no naming rule.
pub open spec fn platform_suffix(os: Os, arch: Arch) -> Option<Seq<char>> {
    match os {
        Os::Macos => Some("-macos-runtime-universal.zip"@),
        Os::Linux => match arch {
            Arch::X86_64 => Some("-linux-x86_64.tar.gz"@),
            Arch::Aarch64 => Some("-linux-aarch64.tar.gz"@),
            Arch::Other => None,
        },
        Os::Windows => match arch {
            Arch::X86_64 => Some("-win-x64.zip"@),
            Arch::Aarch64 => Some("-win-arm64.zip"@),
            Arch::Other => None,
        },
        Os::Other => None,
    }
}

/// The expected asset file name for a platform and a version's canonical
/// form, or `None` where the platform has no naming rule.
pub open spec fn spec_asset_name(os: Os, arch: Arch, canon: Seq<char>) -> Option<Seq<char>> {
    match platform_suffix(os, arch) {
        Some(sfx) => Some("MAA-v"@ + canon + sfx),
        None => None,
    }
}

/// Index of the first asset named `name`, if any.
pub open spec fn find_asset(assets: Seq<AssetView>, name: Seq<char>) -> Option<int>
    decreases assets.len(),
{
    if assets.len() == 0 {
        None
    } else if assets[0].name == name {
        Some(0)
    } else {
        match find_asset(assets.skip(1), name) {
            Some(i) => Some(i + 1),
            None => None,
        }
    }
}

proof fn lemma_find_asset_none(assets: Seq<AssetView>, name: Seq<char>)
    requires
        forall|j: int| 0 <= j < assets.len() ==> (#[trigger] assets[j].name) != name,
    ensures
        find_asset(assets, name) is None,
    decreases assets.len(),
{
    if assets.len() > 0 {
        assert(forall|j: int|
            0 <= j < assets.skip(1).len() ==> (#[trigger] assets.skip(1)[j]) == assets[j + 1]);
        lemma_find_asset_none(assets.skip(1), name);
    }
}

proof fn lemma_find_asset_at(assets: Seq<AssetView>, name: Seq<char>, k: int)
    requires
        0 <= k < assets.len(),
        assets[k].name == name,
        forall|j: int| 0 <= j < k ==> (#[trigger] assets[j].name) != name,
    ensures
        find_asset(assets, name) == Some(k),
    decreases assets.len(),
{
    if k > 0 {
        assert(forall|j: int|
            0 <= j < assets.skip(1).len() ==> (#[trigger] assets.skip(1)[j]) == assets[j + 1]);
        lemma_find_asset_at(assets.skip(1), name, k - 1);
    }
}

impl VersionJSON {
    /// Build a manifest from its version string and asset list. The version
    /// string must parse as a semantic version after its first character is
    /// stripped; otherwise the manifest is rejected.
    pub fn new(version: String, details: VersionDetails) -> (r: Result<VersionJSON, Error>)
        ensures
            match r {
                Ok(vj) => {
                    &&& version@.len() >= 1
                    &&& semver_parse(version@.skip(1)) == Some(vj@.version)
                    &&& vj@.raw_version == version@
                    &&& vj@.assets == details@
                },
                Err(e) => {
                    &&& e is Parse
                    &&& (version@.len() < 1 || semver_parse(version@.skip(1)) is None)
                },
            },
    {
        let n = version.as_str().unicode_len();
        if n < 1 {
            return Err(Error::Parse(String::from_str("empty manifest version string")));
        }
        let stripped = version.as_str().substring_char(1, n);
        proof {
            assert(version@.subrange(1, n as int) =~= version@.skip(1));
        }
        match Version::parse(stripped) {
            Ok(v) => Ok(VersionJSON { raw_version: version, version: v, details }),
            Err(e) => Err(e),
        }
    }

    /// The manifest's version.
    pub fn version(&self) -> (r: Version)
        ensures
            r@ == self@.version,
    {
        self.version.duplicate()
    }

    /// The manifest's version, borrowed.
    pub fn version_ref(&self) -> (r: &Version)
        ensures
            r@ == self@.version,
    {
        &self.version
    }

    /// The expected asset file name for this manifest's version on the given
    /// platform; fails where the platform has no naming rule.
    pub fn name(&self, os: Os, arch: Arch) -> (r: Result<String, Error>)
        ensures
            match r {
                Ok(n) => spec_asset_name(os, arch, self@.version.canon) == Some(n@),
                Err(e) => {
                    &&& e is PlatformUnsupported
                    &&& spec_asset_name(os, arch, self@.version.canon) is None
                },
            },
    {
        let suffix: &'static str = match (os, arch) {
            (Os::Macos, _) => "-macos-runtime-universal.zip",
            (Os::Linux, Arch::X86_64) => "-linux-x86_64.tar.gz",
            (Os::Linux, Arch::Aarch64) => "-linux-aarch64.tar.gz",
            (Os::Windows, Arch::X86_64) => "-win-x64.zip",
            (Os::Windows, Arch::Aarch64) => "-win-arm64.zip",
            _ => {
                return Err(Error::PlatformUnsupported);
            },
        };
        let mut s = String::from_str("MAA-v");
        s.append(self.version.as_str());
        s.append(suffix);
        proof {
            assert(s@ =~= "MAA-v"@ + self@.version.canon + suffix@);
        }
        Ok(s)
    }

    /// The first asset in the manifest whose name exactly equals the expected
    /// name for the given platform. Fails with `PlatformUnsupported` where no
    /// naming rule exists, and with `AssetNotFound` where no asset has the
    /// expected name.
    pub fn asset(&self, os: Os, arch: Arch) -> (r: Result<&Asset, Error>)
        ensures
            match r {
                Ok(a) => {
                    &&& spec_asset_name(os, arch, self@.version.canon) matches Some(n)
                    &&& find_asset(self@.assets, n) matches Some(i)
                    &&& a@ == self@.assets[i]
                },
                Err(e) => match e {
                    Error::PlatformUnsupported => spec_asset_name(
                        os,
                        arch,
                        self@.version.canon,
                    ) is None,
                    Error::AssetNotFound(n) => {
                        &&& spec_asset_name(os, arch, self@.version.canon) == Some(n@)
                        &&& find_asset(self@.assets, n@) is None
                    },
                    _ => false,
                },
            },
    {
        let asset_name = match self.name(os, arch) {
            Ok(n) => n,
            Err(e) => {
                return Err(e);
            },
        };
        let mut i: usize = 0;
        let len = self.details.assets.len();
        while i < len
            invariant
                len == self.details.assets.len(),
                0 <= i <= len,
                forall|j: int| 0 <= j < i ==> (#[trigger] self@.assets[j].name) != asset_name@,
                spec_asset_name(os, arch, self@.version.canon) == Some(asset_name@),
            decreases len - i,
        {
            if str_eq(self.details.assets[i].name.as_str(), asset_name.as_str()) {
                proof {
                    lemma_find_asset_at(self@.assets, asset_name@, i as int);
                }
                return Ok(&self.details.assets[i]);
            }
            i = i + 1;
        }
        proof {
            lemma_find_asset_none(self@.assets, asset_name@);
        }
        Err(Error::AssetNotFound(asset_name))
    }
}

} // verus!
