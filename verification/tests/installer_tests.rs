use maa_cli::{
    default_core_api_url, Asset, Channel, Error, InstallAction, InstallEvent, MaaCore, Os, Arch,
    UpdateAction, UpdateEvent, UpdateOutcome, Version, VersionDetails, VersionJSON,
};

fn linux_manifest(version: &str) -> VersionJSON {
    let name = format!("MAA-{}-linux-x86_64.tar.gz", version);
    let assets = vec![Asset {
        name,
        size: 2048,
        browser_download_url: "https://primary.example/core.tar.gz".to_string(),
        mirrors: vec!["https://mirror.example/core.tar.gz".to_string()],
    }];
    VersionJSON::new(version.to_string(), VersionDetails { assets }).unwrap()
}

#[test]
fn manifest_url_joins_base_channel_and_suffix() {
    let core = MaaCore::new(Channel::Beta);
    assert_eq!(
        core.manifest_url(default_core_api_url().as_str()),
        "https://ota.maa.plus/MaaAssistantArknights/api/version/beta.json"
    );
    let stable = MaaCore::new(Channel::Stable);
    assert_eq!(stable.manifest_url("https://foo.bar/api"), "https://foo.bar/api/stable.json");
}

#[test]
fn version_output_parsing() {
    let v = MaaCore::parse_version_output("MaaCore v5.0.0\n").unwrap();
    assert_eq!(v.major(), 5);
    assert_eq!(v.minor(), 0);
    assert_eq!(v.patch(), 0);
    assert!(matches!(MaaCore::parse_version_output("short"), Err(Error::Parse(_))));
    assert!(matches!(
        MaaCore::parse_version_output("MaaCore vgarbage\n"),
        Err(Error::Parse(_))
    ));
}

#[test]
fn install_refused_when_already_installed() {
    let core = MaaCore::new(Channel::Stable);
    let flow = core.install(Os::Linux, Arch::X86_64, false, false, 10);
    assert_eq!(flow.next_action(), InstallAction::EnsureLibraryDir);
    let flow = flow.on_event(InstallEvent::DirsReady);
    assert_eq!(flow.next_action(), InstallAction::CheckLibraryFile);
    let flow = flow.on_event(InstallEvent::LibraryExists(true));
    assert_eq!(flow.next_action(), InstallAction::Finish);
    assert!(matches!(flow.into_result(), Err(Error::AlreadyInstalled)));
}

#[test]
fn forced_install_proceeds_over_existing() {
    let core = MaaCore::new(Channel::Stable);
    let flow = core
        .install(Os::Linux, Arch::X86_64, true, false, 10)
        .on_event(InstallEvent::DirsReady)
        .on_event(InstallEvent::LibraryExists(true));
    assert_eq!(flow.next_action(), InstallAction::PrepareDirs);
    let flow = flow
        .on_event(InstallEvent::DirsReady)
        .on_event(InstallEvent::Manifest(linux_manifest("v1.2.3")));
    assert_eq!(flow.next_action(), InstallAction::Download);
    assert_eq!(
        flow.current_asset().unwrap().name,
        "MAA-v1.2.3-linux-x86_64.tar.gz"
    );
    let flow = flow
        .on_event(InstallEvent::Downloaded)
        .on_event(InstallEvent::Extracted);
    assert!(flow.into_result().is_ok());
}

#[test]
fn install_surfaces_download_exhaustion() {
    let core = MaaCore::new(Channel::Stable);
    let flow = core
        .install(Os::Linux, Arch::X86_64, false, false, 10)
        .on_event(InstallEvent::DirsReady)
        .on_event(InstallEvent::LibraryExists(false))
        .on_event(InstallEvent::DirsReady)
        .on_event(InstallEvent::Manifest(linux_manifest("v1.2.3")))
        .on_event(InstallEvent::DownloadFailed);
    match flow.into_result() {
        Err(Error::DownloadExhausted(name)) => {
            assert_eq!(name, "MAA-v1.2.3-linux-x86_64.tar.gz");
        }
        _ => panic!("expected DownloadExhausted"),
    }
}

#[test]
fn install_surfaces_other_failures() {
    let core = MaaCore::new(Channel::Stable);
    let flow = core
        .install(Os::Linux, Arch::X86_64, false, false, 10)
        .on_event(InstallEvent::DirsFailed("library dir not writable".to_string()));
    assert!(matches!(flow.into_result(), Err(Error::Filesystem(_))));

    let flow = MaaCore::new(Channel::Stable)
        .install(Os::Linux, Arch::X86_64, false, false, 10)
        .on_event(InstallEvent::DirsReady)
        .on_event(InstallEvent::LibraryExists(false))
        .on_event(InstallEvent::DirsReady)
        .on_event(InstallEvent::FetchFailed("connection refused".to_string()));
    assert!(matches!(flow.into_result(), Err(Error::Network(_))));

    let flow = MaaCore::new(Channel::Stable)
        .install(Os::Other, Arch::Other, false, false, 10)
        .on_event(InstallEvent::DirsReady)
        .on_event(InstallEvent::LibraryExists(false))
        .on_event(InstallEvent::DirsReady)
        .on_event(InstallEvent::Manifest(linux_manifest("v1.2.3")));
    assert!(matches!(flow.into_result(), Err(Error::PlatformUnsupported)));

    let flow = MaaCore::new(Channel::Stable)
        .install(Os::Linux, Arch::X86_64, false, false, 10)
        .on_event(InstallEvent::DirsReady)
        .on_event(InstallEvent::LibraryExists(false))
        .on_event(InstallEvent::DirsReady)
        .on_event(InstallEvent::Manifest(linux_manifest("v1.2.3")))
        .on_event(InstallEvent::Downloaded)
        .on_event(InstallEvent::ExtractFailed("bad archive".to_string()));
    assert!(matches!(flow.into_result(), Err(Error::Extract(_))));
}

#[test]
fn update_is_noop_when_current() {
    let core = MaaCore::new(Channel::Stable);
    // Equal versions.
    let flow = core
        .update(Os::Linux, Arch::X86_64, false, 10)
        .on_event(UpdateEvent::Manifest(linux_manifest("v5.0.0")))
        .on_event(UpdateEvent::InstalledVersion(Version::parse("5.0.0").unwrap()));
    assert_eq!(flow.next_action(), UpdateAction::Finish);
    match flow.into_outcome() {
        Ok(UpdateOutcome::UpToDate(v)) => assert_eq!(v.as_str(), "5.0.0"),
        _ => panic!("expected UpToDate"),
    }
    // Installed newer than the manifest.
    let flow = core
        .update(Os::Linux, Arch::X86_64, false, 10)
        .on_event(UpdateEvent::Manifest(linux_manifest("v5.0.0")))
        .on_event(UpdateEvent::InstalledVersion(Version::parse("5.1.0").unwrap()));
    assert!(matches!(flow.into_outcome(), Ok(UpdateOutcome::UpToDate(_))));
}

#[test]
fn update_downloads_on_prerelease_installed() {
    // A pre-release of the manifest version is older than the release.
    let flow = MaaCore::new(Channel::Stable)
        .update(Os::Linux, Arch::X86_64, false, 10)
        .on_event(UpdateEvent::Manifest(linux_manifest("v5.0.0")))
        .on_event(UpdateEvent::InstalledVersion(Version::parse("5.0.0-alpha.1").unwrap()));
    assert_eq!(flow.next_action(), UpdateAction::Download);
}

#[test]
fn update_end_to_end_downloads_cleans_then_extracts() {
    let core = MaaCore::new(Channel::Stable);
    let flow = core.update(Os::Linux, Arch::X86_64, false, 10);
    assert_eq!(flow.next_action(), UpdateAction::FetchManifest);
    let flow = flow.on_event(UpdateEvent::Manifest(linux_manifest("v5.0.0")));
    assert_eq!(flow.next_action(), UpdateAction::QueryVersion);
    let installed = MaaCore::parse_version_output("MaaCore v4.9.0\n").unwrap();
    let flow = flow.on_event(UpdateEvent::InstalledVersion(installed));
    assert_eq!(flow.next_action(), UpdateAction::Download);
    assert_eq!(
        flow.current_asset().unwrap().name,
        "MAA-v5.0.0-linux-x86_64.tar.gz"
    );
    // Directories are cleared only after the download succeeded.
    let flow = flow.on_event(UpdateEvent::Downloaded);
    assert_eq!(flow.next_action(), UpdateAction::CleanDirs);
    let flow = flow.on_event(UpdateEvent::Cleaned);
    assert_eq!(flow.next_action(), UpdateAction::Extract);
    let flow = flow.on_event(UpdateEvent::Extracted);
    assert!(matches!(flow.into_outcome(), Ok(UpdateOutcome::Updated)));
    // A subsequent version query of the extracted component would report the
    // manifest version.
    let reported = MaaCore::parse_version_output("MaaCore v5.0.0\n").unwrap();
    assert!(reported.ge(&linux_manifest("v5.0.0").version()));
    assert!(linux_manifest("v5.0.0").version().ge(&reported));
}

#[test]
fn update_surfaces_failures() {
    let flow = MaaCore::new(Channel::Stable)
        .update(Os::Linux, Arch::X86_64, false, 10)
        .on_event(UpdateEvent::FetchFailed("timeout".to_string()));
    assert!(matches!(flow.into_outcome(), Err(Error::Network(_))));

    let flow = MaaCore::new(Channel::Stable)
        .update(Os::Linux, Arch::X86_64, false, 10)
        .on_event(UpdateEvent::Manifest(linux_manifest("v5.0.0")))
        .on_event(UpdateEvent::QueryFailed(Error::Parse("bad report".to_string())));
    assert!(matches!(flow.into_outcome(), Err(Error::Parse(_))));

    let flow = MaaCore::new(Channel::Stable)
        .update(Os::Linux, Arch::X86_64, false, 10)
        .on_event(UpdateEvent::Manifest(linux_manifest("v5.0.0")))
        .on_event(UpdateEvent::InstalledVersion(Version::parse("4.9.0").unwrap()))
        .on_event(UpdateEvent::Downloaded)
        .on_event(UpdateEvent::CleanFailed("resource dir busy".to_string()));
    assert!(matches!(flow.into_outcome(), Err(Error::Filesystem(_))));
}

#[test]
fn error_messages_carry_context() {
    assert_eq!(
        Error::AlreadyInstalled.message(),
        "MaaCore already exists, use `maa update` to update it or `maa install --force` to force reinstall"
    );
    assert_eq!(
        Error::DownloadExhausted("a.zip".to_string()).message(),
        "failed to download a.zip from every source"
    );
    assert_eq!(Error::Network("timeout".to_string()).message(), "failed to fetch: timeout");
    assert_eq!(Error::PlatformUnsupported.message(), "unsupported platform or architecture");
}
