use maa_cli::{default_api_url, default_download_url, normalize_url, Channel, Config};

#[test]
fn channel() {
    assert_eq!(Config::default().channel(), Channel::default());
    assert_eq!(
        Config::default().set_channel(Channel::Alpha).channel(),
        Channel::Alpha,
    );
}

#[test]
fn maa_cli_api_url() {
    assert_eq!(
        Config::default().api_url(),
        "https://github.com/MaaAssistantArknights/maa-cli/raw/version/stable.json",
    );
    let mut config = Config::default();
    config.set_channel(Channel::Alpha);
    config.set_api_url("https://foo.bar/cli/");
    assert_eq!(config.api_url(), "https://foo.bar/cli/alpha.json");
}

#[test]
fn maa_cli_download_url() {
    assert_eq!(
        Config::default().download_url("v0.3.12", "maa_cli.zip"),
        "https://github.com/MaaAssistantArknights/maa-cli/releases/download/v0.3.12/maa_cli.zip",
    );
    let mut config = Config::default();
    config.set_download_url("https://foo.bar/download/");
    assert_eq!(
        config.download_url("v0.3.12", "maa_cli.zip"),
        "https://foo.bar/download/v0.3.12/maa_cli.zip",
    );
}

#[test]
fn default_urls_are_canonical() {
    assert_eq!(
        default_api_url(),
        "https://github.com/MaaAssistantArknights/maa-cli/raw/version/"
    );
    assert_eq!(
        default_download_url(),
        "https://github.com/MaaAssistantArknights/maa-cli/releases/download/"
    );
}

#[test]
fn normalize_url_appends_one_slash() {
    assert_eq!(normalize_url("https://foo.bar"), "https://foo.bar/");
    assert_eq!(normalize_url("https://foo.bar/"), "https://foo.bar/");
    assert_eq!(normalize_url(""), "/");
}

#[test]
fn channel_names_are_lowercase() {
    assert_eq!(Channel::Stable.name(), "stable");
    assert_eq!(Channel::Beta.name(), "beta");
    assert_eq!(Channel::Alpha.name(), "alpha");
}

#[test]
fn components_default_off() {
    assert!(!Config::default().components().binary);
}
