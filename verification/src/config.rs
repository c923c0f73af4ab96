//! Configuration of the self-update path: release channel, manifest API base
//! URL and download base URL. URL overrides from the process environment are
//! read once at startup by the surrounding program and threaded in through
//! the setters; the defaults here are the canonical public endpoints.

use vstd::prelude::*;
use vstd::string::*;

use crate::channel::Channel;

verus! {

/// `s` with a trailing `/` appended unless it already ends in one.
pub open spec fn normalize_seq(s: Seq<char>) -> Seq<char> {
    if s.len() > 0 && s.last() == '/' {
        s
    } else {
        s.push('/')
    }
}

/// Append a trailing `/` to `url` unless it already ends in one.
pub fn normalize_url(url: &str) -> (r: String)
    ensures
        r@ == normalize_seq(url@),
{
    let n = url.unicode_len();
    let mut s = String::from_str(url);
    proof {
        reveal_strlit("/");
    }
    if n == 0 || url.get_char(n - 1) != '/' {
        s.append("/");
        proof {
            assert(s@ =~= url@.push('/'));
        }
    }
    s
}

/// Which optional pieces of the command-line component are installed.
pub struct CLIComponents {
    pub binary: bool,
}

impl Default for CLIComponents {
    fn default() -> (r: Self)
        ensures
            r.binary == false,
    {
        CLIComponents { binary: false }
    }
}

/// Channel plus the two base URLs of the self-update path.
pub struct Config {
    channel: Channel,
    api_url: String,
    download_url: String,
    components: CLIComponents,
}

/// Canonical manifest base URL of the self-update path.
pub fn default_api_url() -> (r: String)
    ensures
        r@ == "https://github.com/MaaAssistantArknights/maa-cli/raw/version/"@,
{
    String::from_str("https://github.com/MaaAssistantArknights/maa-cli/raw/version/")
}

/// Canonical download base URL of the self-update path.
pub fn default_download_url() -> (r: String)
    ensures
        r@ == "https://github.com/MaaAssistantArknights/maa-cli/releases/download/"@,
{
    String::from_str("https://github.com/MaaAssistantArknights/maa-cli/releases/download/")
}

impl Default for Config {
    fn default() -> (r: Self)
        ensures
            r.spec_channel() == Channel::Stable,
            r.spec_api_url() == "https://github.com/MaaAssistantArknights/maa-cli/raw/version/"@,
            r.spec_download_url()
                == "https://github.com/MaaAssistantArknights/maa-cli/releases/download/"@,
            r.spec_components().binary == false,
    {
        Config {
            channel: Channel::Stable,
            api_url: default_api_url(),
            download_url: default_download_url(),
            components: CLIComponents { binary: false },
        }
    }
}

impl Config {
    /// A configuration with every field given explicitly.
    pub fn new(channel: Channel, api_url: String, download_url: String, components: CLIComponents)
        -> (r: Config)
        ensures
            r.spec_channel() == channel,
            r.spec_api_url() == api_url@,
            r.spec_download_url() == download_url@,
            r.spec_components() == components,
    {
        Config { channel, api_url, download_url, components }
    }

    /// The configured channel.
    pub closed spec fn spec_channel(&self) -> Channel {
        self.channel
    }

    /// The configured manifest base URL, as given.
    pub closed spec fn spec_api_url(&self) -> Seq<char> {
        self.api_url@
    }

    /// The configured download base URL, as given.
    pub closed spec fn spec_download_url(&self) -> Seq<char> {
        self.download_url@
    }

    /// The configured components.
    pub closed spec fn spec_components(&self) -> CLIComponents {
        self.components
    }

    pub fn channel(&self) -> (r: Channel)
        ensures
            r == self.spec_channel(),
    {
        self.channel
    }

    pub fn set_channel(&mut self, channel: Channel) -> (r: &Self)
        ensures
            final(self).spec_channel() == channel,
            final(self).spec_api_url() == old(self).spec_api_url(),
            final(self).spec_download_url() == old(self).spec_download_url(),
            final(self).spec_components() == old(self).spec_components(),
            r == *final(self),
    {
        self.channel = channel;
        self
    }

    /// The manifest URL for the configured channel: the normalized base URL
    /// followed by the lowercase channel name and `.json`.
    pub fn api_url(&self) -> (r: String)
        ensures
            r@ == normalize_seq(self.spec_api_url()) + self.spec_channel().name_seq()
                + ".json"@,
    {
        let mut s = normalize_url(self.api_url.as_str());
        s.append(self.channel.name());
        s.append(".json");
        proof {
            assert(s@ =~= normalize_seq(self.spec_api_url()) + self.spec_channel().name_seq()
                + ".json"@);
        }
        s
    }

    pub fn set_api_url(&mut self, api_url: &str) -> (r: &Self)
        ensures
            final(self).spec_api_url() == api_url@,
            final(self).spec_channel() == old(self).spec_channel(),
            final(self).spec_download_url() == old(self).spec_download_url(),
            final(self).spec_components() == old(self).spec_components(),
            r == *final(self),
    {
        self.api_url = String::from_str(api_url);
        self
    }

    /// The download URL of the artifact `name` released under `tag`: the
    /// normalized base URL followed by `tag`, `/` and `name`.
    pub fn download_url(&self, tag: &str, name: &str) -> (r: String)
        ensures
            r@ == normalize_seq(self.spec_download_url()) + tag@ + "/"@ + name@,
    {
        let mut s = normalize_url(self.download_url.as_str());
        s.append(tag);
        s.append("/");
        s.append(name);
        proof {
            assert(s@ =~= normalize_seq(self.spec_download_url()) + tag@ + "/"@ + name@);
        }
        s
    }

    pub fn set_download_url(&mut self, download_url: &str) -> (r: &Self)
        ensures
            final(self).spec_download_url() == download_url@,
            final(self).spec_channel() == old(self).spec_channel(),
            final(self).spec_api_url() == old(self).spec_api_url(),
            final(self).spec_components() == old(self).spec_components(),
            r == *final(self),
    {
        self.download_url = String::from_str(download_url);
        self
    }

    pub fn components(&self) -> (r: &CLIComponents)
        ensures
            r == self.spec_components(),
    {
        &self.components
    }
}

} // verus!
