//! Release channels selecting which manifest is fetched.

use vstd::prelude::*;

verus! {

/// Release track: selects the `{channel}.json` manifest and is embedded in
/// user-facing messages.
#[derive(Clone, Copy, PartialEq, Eq, Structural, Debug)]
pub enum Channel {
    Stable,
    Beta,
    Alpha,
}

impl Channel {
    /// Lowercase name of the channel, as used in manifest URLs.
    pub open spec fn name_seq(self) -> Seq<char> {
        match self {
            Channel::Stable => "stable"@,
            Channel::Beta => "beta"@,
            Channel::Alpha => "alpha"@,
        }
    }

    /// Lowercase name of the channel.
    pub fn name(&self) -> (r: &'static str)
        ensures
            r@ == self.name_seq(),
    {
        match self {
            Channel::Stable => "stable",
            Channel::Beta => "beta",
            Channel::Alpha => "alpha",
        }
    }
}

impl Default for Channel {
    /// The default channel is Stable.
    fn default() -> (r: Self)
        ensures
            r == Channel::Stable,
    {
        Channel::Stable
    }
}

} // verus!
