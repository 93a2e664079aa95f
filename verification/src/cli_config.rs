//! The persisted CLI configuration: named profiles and their public
//! summaries.

use vstd::prelude::*;
use crate::address::AccountAddress;

verus! {

/// An individual profile.
pub struct ProfileConfig {
    /// Account for commands.
    pub account: Option<AccountAddress>,
    /// URL for the rest endpoint.
    pub rest_url: Option<String>,
    /// URL for the faucet endpoint, if applicable.
    pub faucet_url: Option<String>,
}

impl Default for ProfileConfig {
    /// An empty profile.
    fn default() -> (r: Self)
        ensures
            r.account is None,
            r.rest_url is None,
            r.faucet_url is None,
    {
        ProfileConfig { account: None, rest_url: None, faucet_url: None }
    }
}

/// A profile without its private parts, fit to show.
pub struct ProfileSummary {
    pub has_private_key: bool,
    pub account: Option<AccountAddress>,
    pub rest_url: Option<String>,
    pub faucet_url: Option<String>,
}

impl ProfileSummary {
    /// The public summary of a profile. No private key is stored in this
    /// configuration, so the summary always reports none.
    pub fn from(config: &ProfileConfig) -> (r: ProfileSummary)
        ensures
            !r.has_private_key,
            r.account is Some <==> config.account is Some,
            r.account is Some ==> r.account->0@ == config.account->0@,
            r.rest_url == config.rest_url,
            r.faucet_url == config.faucet_url,
    {
        ProfileSummary {
            has_private_key: false,
            account: match &config.account {
                Some(a) => Some(a.duplicate()),
                None => None,
            },
            rest_url: match &config.rest_url {
                Some(u) => Some(u.clone()),
                None => None,
            },
            faucet_url: match &config.faucet_url {
                Some(u) => Some(u.clone()),
                None => None,
            },
        }
    }
}

/// Config saved to `.aptos/config.yaml`: the map of profile configs,
/// keyed by profile name.
pub struct CliConfig {
    pub profiles: Option<Vec<(String, ProfileConfig)>>,
}

impl Default for CliConfig {
    /// A fresh configuration holds an empty profile map rather than none.
    fn default() -> (r: Self)
        ensures
            r.profiles is Some,
            r.profiles->0@.len() == 0,
    {
        CliConfig { profiles: Some(Vec::new()) }
    }
}

} // verus!
