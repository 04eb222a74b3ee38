//! The bot's configuration, as the library reads it.
use vstd::prelude::*;
use vstd::string::*;
use std::collections::BTreeSet;
use crate::oknoid::{ChatId, UserId};

verus! {

broadcast use {vstd::laws_cmp::group_laws_cmp, vstd::std_specs::btree::group_btree_axioms};

/// File ids of the banner pictures of the bot's screens.
pub struct Banners {
    pub main: String,
    pub top: String,
    pub unit: String,
    pub support: String,
}

pub struct Config {
    pub token: String,
    /// Where support requests and reports go.
    pub support_chat: ChatId,
    pub support_categories: Vec<String>,
    pub support_categories_layout: Vec<Vec<usize>>,
    pub super_admins: BTreeSet<UserId>,
    /// The directory of the bot's files.
    pub storage: String,
    pub banners: Banners,
}

/// Where the bot keeps its files unless the configuration says otherwise.
pub fn default_storage_path() -> (path: String)
    ensures
        path@ == "/var/oktebot"@,
{
    String::from_str("/var/oktebot")
}

/// The configuration file: the one that `OKTEBOT_CONFIG` names, else `/etc/oktebot.toml`.
pub fn config_path<'a>(env_value: Option<&'a str>) -> (r: &'a str)
    ensures
        r@ == match env_value {
            Some(p) => p@,
            None => "/etc/oktebot.toml"@,
        },
{
    match env_value {
        Some(p) => p,
        None => "/etc/oktebot.toml",
    }
}

impl Config {
    /// Super admins are named by the configuration.
    pub fn is_super_admin(&self, id: UserId) -> (r: bool)
        ensures
            r == self.super_admins@.contains(id),
    {
        self.super_admins.contains(&id)
    }
}

} // verus!
