//! The configuration that is saved between runs: the account last used.

use std::path::PathBuf;
use vstd::prelude::*;

verus! {

/// A path of the file system (std's `PathBuf`); only carried here.
#[verifier::external_type_specification]
#[verifier::external_body]
pub struct ExPathBuf(PathBuf);

/// The account: server address and user name.
#[derive(Debug, Clone, PartialEq)]
pub struct Credentials {
    pub server: String,
    pub username: String,
}

impl Credentials {
    /// Empty server and user name.
    pub fn new() -> (c: Self)
        ensures
            c.server@ == Seq::<char>::empty(),
            c.username@ == Seq::<char>::empty(),
    {
        Credentials { server: String::new(), username: String::new() }
    }

    /// Whether both the user name and the server are given.
    pub open spec fn spec_is_complete(&self) -> bool {
        self.username@.len() > 0 && self.server@.len() > 0
    }

    /// Whether both the user name and the server are given.
    pub fn is_complete(&self) -> (r: bool)
        ensures
            r == self.spec_is_complete(),
    {
        !(self.username.as_str().is_empty() || self.server.as_str().is_empty())
    }
}

impl Default for Credentials {
    fn default() -> (c: Self)
        ensures
            c.server@ == Seq::<char>::empty(),
            c.username@ == Seq::<char>::empty(),
    {
        Credentials::new()
    }
}

/// The saved configuration.
#[derive(Debug, Clone, PartialEq)]
pub struct Config {
    pub credentials: Credentials,
}

impl Config {
    /// No account.
    pub fn new() -> (c: Self)
        ensures
            c.credentials.server@ == Seq::<char>::empty(),
            c.credentials.username@ == Seq::<char>::empty(),
    {
        Config { credentials: Credentials::new() }
    }
}

impl Default for Config {
    fn default() -> (c: Self)
        ensures
            c.credentials.server@ == Seq::<char>::empty(),
            c.credentials.username@ == Seq::<char>::empty(),
    {
        Config::new()
    }
}

/// The configuration and the file it is saved to.
#[derive(Debug)]
pub struct ConfigService {
    config: Config,
    path: PathBuf,
}

impl ConfigService {
    /// The configuration held.
    pub closed spec fn spec_config(&self) -> Config {
        self.config
    }

    /// The file the configuration is saved to.
    pub closed spec fn spec_path(&self) -> PathBuf {
        self.path
    }

    /// The configuration `config`, to be saved to `path`.
    pub fn from_parts(config: Config, path: PathBuf) -> (s: Self)
        ensures
            s.spec_config() == config,
            s.spec_path() == path,
    {
        ConfigService { config, path }
    }

    /// The configuration held.
    pub fn config(&self) -> (r: &Config)
        ensures
            *r == self.spec_config(),
    {
        &self.config
    }

    /// The file the configuration is saved to.
    pub fn path(&self) -> (r: &PathBuf)
        ensures
            *r == self.spec_path(),
    {
        &self.path
    }

    /// Records the account in the configuration; the file is unchanged
    /// until it is saved.
    pub fn set_credentials(&mut self, server: &str, username: &str)
        ensures
            final(self).spec_config().credentials.server@ == server@,
            final(self).spec_config().credentials.username@ == username@,
            final(self).spec_path() == old(self).spec_path(),
    {
        self.config.credentials.server = server.to_owned();
        self.config.credentials.username = username.to_owned();
    }
}

} // verus!
