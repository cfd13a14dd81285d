//! Daemon configuration values sourced from environment variables.  Reading
//! the process environment belongs to the surrounding program; this module
//! holds the values and assembles them into a partial configuration block.

use vstd::prelude::*;

verus! {

/// Where a block of configuration values came from.
#[derive(Clone, Copy, Debug, PartialEq, Eq)]
pub enum ConfigSource {
    Environment,
}

/// A block of configuration values assembled from one source.
#[derive(Clone, Debug, PartialEq)]
pub struct PartialConfig {
    source: ConfigSource,
    state_dir: Option<String>,
    cert_dir: Option<String>,
}

impl PartialConfig {
    pub closed spec fn spec_source(&self) -> ConfigSource {
        self.source
    }

    pub closed spec fn spec_state_dir(&self) -> Option<String> {
        self.state_dir
    }

    pub closed spec fn spec_cert_dir(&self) -> Option<String> {
        self.cert_dir
    }

    /// An empty block from the given source, with no value set yet.
    pub fn new(source: ConfigSource) -> (c: Self)
        ensures
            c.spec_source() == source,
            c.spec_state_dir() is None,
            c.spec_cert_dir() is None,
    {
        PartialConfig { source, state_dir: None, cert_dir: None }
    }

    /// The same block with the state directory replaced.
    pub fn with_state_dir(self, state_dir: Option<String>) -> (c: Self)
        ensures
            c.spec_source() == self.spec_source(),
            c.spec_state_dir() == state_dir,
            c.spec_cert_dir() == self.spec_cert_dir(),
    {
        PartialConfig { state_dir, ..self }
    }

    /// The same block with the certificate directory replaced.
    pub fn with_cert_dir(self, cert_dir: Option<String>) -> (c: Self)
        ensures
            c.spec_source() == self.spec_source(),
            c.spec_state_dir() == self.spec_state_dir(),
            c.spec_cert_dir() == cert_dir,
    {
        PartialConfig { cert_dir, ..self }
    }

    pub fn source(&self) -> (s: ConfigSource)
        ensures
            s == self.spec_source(),
    {
        self.source
    }

    pub fn state_dir(&self) -> (d: &Option<String>)
        ensures
            *d == self.spec_state_dir(),
    {
        &self.state_dir
    }

    pub fn cert_dir(&self) -> (d: &Option<String>)
        ensures
            *d == self.spec_cert_dir(),
    {
        &self.cert_dir
    }
}

/// Holds configuration values defined as environment variables.
#[derive(Debug)]
pub struct EnvVarConfig {
    state_dir: Option<String>,
    cert_dir: Option<String>,
}

impl EnvVarConfig {
    pub closed spec fn spec_state_dir(&self) -> Option<String> {
        self.state_dir
    }

    pub closed spec fn spec_cert_dir(&self) -> Option<String> {
        self.cert_dir
    }

    /// Holds the optional state-directory and certificate-directory values;
    /// the surrounding program reads them from its environment and hands
    /// them in.
    pub fn new(state_dir: Option<String>, cert_dir: Option<String>) -> (c: Self)
        ensures
            c.spec_state_dir() == state_dir,
            c.spec_cert_dir() == cert_dir,
    {
        EnvVarConfig { state_dir, cert_dir }
    }

    /// Assembles the held values into a partial configuration block marked
    /// as coming from the environment.
    pub fn build(self) -> (c: PartialConfig)
        ensures
            c.spec_source() == ConfigSource::Environment,
            c.spec_state_dir() == self.spec_state_dir(),
            c.spec_cert_dir() == self.spec_cert_dir(),
    {
        PartialConfig::new(ConfigSource::Environment).with_cert_dir(self.cert_dir).with_state_dir(
            self.state_dir,
        )
    }
}

} // verus!
