//! The run configuration and its validation.

use vstd::prelude::*;
use crate::transform::{RenameMode, mode_ok};

verus! {

/// The configuration of a whole run, built once and read-only thereafter.
pub struct Config {
    pub mode: RenameMode,
    pub paths: Vec<String>,
    pub verbose: bool,
    pub dry_run: bool,
    pub force: bool,
    pub auto_number: bool,
}

impl Config {
    /// Fit to run: the mode's pattern (if any) compiles, and the two
    /// collision policies `force` and `auto_number` are not both requested.
    pub open spec fn wf(&self) -> bool {
        self.mode.wf() && !(self.force && self.auto_number)
    }
}

/// Why a configuration is rejected. Rejection is fatal and happens before
/// any file is touched.
#[derive(Debug, PartialEq)]
pub enum ConfigError {
    /// The regex pattern does not compile.
    InvalidPattern,
    /// `force` and `auto_number` were both requested.
    ConflictingFlags,
}

/// Validates a configuration before the run begins: `Ok` exactly for well
/// formed configurations, with conflicting flags reported ahead of an
/// invalid pattern.
pub fn check_config(config: &Config) -> (r: Result<(), ConfigError>)
    ensures
        r is Ok <==> config.wf(),
        config.force && config.auto_number ==> (r matches Err(e) && e is ConflictingFlags),
        !(config.force && config.auto_number) && !config.mode.wf() ==> (r matches Err(e)
            && e is InvalidPattern),
{
    if config.force && config.auto_number {
        Err(ConfigError::ConflictingFlags)
    } else if !mode_ok(&config.mode) {
        Err(ConfigError::InvalidPattern)
    } else {
        Ok(())
    }
}

} // verus!
