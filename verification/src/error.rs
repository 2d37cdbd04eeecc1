//! Errors reported by the library's own logic: bridge discovery coming up
//! empty, and the ways a configuration file can fail to yield a username.

use vstd::prelude::*;

verus! {

/// Why a command could not be carried out, short of a bridge call failing.
#[derive(Debug, PartialEq, Eq, Structural, Clone, Copy)]
pub enum HueError {
    /// Network discovery returned no candidate bridge addresses.
    NoBridgeFound,
    /// No configuration file was found.
    ConfigFileMissing,
    /// The configuration file is not valid TOML.
    ConfigInvalid,
    /// The configuration file parsed, but holds no string `username` entry.
    ConfigMissingUsername,
}

impl HueError {
    /// The user-facing description of this error.
    pub fn message(&self) -> (r: String)
        ensures
            *self is NoBridgeFound ==> r@ == "No bridge IP addresses found on the network"@,
            *self is ConfigFileMissing ==> r@ == "no hue config file found in .config/hue"@,
            *self is ConfigInvalid ==> r@ == "failed to parse config file"@,
            *self is ConfigMissingUsername ==> r@ == "config file has no username entry"@,
    {
        match self {
            HueError::NoBridgeFound => "No bridge IP addresses found on the network".to_owned(),
            HueError::ConfigFileMissing => "no hue config file found in .config/hue".to_owned(),
            HueError::ConfigInvalid => "failed to parse config file".to_owned(),
            HueError::ConfigMissingUsername => "config file has no username entry".to_owned(),
        }
    }
}

} // verus!
