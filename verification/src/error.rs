//! The ways in which resolving a configuration can fail.

use vstd::prelude::*;

verus! {

/// Which field of the configuration was refused.
#[derive(Debug, Clone, Copy, Hash, PartialEq, Eq, Structural)]
pub enum ConfigError {
    /// The directory does not exist, cannot be made canonical, or is a
    /// regular file.
    InvalidDirectory,
    /// The algorithm name matches no supported algorithm.
    UnsupportedAlgorithm,
    /// The depth is not a base-ten 32-bit signed integer.
    MalformedDepth,
}

impl ConfigError {
    /// The text that describes this error to a user.
    pub open spec fn spec_message(self) -> Seq<char> {
        match self {
            ConfigError::InvalidDirectory => "DIRECTORY must be an existing directory."@,
            ConfigError::UnsupportedAlgorithm => "algorithm is not one of the supported hashing algorithms."@,
            ConfigError::MalformedDepth => "depth is not a base-ten 32-bit integer."@,
        }
    }

    /// Describe this error to a user.
    pub fn message(&self) -> (r: String)
        ensures
            r@ == self.spec_message(),
    {
        match self {
            ConfigError::InvalidDirectory => "DIRECTORY must be an existing directory.".to_owned(),
            ConfigError::UnsupportedAlgorithm => "algorithm is not one of the supported hashing algorithms.".to_owned(),
            ConfigError::MalformedDepth => "depth is not a base-ten 32-bit integer.".to_owned(),
        }
    }
}

} // verus!
