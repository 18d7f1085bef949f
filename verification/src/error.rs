//! Configuration errors: the failures a launch reports before any process
//! has been created.

use vstd::prelude::*;
use vstd::string::StringExecFns;

verus! {

/// A launch-time configuration error.  Each variant is fatal and is returned
/// before the topology creates a single process.
#[derive(Debug, Clone, Copy, PartialEq, Eq, Structural)]
pub enum LaunchError {
    /// The core set is empty: there is nothing to spawn a worker on.
    EmptyCoreSet,
    /// No client callback was provided, so a worker would have nothing to run.
    MissingClientCallback,
    /// The environment marker that names a worker's core is present but does
    /// not hold a valid core index.
    MalformedEnvMarker,
}

impl LaunchError {
    /// A human-readable description of the error.
    pub fn message(&self) -> String {
        match self {
            LaunchError::EmptyCoreSet => String::from_str(
                "no cores to spawn on given, cannot launch anything",
            ),
            LaunchError::MissingClientCallback => String::from_str("no client callback provided"),
            LaunchError::MalformedEnvMarker => String::from_str(
                "environment marker present but not a valid core index",
            ),
        }
    }
}

} // verus!
