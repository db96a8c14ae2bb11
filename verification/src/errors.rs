//! Errors of the platform and container-engine resolution layer.

use vstd::prelude::*;

verus! {

/// Errors that platform or engine resolution can report.
#[derive(Clone, Copy, Debug, PartialEq, Eq, Structural)]
pub enum CrossLlvmError {
    /// No supported container engine (docker, podman) was found on the
    /// executable search path, and none was chosen explicitly.
    ContainerEngineNotFound,
}

impl CrossLlvmError {
    /// Human-readable description of the error.
    pub open spec fn spec_message(self) -> Seq<char> {
        "no supported container engine (docker, podman) was found"@
    }

    pub fn message(&self) -> (r: String)
        ensures
            r@ == self.spec_message(),
    {
        "no supported container engine (docker, podman) was found".to_owned()
    }
}

} // verus!
