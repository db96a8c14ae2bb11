//! Container engines: the supported kinds and how one is selected.

use vstd::prelude::*;

use crate::errors::CrossLlvmError;

verus! {

/// A supported container engine.
#[derive(Clone, Copy, Debug, PartialEq, Eq, Structural)]
pub enum ContainerEngine {
    Docker,
    Podman,
}

impl ContainerEngine {
    /// The name of the engine's executable.
    pub open spec fn spec_name(self) -> Seq<char> {
        match self {
            ContainerEngine::Docker => "docker"@,
            ContainerEngine::Podman => "podman"@,
        }
    }

    pub fn name(&self) -> (r: String)
        ensures
            r@ == self.spec_name(),
    {
        match self {
            ContainerEngine::Docker => "docker".to_owned(),
            ContainerEngine::Podman => "podman".to_owned(),
        }
    }

    /// Probe the executable search path and pick the first engine found,
    /// docker before podman. Which engines the probes find depends on the
    /// host environment; `select` fixes what each outcome yields.
    pub fn autodetect() -> (r: Result<ContainerEngine, CrossLlvmError>)
        ensures
            r matches Err(e) ==> e == CrossLlvmError::ContainerEngineNotFound,
    {
        let docker_found = executable_on_path("docker");
        let podman_found = executable_on_path("podman");
        select(None, docker_found, podman_found)
    }
}

/// Which engine an invocation uses: the explicit choice when one was given
/// (unchecked: a missing binary surfaces later, when it is spawned), else the
/// first engine the probes found, docker before podman, and
/// `ContainerEngineNotFound` when the probes found neither.
pub open spec fn spec_select(
    explicit: Option<ContainerEngine>,
    docker_found: bool,
    podman_found: bool,
) -> Result<ContainerEngine, CrossLlvmError> {
    match explicit {
        Some(e) => Ok(e),
        None => if docker_found {
            Ok(ContainerEngine::Docker)
        } else if podman_found {
            Ok(ContainerEngine::Podman)
        } else {
            Err(CrossLlvmError::ContainerEngineNotFound)
        },
    }
}

/// Decide which engine to use, given an explicit choice and the two probe
/// results.
pub fn select(explicit: Option<ContainerEngine>, docker_found: bool, podman_found: bool) -> (r:
    Result<ContainerEngine, CrossLlvmError>)
    ensures
        r == spec_select(explicit, docker_found, podman_found),
{
    match explicit {
        Some(e) => Ok(e),
        None => if docker_found {
            Ok(ContainerEngine::Docker)
        } else if podman_found {
            Ok(ContainerEngine::Podman)
        } else {
            Err(CrossLlvmError::ContainerEngineNotFound)
        },
    }
}

/// Relies on `which::which`: `Ok` exactly when an executable with the given
/// name is found on the search path. The answer depends on the host
/// environment, so nothing is promised of it.
#[verifier::external_body]
pub(crate) fn executable_on_path(name: &str) -> bool {
    which::which(name).is_ok()
}

} // verus!
