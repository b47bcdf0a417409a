//! The error taxonomy of a configuration pass.  Every failure is terminal
//! for the pass that raised it: nothing is retried inside the library.

use vstd::prelude::*;
use vstd::string::StringExecFns;
use crate::sys::{Arch, OS};

verus! {

/// The environment variables that may name a local artifact root.
#[derive(Debug, Clone, Copy, PartialEq, Eq, Structural)]
pub enum EnvVarName {
    VcLtl,
    YyThunks,
}

impl EnvVarName {
    /// The variable's name as it appears in the environment.
    pub open spec fn spec_name(self) -> Seq<char> {
        match self {
            EnvVarName::VcLtl => "VC_LTL"@,
            EnvVarName::YyThunks => "YY_THUNKS"@,
        }
    }

    /// The variable's name as it appears in the environment.
    pub fn name(&self) -> (r: &'static str)
        ensures
            r@ == self.spec_name(),
    {
        match self {
            EnvVarName::VcLtl => "VC_LTL",
            EnvVarName::YyThunks => "YY_THUNKS",
        }
    }
}

/// Which step of an artifact acquisition failed.  Each is fatal to that
/// artifact's resolution and is never retried by the library.
#[derive(Debug, Clone, Copy, PartialEq, Eq, Structural)]
pub enum AcquisitionStage {
    /// The fetch itself failed: no connection, a timeout, or a transport
    /// error.
    Network,
    /// The server answered with a non-success HTTP status.
    HttpStatus,
    /// The archive could not be extracted into the cache directory.
    Extraction,
}

pub type ThunkResult<T> = Result<T, ThunkError>;

/// Why a configuration pass failed.
#[non_exhaustive]
#[derive(Debug, Clone, Copy, PartialEq, Eq, Structural)]
pub enum ThunkError {
    /// The target platform is not the supported legacy toolchain pair;
    /// only Windows with the MSVC environment is supported.
    UnsupportedPlatform,
    /// The target architecture is outside the closed supported set.
    UnsupportedArch,
    /// The OS and architecture are valid on their own, but the
    /// compatibility library ships no snapshot for the pair.
    UnsupportedByVCLTL(OS, Arch),
    /// The legacy shim ships objects for x86 and x64 only.
    UnsupportedByYYThunks,
    /// No explicit artifact root was given and the named environment
    /// variable is not set either.
    EnvNotFound(EnvVarName),
    /// Fetching or extracting a remote artifact failed at the given
    /// stage; the pass aborts rather than retry.
    AcquisitionFailure(AcquisitionStage),
}

impl ThunkError {
    /// The human-readable diagnostic for this error.
    pub open spec fn spec_message(self) -> Seq<char> {
        match self {
            ThunkError::UnsupportedPlatform => "Only `Windows(MSVC)` is supported!"@,
            ThunkError::UnsupportedArch => "Only `x86`, `x86_64` and `aarch64` are supported!"@,
            ThunkError::UnsupportedByVCLTL(os, arch) => "`Windows "@ + os.spec_name() + "("@
                + arch.spec_name() + ")` is unsupported by VC-LTL5!"@,
            ThunkError::UnsupportedByYYThunks => "Only `x86` and `x86_64` are supported!"@,
            ThunkError::EnvNotFound(env) => "You need to set environment variable `"@
                + env.spec_name() + "` as default!"@,
            ThunkError::AcquisitionFailure(AcquisitionStage::Network) => "Artifact download failed: network error!"@,
            ThunkError::AcquisitionFailure(AcquisitionStage::HttpStatus) => "Artifact download failed: the server returned an error status!"@,
            ThunkError::AcquisitionFailure(AcquisitionStage::Extraction) => "Artifact archive extraction failed!"@,
        }
    }

    /// The human-readable diagnostic for this error.
    pub fn to_string(&self) -> (r: String)
        ensures
            r@ == self.spec_message(),
    {
        match self {
            ThunkError::UnsupportedPlatform => String::from_str("Only `Windows(MSVC)` is supported!"),
            ThunkError::UnsupportedArch => String::from_str(
                "Only `x86`, `x86_64` and `aarch64` are supported!",
            ),
            ThunkError::UnsupportedByVCLTL(os, arch) => String::from_str("`Windows ").concat(
                os.to_string().as_str(),
            ).concat("(").concat(arch.to_string().as_str()).concat(
                ")` is unsupported by VC-LTL5!",
            ),
            ThunkError::UnsupportedByYYThunks => String::from_str(
                "Only `x86` and `x86_64` are supported!",
            ),
            ThunkError::EnvNotFound(env) => String::from_str(
                "You need to set environment variable `",
            ).concat(env.name()).concat("` as default!"),
            ThunkError::AcquisitionFailure(AcquisitionStage::Network) => String::from_str(
                "Artifact download failed: network error!",
            ),
            ThunkError::AcquisitionFailure(AcquisitionStage::HttpStatus) => String::from_str(
                "Artifact download failed: the server returned an error status!",
            ),
            ThunkError::AcquisitionFailure(AcquisitionStage::Extraction) => String::from_str(
                "Artifact archive extraction failed!",
            ),
        }
    }
}

} // verus!
