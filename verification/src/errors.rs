//! Error taxonomy of the bootstrap core, split by the stage that can raise
//! each error and by which side of the host/child boundary observes it.

use vstd::prelude::*;

verus! {

/// Host-side failure to create the isolated process. Surfaced synchronously
/// to the launch caller before the child ever unblocks.
#[derive(Clone, Copy, Debug, PartialEq, Eq, Structural)]
pub enum LaunchError {
    /// The host lacks the privilege to create the requested namespaces.
    PermissionDenied,
    /// The namespace flag combination (or the spec itself) is rejected.
    UnsupportedConfiguration,
    /// Stack or memory allocation failed.
    ResourceExhausted,
}

/// Host-side failure while writing the identity-mapping control records.
#[derive(Clone, Copy, Debug, PartialEq, Eq, Structural)]
pub enum MapError {
    /// Malformed or overlapping identity ranges, caught before any write.
    InvalidMapping,
    /// Protocol violation: the target process was already mapped.
    AlreadyMapped,
}

/// Child-side failure while narrowing the capability sets. Fatal to the
/// isolated process only; the host observes it through the exit status.
#[derive(Clone, Copy, Debug, PartialEq, Eq, Structural)]
pub enum CapError {
    /// The allow-list asks to retain a capability the process does not hold.
    InsufficientPrivilege,
}

impl LaunchError {
    /// Human-readable name of the error, for host-side reporting.
    pub fn describe(&self) -> (r: &'static str)
        ensures
            self is PermissionDenied ==> r@ == "permission denied"@,
            self is UnsupportedConfiguration ==> r@ == "unsupported configuration"@,
            self is ResourceExhausted ==> r@ == "resource exhausted"@,
    {
        match self {
            LaunchError::PermissionDenied => "permission denied",
            LaunchError::UnsupportedConfiguration => "unsupported configuration",
            LaunchError::ResourceExhausted => "resource exhausted",
        }
    }
}

/// Classifies the operating-system error number returned by the
/// process-creation primitive into the launch taxonomy: `EPERM`/`EACCES`
/// mean missing privilege, `EAGAIN`/`ENOMEM`/`ENOSPC` mean exhausted
/// resources, and everything else (`EINVAL` above all) is a flag
/// combination the kernel refused.
pub fn classify_launch_errno(errno: i32) -> (r: LaunchError)
    ensures
        (errno == 1 || errno == 13) ==> r is PermissionDenied,
        (errno == 11 || errno == 12 || errno == 28) ==> r is ResourceExhausted,
        !(errno == 1 || errno == 13 || errno == 11 || errno == 12 || errno == 28) ==> r
            is UnsupportedConfiguration,
{
    if errno == 1 || errno == 13 {
        LaunchError::PermissionDenied
    } else if errno == 11 || errno == 12 || errno == 28 {
        LaunchError::ResourceExhausted
    } else {
        LaunchError::UnsupportedConfiguration
    }
}

} // verus!
