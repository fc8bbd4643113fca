//! The set of kernel namespaces a launch composes for its isolated process.

use vstd::prelude::*;

verus! {

/// Which of the seven independent namespace kinds the isolated process
/// enters. When the user namespace is requested, an identity-mapping phase
/// is mandatory before the child may perform any privileged operation.
#[derive(Clone, Copy, Debug, PartialEq, Eq, Structural)]
pub struct NamespaceFlagSet {
    pub mount: bool,
    pub pid: bool,
    pub uts: bool,
    pub user: bool,
    pub ipc: bool,
    pub network: bool,
    pub cgroup: bool,
}

impl NamespaceFlagSet {
    /// The empty composition: no isolation requested.
    pub fn none() -> (r: NamespaceFlagSet)
        ensures
            !r.mount && !r.pid && !r.uts && !r.user && !r.ipc && !r.network && !r.cgroup,
    {
        NamespaceFlagSet {
            mount: false,
            pid: false,
            uts: false,
            user: false,
            ipc: false,
            network: false,
            cgroup: false,
        }
    }

    /// Every namespace kind at once: full isolation.
    pub fn all() -> (r: NamespaceFlagSet)
        ensures
            r.mount && r.pid && r.uts && r.user && r.ipc && r.network && r.cgroup,
    {
        NamespaceFlagSet {
            mount: true,
            pid: true,
            uts: true,
            user: true,
            ipc: true,
            network: true,
            cgroup: true,
        }
    }

    /// Whether this composition requests a user namespace, and with it the
    /// mandatory identity-mapping phase.
    pub fn requests_user(&self) -> (r: bool)
        ensures
            r == self.user,
    {
        self.user
    }

    /// The kernel flag word this composition stands for.
    pub open spec fn spec_flag_bits(&self) -> u64 {
        (if self.mount {
            MOUNT_FLAG_BIT
        } else {
            0
        }) | (if self.pid {
            PID_FLAG_BIT
        } else {
            0
        }) | (if self.uts {
            UTS_FLAG_BIT
        } else {
            0
        }) | (if self.user {
            USER_FLAG_BIT
        } else {
            0
        }) | (if self.ipc {
            IPC_FLAG_BIT
        } else {
            0
        }) | (if self.network {
            NETWORK_FLAG_BIT
        } else {
            0
        }) | (if self.cgroup {
            CGROUP_FLAG_BIT
        } else {
            0
        })
    }

    /// Composes the requested namespace kinds into the single flag word of
    /// the creation request.
    pub fn compose_flag_bits(&self) -> (r: u64)
        ensures
            r == self.spec_flag_bits(),
    {
        (if self.mount {
            MOUNT_FLAG_BIT
        } else {
            0
        }) | (if self.pid {
            PID_FLAG_BIT
        } else {
            0
        }) | (if self.uts {
            UTS_FLAG_BIT
        } else {
            0
        }) | (if self.user {
            USER_FLAG_BIT
        } else {
            0
        }) | (if self.ipc {
            IPC_FLAG_BIT
        } else {
            0
        }) | (if self.network {
            NETWORK_FLAG_BIT
        } else {
            0
        }) | (if self.cgroup {
            CGROUP_FLAG_BIT
        } else {
            0
        })
    }
}

/// The kernel's flag value for a new mount namespace, from `clone(2)`.
pub const MOUNT_FLAG_BIT: u64 = 0x0002_0000;

/// The kernel's flag value for a new cgroup namespace, from `clone(2)`.
pub const CGROUP_FLAG_BIT: u64 = 0x0200_0000;

/// The kernel's flag value for a new UTS namespace, from `clone(2)`.
pub const UTS_FLAG_BIT: u64 = 0x0400_0000;

/// The kernel's flag value for a new IPC namespace, from `clone(2)`.
pub const IPC_FLAG_BIT: u64 = 0x0800_0000;

/// The kernel's flag value for a new user namespace, from `clone(2)`.
pub const USER_FLAG_BIT: u64 = 0x1000_0000;

/// The kernel's flag value for a new pid namespace, from `clone(2)`.
pub const PID_FLAG_BIT: u64 = 0x2000_0000;

/// The kernel's flag value for a new network namespace, from `clone(2)`.
pub const NETWORK_FLAG_BIT: u64 = 0x4000_0000;

} // verus!
