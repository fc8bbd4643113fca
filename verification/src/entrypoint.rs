//! ContainerEntrypoint: the decisions taken inside the isolated process.
//! The child parks on the readiness channel before touching anything that
//! assumes a finished identity mapping, proceeds only on the host's
//! proceed byte, narrows its capabilities strictly before exec, and on any
//! failure terminates with the stage's reserved exit code instead of
//! falling through. The blocking read, the capability syscalls and the
//! image replacement happen outside the library; every decision between
//! them is verified here against the lifecycle rules.

use vstd::prelude::*;

use crate::capability::{CapabilityAllowList, drop_to};
use crate::channel::{PHASE2_PROCEED, phase2_proceeds};
use crate::errors::CapError;
use crate::lifecycle::{LaunchEvent, LifecycleState, LifecycleTracker, Stage, failure_code_spec, failure_exit_code, stage_of};

verus! {

/// The child's half of the handshake: its allow-list and its own record
/// of the lifecycle.
pub struct ContainerEntrypoint {
    pub allow_list: CapabilityAllowList,
    pub tracker: LifecycleTracker,
}

impl ContainerEntrypoint {
    pub open spec fn wf(&self) -> bool {
        self.tracker.wf()
    }

    /// A fresh entrypoint, before the isolated process exists.
    pub fn new(allow_list: CapabilityAllowList, user_ns: bool) -> (r: ContainerEntrypoint)
        ensures
            r.wf(),
            r.tracker.user_ns == user_ns,
            r.tracker.state == LifecycleState::Created,
            r.allow_list == allow_list,
    {
        ContainerEntrypoint { allow_list, tracker: LifecycleTracker::new(user_ns) }
    }

    /// The child is running inside its composed namespaces.
    pub fn note_entered(&mut self)
        requires
            old(self).wf(),
            old(self).tracker.state == LifecycleState::Created,
        ensures
            final(self).wf(),
            final(self).tracker.state == LifecycleState::NamespaceEntered,
            final(self).allow_list == old(self).allow_list,
            final(self).tracker.user_ns == old(self).tracker.user_ns,
    {
        self.tracker.advance(LaunchEvent::NamespacesEntered);
    }

    /// The child is about to block on the readiness channel.
    pub fn park(&mut self)
        requires
            old(self).wf(),
            old(self).tracker.state == LifecycleState::NamespaceEntered,
        ensures
            final(self).wf(),
            final(self).tracker.state == LifecycleState::WaitingForIdentityMap,
            final(self).allow_list == old(self).allow_list,
            final(self).tracker.user_ns == old(self).tracker.user_ns,
    {
        self.tracker.advance(LaunchEvent::ChildParked);
    }

    /// The wait returned with the host's byte. Only the proceed byte means
    /// the identity mapping finished; any other byte is the host's failure
    /// indication, and the child ends at `Failed(WaitingForIdentityMap)` —
    /// it terminates itself rather than execing anything.
    pub fn unblock(&mut self, byte: u8) -> (proceed: bool)
        requires
            old(self).wf(),
            old(self).tracker.state == LifecycleState::WaitingForIdentityMap,
        ensures
            final(self).wf(),
            final(self).allow_list == old(self).allow_list,
            final(self).tracker.user_ns == old(self).tracker.user_ns,
            proceed <==> byte == PHASE2_PROCEED,
            proceed ==> final(self).tracker.state == LifecycleState::IdentityMapped,
            !proceed ==> final(self).tracker.state == LifecycleState::Failed(
                Stage::WaitingForIdentityMap,
            ),
    {
        if phase2_proceeds(byte) {
            if self.tracker.user_ns {
                self.tracker.advance(LaunchEvent::MapApplied);
            } else {
                self.tracker.advance(LaunchEvent::MapSkipped);
            }
            true
        } else {
            self.tracker.fail_current_stage();
            false
        }
    }

    /// Narrows the process to the allow-list, strictly before exec. A
    /// refusal — an allow-list beyond the held capabilities, or any kernel
    /// refusal — is `InsufficientPrivilege`, and the child ends at
    /// `Failed(IdentityMapped)`: it must not exec with an unintended
    /// capability set.
    pub fn drop_capabilities(&mut self) -> (r: Result<(), CapError>)
        requires
            old(self).wf(),
            old(self).tracker.state == LifecycleState::IdentityMapped,
        ensures
            final(self).wf(),
            final(self).allow_list == old(self).allow_list,
            final(self).tracker.user_ns == old(self).tracker.user_ns,
            r is Ok ==> final(self).tracker.state == LifecycleState::CapabilitiesDropped,
            r matches Err(e) ==> e is InsufficientPrivilege && final(self).tracker.state
                == LifecycleState::Failed(Stage::IdentityMapped),
    {
        match drop_to(&self.allow_list) {
            Ok(()) => {
                self.tracker.advance(LaunchEvent::CapsApplied);
                Ok(())
            },
            Err(e) => {
                self.tracker.fail_current_stage();
                Err(e)
            },
        }
    }

    /// The image replacement failed (missing binary, not executable), so
    /// control cannot meaningfully continue: the child ends at
    /// `Failed(CapabilitiesDropped)` and must exit with the returned code.
    pub fn note_exec_failed(&mut self) -> (code: u8)
        requires
            old(self).wf(),
            old(self).tracker.state == LifecycleState::CapabilitiesDropped,
        ensures
            final(self).wf(),
            final(self).tracker.state == LifecycleState::Failed(Stage::CapabilitiesDropped),
            code == 4,
    {
        self.tracker.fail_current_stage();
        failure_exit_code(Stage::CapabilitiesDropped)
    }

    /// The exit code the child must terminate with once it has failed:
    /// the code reserved for the stage that failed.
    pub fn abort_exit_code(&self) -> (code: u8)
        requires
            self.tracker.state is Failed,
        ensures
            code == failure_code_spec(stage_of(self.tracker.state)),
            code != 0,
    {
        match self.tracker.state {
            LifecycleState::Failed(st) => failure_exit_code(st),
            _ => 1,
        }
    }
}

} // verus!
