//! NamespaceLauncher, host side: the container spec, its validation, the
//! stack region handed to the isolated process, and the launcher that
//! drives the host's half of the handshake against the lifecycle rules.
//! The process-creation call itself, the pipe, and the control-file writes
//! happen outside the library, which decides and records every step.

use vstd::prelude::*;

use crate::capability::CapabilityAllowList;
use crate::errors::{LaunchError, MapError, classify_launch_errno};
use crate::lifecycle::{LaunchEvent, LifecycleState, LifecycleTracker, Stage};
use crate::mapping::{IdentityMapWriter, IdentityMapping, MapWrite, check_table, proc_control_path, table_text, deny_text};
use crate::namespace::NamespaceFlagSet;

verus! {

/// The fixed size of the stack region allocated for the isolated process.
pub const STACK_SIZE: usize = 1024 * 1024;

/// Everything a launch needs, immutable once the launch begins: the target
/// command and argument vector (no shell is ever invoked), the namespace
/// composition, the capability allow-list, and the identity-mapping
/// tables.
pub struct ContainerSpec {
    pub command: String,
    pub args: Vec<String>,
    pub namespaces: NamespaceFlagSet,
    pub allow_list: CapabilityAllowList,
    pub mapping: IdentityMapping,
}

impl ContainerSpec {
    /// A spec is launchable when it names a command and, if it requests a
    /// user namespace, carries well-formed identity-mapping tables:
    /// requesting the namespace while omitting a usable mapping is a
    /// configuration error.
    pub open spec fn wf(&self) -> bool {
        &&& self.command@.len() > 0
        &&& self.namespaces.user ==> self.mapping.wf()
    }

    /// Decides `wf`.
    pub fn check(&self) -> (r: bool)
        ensures
            r == self.wf(),
    {
        if self.command.as_str().is_empty() {
            return false;
        }
        if self.namespaces.requests_user() {
            check_table(&self.mapping.uid_entries) && check_table(&self.mapping.gid_entries)
        } else {
            true
        }
    }
}

/// The stack region for the isolated process: exclusively host-owned until
/// the creation call returns, the child's own execution stack afterwards.
pub fn allocate_stack() -> (r: Vec<u8>)
    ensures
        r@.len() == STACK_SIZE,
{
    let mut stack: Vec<u8> = Vec::new();
    let mut i: usize = 0;
    while i < STACK_SIZE
        invariant
            i <= STACK_SIZE,
            stack@.len() == i,
        decreases STACK_SIZE - i,
    {
        stack.push(0u8);
        i += 1;
    }
    stack
}

/// The host's reference to the spawned process: its id, the stack region
/// whose lifetime is bound to this handle (never reused across launches),
/// and the lifecycle state the launch had reached when the handle was
/// produced.
pub struct IsolatedProcessHandle {
    pub pid: u64,
    pub stack: Vec<u8>,
    pub state: LifecycleState,
}

/// The host's half of the launch: validates the spec, classifies the
/// creation outcome, writes the identity mapping exactly once while the
/// child is parked, and keeps the lifecycle trace that orders it all.
pub struct HostLauncher {
    pub config: ContainerSpec,
    pub tracker: LifecycleTracker,
    pub writer: IdentityMapWriter,
}

impl HostLauncher {
    /// The trace is valid and tracks the user-namespace request.
    pub open spec fn wf(&self) -> bool {
        &&& self.tracker.wf()
        &&& self.tracker.user_ns == self.config.namespaces.user
    }

    /// Validates the spec and opens the launch. An invalid spec is a
    /// configuration error, refused before any host state changes.
    pub fn begin(config: ContainerSpec) -> (r: Result<HostLauncher, LaunchError>)
        ensures
            config.wf() ==> (r matches Ok(h) && {
                &&& h.wf()
                &&& h.config == config
                &&& h.tracker.state == LifecycleState::Created
                &&& h.writer.mapped_pids() == Seq::<u64>::empty()
            }),
            !config.wf() ==> (r matches Err(e) && e is UnsupportedConfiguration),
    {
        if !config.check() {
            return Err(LaunchError::UnsupportedConfiguration);
        }
        let user = config.namespaces.requests_user();
        Ok(
            HostLauncher {
                config,
                tracker: LifecycleTracker::new(user),
                writer: IdentityMapWriter::new(),
            },
        )
    }

    /// Records the outcome of the process-creation primitive: on success
    /// the child entered its namespaces; on failure the launch is over at
    /// the creation stage, with the error number classified into the
    /// launch taxonomy and no partial mutation of host state.
    pub fn note_clone(&mut self, outcome: Result<u64, i32>) -> (r: Result<u64, LaunchError>)
        requires
            old(self).wf(),
            old(self).tracker.state == LifecycleState::Created,
        ensures
            final(self).wf(),
            final(self).config == old(self).config,
            final(self).writer == old(self).writer,
            outcome matches Ok(pid) ==> (r matches Ok(p) && p == pid && final(self).tracker.state
                == LifecycleState::NamespaceEntered),
            outcome matches Err(en) ==> (r matches Err(e) && {
                &&& final(self).tracker.state == LifecycleState::Failed(Stage::Created)
                &&& ((en == 1 || en == 13) ==> e is PermissionDenied)
                &&& ((en == 11 || en == 12 || en == 28) ==> e is ResourceExhausted)
                &&& (!(en == 1 || en == 13 || en == 11 || en == 12 || en == 28) ==> e
                    is UnsupportedConfiguration)
            }),
    {
        match outcome {
            Ok(pid) => {
                self.tracker.advance(LaunchEvent::NamespacesEntered);
                Ok(pid)
            },
            Err(en) => {
                self.tracker.fail_current_stage();
                Err(classify_launch_errno(en))
            },
        }
    }

    /// Records that the child has parked on the readiness channel, before
    /// touching anything that assumes a finished identity mapping.
    pub fn note_child_parked(&mut self)
        requires
            old(self).wf(),
            old(self).tracker.state == LifecycleState::NamespaceEntered,
        ensures
            final(self).wf(),
            final(self).config == old(self).config,
            final(self).writer == old(self).writer,
            final(self).tracker.state == LifecycleState::WaitingForIdentityMap,
    {
        self.tracker.advance(LaunchEvent::ChildParked);
    }

    /// The identity-mapping phase, callable only while the child is parked
    /// at `WaitingForIdentityMap`. With a user namespace requested, the
    /// spec's tables are validated and planned exactly once for `pid`: the
    /// plan carries the group-change-deny directive first, then the gid
    /// table, then the uid table, and a rejected mapping ends the launch
    /// with no write planned. Without a user namespace no mapping is owed
    /// and the phase passes with an empty plan.
    pub fn apply_identity_map(&mut self, pid: u64) -> (r: Result<Vec<MapWrite>, MapError>)
        requires
            old(self).wf(),
            old(self).tracker.state == LifecycleState::WaitingForIdentityMap,
        ensures
            final(self).wf(),
            final(self).config == old(self).config,
            r is Ok ==> final(self).tracker.state == LifecycleState::IdentityMapped,
            r is Err ==> final(self).tracker.state == LifecycleState::Failed(
                Stage::WaitingForIdentityMap,
            ),
            !old(self).config.namespaces.user ==> (r matches Ok(plan) && plan@.len() == 0
                && final(self).writer == old(self).writer),
            old(self).config.namespaces.user ==> {
                &&& !old(self).config.mapping.wf() ==> (r matches Err(e) && e is InvalidMapping)
                &&& (old(self).config.mapping.wf() && old(self).writer.mapped_pids().contains(
                    pid,
                )) ==> (r matches Err(e) && e is AlreadyMapped)
                &&& r is Err ==> final(self).writer.mapped_pids() == old(
                    self,
                ).writer.mapped_pids()
                &&& (old(self).config.mapping.wf() && !old(self).writer.mapped_pids().contains(
                    pid,
                )) ==> (r matches Ok(plan) && {
                    &&& final(self).writer.mapped_pids() == old(self).writer.mapped_pids().push(
                        pid,
                    )
                    &&& plan@.len() == 3
                    &&& plan@[0].path@ == proc_control_path(pid, "setgroups"@)
                    &&& plan@[0].contents@ == deny_text()
                    &&& plan@[1].path@ == proc_control_path(pid, "gid_map"@)
                    &&& plan@[1].contents@ == table_text(old(self).config.mapping.gid_entries@)
                    &&& plan@[2].path@ == proc_control_path(pid, "uid_map"@)
                    &&& plan@[2].contents@ == table_text(old(self).config.mapping.uid_entries@)
                })
            },
    {
        if !self.config.namespaces.requests_user() {
            self.tracker.advance(LaunchEvent::MapSkipped);
            return Ok(Vec::new());
        }
        let outcome = self.writer.apply(pid, &self.config.mapping);
        match outcome {
            Ok(plan) => {
                self.tracker.advance(LaunchEvent::MapApplied);
                Ok(plan)
            },
            Err(e) => {
                self.tracker.fail_current_stage();
                Err(e)
            },
        }
    }

    /// Packages the launch into the caller's handle, binding the stack
    /// region's lifetime to it.
    pub fn into_handle(self, pid: u64, stack: Vec<u8>) -> (h: IsolatedProcessHandle)
        ensures
            h.pid == pid,
            h.stack == stack,
            h.state == self.tracker.state,
    {
        IsolatedProcessHandle { pid, stack, state: self.tracker.state }
    }
}

} // verus!
