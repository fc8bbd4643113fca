//! The launch lifecycle, authoritative for the whole core:
//! `Created → NamespaceEntered → WaitingForIdentityMap → IdentityMapped →
//! CapabilitiesDropped → Execed`, with a `Failed(stage)` terminal reachable
//! from every non-terminal state. The transition relation is the single
//! place the ordering rules live; the proofs below show that every valid
//! history reaching the capability drop carried exactly one identity-map
//! application, before the drop.

use vstd::prelude::*;

verus! {

/// A non-terminal point of the launch, named by what has been reached.
#[derive(Clone, Copy, Debug, PartialEq, Eq, Structural)]
pub enum Stage {
    Created,
    NamespaceEntered,
    WaitingForIdentityMap,
    IdentityMapped,
    CapabilitiesDropped,
}

/// The lifecycle state of one launch. `Execed` is terminal success;
/// `Failed` records the stage at which the launch gave up.
#[derive(Clone, Copy, Debug, PartialEq, Eq, Structural)]
pub enum LifecycleState {
    Created,
    NamespaceEntered,
    WaitingForIdentityMap,
    IdentityMapped,
    CapabilitiesDropped,
    Execed,
    Failed(Stage),
}

/// One observed step of the launch protocol.
#[derive(Clone, Copy, Debug, PartialEq, Eq, Structural)]
pub enum LaunchEvent {
    /// The isolated process exists inside its composed namespaces.
    NamespacesEntered,
    /// The child has parked on the readiness channel, before touching any
    /// resource that assumes a finished identity mapping.
    ChildParked,
    /// The host applied the identity mapping for the child.
    MapApplied,
    /// No user namespace was requested, so no mapping phase is owed.
    MapSkipped,
    /// The child narrowed its capability sets to the allow-list.
    CapsApplied,
    /// The child replaced its image with the target command.
    ImageReplaced,
    /// The stage underway failed; the launch gives up here.
    StageFailed,
}

/// The stage a state belongs to, for naming failures.
pub open spec fn stage_of(s: LifecycleState) -> Stage {
    match s {
        LifecycleState::Created => Stage::Created,
        LifecycleState::NamespaceEntered => Stage::NamespaceEntered,
        LifecycleState::WaitingForIdentityMap => Stage::WaitingForIdentityMap,
        LifecycleState::IdentityMapped => Stage::IdentityMapped,
        LifecycleState::CapabilitiesDropped => Stage::CapabilitiesDropped,
        LifecycleState::Execed => Stage::CapabilitiesDropped,
        LifecycleState::Failed(st) => st,
    }
}

pub open spec fn is_terminal(s: LifecycleState) -> bool {
    s is Execed || s is Failed
}

/// The transition relation. `user_ns` says whether the launch requested a
/// user namespace: with it the mapping phase is mandatory, without it the
/// phase is skipped explicitly.
pub open spec fn allows(user_ns: bool, s: LifecycleState, e: LaunchEvent) -> bool {
    match (s, e) {
        (LifecycleState::Created, LaunchEvent::NamespacesEntered) => true,
        (LifecycleState::NamespaceEntered, LaunchEvent::ChildParked) => true,
        (LifecycleState::WaitingForIdentityMap, LaunchEvent::MapApplied) => user_ns,
        (LifecycleState::WaitingForIdentityMap, LaunchEvent::MapSkipped) => !user_ns,
        (LifecycleState::IdentityMapped, LaunchEvent::CapsApplied) => true,
        (LifecycleState::CapabilitiesDropped, LaunchEvent::ImageReplaced) => true,
        (_, LaunchEvent::StageFailed) => !is_terminal(s),
        _ => false,
    }
}

/// The state after one allowed event (and the unchanged state otherwise).
pub open spec fn step(s: LifecycleState, e: LaunchEvent) -> LifecycleState {
    match (s, e) {
        (LifecycleState::Created, LaunchEvent::NamespacesEntered) => LifecycleState::NamespaceEntered,
        (LifecycleState::NamespaceEntered, LaunchEvent::ChildParked) => LifecycleState::WaitingForIdentityMap,
        (LifecycleState::WaitingForIdentityMap, LaunchEvent::MapApplied) => LifecycleState::IdentityMapped,
        (LifecycleState::WaitingForIdentityMap, LaunchEvent::MapSkipped) => LifecycleState::IdentityMapped,
        (LifecycleState::IdentityMapped, LaunchEvent::CapsApplied) => LifecycleState::CapabilitiesDropped,
        (LifecycleState::CapabilitiesDropped, LaunchEvent::ImageReplaced) => LifecycleState::Execed,
        (_, LaunchEvent::StageFailed) => LifecycleState::Failed(stage_of(s)),
        _ => s,
    }
}

/// Whether every event of `es`, taken from `s` in order, is allowed.
pub open spec fn valid_from(user_ns: bool, s: LifecycleState, es: Seq<LaunchEvent>) -> bool
    decreases es.len(),
{
    es.len() == 0 || (allows(user_ns, s, es[0]) && valid_from(user_ns, step(s, es[0]), es.drop_first()))
}

/// The state after taking every event of `es` from `s` in order.
pub open spec fn run(s: LifecycleState, es: Seq<LaunchEvent>) -> LifecycleState
    decreases es.len(),
{
    if es.len() == 0 {
        s
    } else {
        run(step(s, es[0]), es.drop_first())
    }
}

/// How many identity-map applications a history carries.
pub open spec fn n_applied(es: Seq<LaunchEvent>) -> nat
    decreases es.len(),
{
    if es.len() == 0 {
        0
    } else {
        (if es[0] is MapApplied {
            1nat
        } else {
            0nat
        }) + n_applied(es.drop_first())
    }
}

/// How many capability drops a history carries.
pub open spec fn n_dropped(es: Seq<LaunchEvent>) -> nat
    decreases es.len(),
{
    if es.len() == 0 {
        0
    } else {
        (if es[0] is CapsApplied {
            1nat
        } else {
            0nat
        }) + n_dropped(es.drop_first())
    }
}

/// How many identity-map applications lie behind a state on the success
/// path.
pub open spec fn applied_phase(s: LifecycleState) -> nat {
    match s {
        LifecycleState::IdentityMapped => 1,
        LifecycleState::CapabilitiesDropped => 1,
        LifecycleState::Execed => 1,
        _ => 0,
    }
}

/// How many capability drops lie behind a state on the success path.
pub open spec fn dropped_phase(s: LifecycleState) -> nat {
    match s {
        LifecycleState::CapabilitiesDropped => 1,
        LifecycleState::Execed => 1,
        _ => 0,
    }
}

proof fn lemma_counts(user_ns: bool, s: LifecycleState, es: Seq<LaunchEvent>)
    requires
        user_ns,
        valid_from(user_ns, s, es),
        !(s is Failed),
        !(run(s, es) is Failed),
    ensures
        n_applied(es) + applied_phase(s) == applied_phase(run(s, es)),
        n_dropped(es) + dropped_phase(s) == dropped_phase(run(s, es)),
    decreases es.len(),
{
    if es.len() > 0 {
        let s1 = step(s, es[0]);
        let rest = es.drop_first();
        assert(valid_from(user_ns, s1, rest));
        assert(run(s, es) == run(s1, rest));
        if s1 is Failed {
            if rest.len() > 0 {
                assert(allows(user_ns, s1, rest[0]));
                assert(!allows(user_ns, s1, rest[0]));
            }
            assert(rest.len() == 0);
            assert(run(s1, rest) == s1);
        } else {
            lemma_counts(user_ns, s1, rest);
        }
    }
}

proof fn lemma_prefix(user_ns: bool, s: LifecycleState, es: Seq<LaunchEvent>, i: int)
    requires
        valid_from(user_ns, s, es),
        0 <= i < es.len(),
    ensures
        valid_from(user_ns, s, es.take(i)),
        allows(user_ns, run(s, es.take(i)), es[i]),
    decreases i,
{
    if i == 0 {
        assert(es.take(0) =~= Seq::<LaunchEvent>::empty());
    } else {
        let s1 = step(s, es[0]);
        let rest = es.drop_first();
        lemma_prefix(user_ns, s1, rest, i - 1);
        assert(es.take(i).drop_first() =~= rest.take(i - 1));
        assert(es.take(i)[0] == es[0]);
        assert(rest[i - 1] == es[i]);
    }
}

/// Ordering law of the core: in every valid history of a launch that
/// requested a user namespace and reached the capability drop (or beyond),
/// the identity mapping was applied exactly once, and it had been applied
/// already at the moment of every capability-drop event.
pub proof fn lemma_map_once_before_drop(es: Seq<LaunchEvent>)
    requires
        valid_from(true, LifecycleState::Created, es),
        run(LifecycleState::Created, es) is CapabilitiesDropped || run(
            LifecycleState::Created,
            es,
        ) is Execed,
    ensures
        n_applied(es) == 1,
        forall|i: int|
            0 <= i < es.len() && es[i] is CapsApplied ==> n_applied(#[trigger] es.take(i)) == 1,
{
    lemma_counts(true, LifecycleState::Created, es);
    assert forall|i: int|
        0 <= i < es.len() && es[i] is CapsApplied implies n_applied(#[trigger] es.take(i))
        == 1 by {
        lemma_prefix(true, LifecycleState::Created, es, i);
        let before = run(LifecycleState::Created, es.take(i));
        assert(allows(true, before, es[i]));
        assert(before is IdentityMapped);
        lemma_counts(true, LifecycleState::Created, es.take(i));
    }
}

/// Completion of the total order: in every valid history of a launch
/// that requested a user namespace and reached the exec, the capability
/// drop happened exactly once, and at the moment of the exec both the
/// identity mapping and the drop were already behind it — identity
/// mapping completes before capability dropping completes before image
/// replacement.
pub proof fn lemma_drop_before_exec(es: Seq<LaunchEvent>)
    requires
        valid_from(true, LifecycleState::Created, es),
        run(LifecycleState::Created, es) is Execed,
    ensures
        n_applied(es) == 1,
        n_dropped(es) == 1,
        forall|i: int|
            0 <= i < es.len() && es[i] is ImageReplaced ==> n_applied(#[trigger] es.take(i)) == 1
                && n_dropped(es.take(i)) == 1,
{
    lemma_counts(true, LifecycleState::Created, es);
    assert forall|i: int|
        0 <= i < es.len() && es[i] is ImageReplaced implies n_applied(#[trigger] es.take(i)) == 1
        && n_dropped(es.take(i)) == 1 by {
        lemma_prefix(true, LifecycleState::Created, es, i);
        let before = run(LifecycleState::Created, es.take(i));
        assert(allows(true, before, es[i]));
        assert(before is CapabilitiesDropped);
        lemma_counts(true, LifecycleState::Created, es.take(i));
    }
}

/// Without a capability-drop event, no valid history reaches the drop
/// stage, let alone the exec: a child whose drop fails never execs.
pub proof fn lemma_no_exec_without_drop(es: Seq<LaunchEvent>)
    requires
        valid_from(true, LifecycleState::Created, es),
        n_dropped(es) == 0,
    ensures
        !(run(LifecycleState::Created, es) is Execed),
        !(run(LifecycleState::Created, es) is CapabilitiesDropped),
{
    let end = run(LifecycleState::Created, es);
    if end is Execed || end is CapabilitiesDropped {
        lemma_counts(true, LifecycleState::Created, es);
    }
}

/// A failed launch is over: no valid history leads anywhere else from a
/// `Failed` state, so a child that interpreted a failure indication (or
/// lost its capability drop) never execs afterwards.
pub proof fn lemma_failed_is_final(user_ns: bool, s: LifecycleState, es: Seq<LaunchEvent>)
    requires
        s is Failed,
        valid_from(user_ns, s, es),
    ensures
        run(s, es) == s,
{
    if es.len() > 0 {
        assert(allows(user_ns, s, es[0]));
        assert(!allows(user_ns, s, es[0]));
    }
}

/// A live record of one launch's lifecycle: the current state together
/// with the history that led to it, every step checked against the
/// transition relation.
pub struct LifecycleTracker {
    pub user_ns: bool,
    pub state: LifecycleState,
    pub events: Ghost<Seq<LaunchEvent>>,
}

impl LifecycleTracker {
    /// The history is valid and leads from `Created` to the current state.
    pub open spec fn wf(&self) -> bool {
        &&& valid_from(self.user_ns, LifecycleState::Created, self.events@)
        &&& run(LifecycleState::Created, self.events@) == self.state
    }

    pub fn new(user_ns: bool) -> (r: LifecycleTracker)
        ensures
            r.wf(),
            r.user_ns == user_ns,
            r.state == LifecycleState::Created,
            r.events@ == Seq::<LaunchEvent>::empty(),
    {
        LifecycleTracker { user_ns, state: LifecycleState::Created, events: Ghost(Seq::empty()) }
    }

    /// The current state.
    pub fn current(&self) -> (s: LifecycleState)
        ensures
            s == self.state,
    {
        self.state
    }

    /// Takes one allowed protocol step.
    pub fn advance(&mut self, e: LaunchEvent)
        requires
            old(self).wf(),
            allows(old(self).user_ns, old(self).state, e),
        ensures
            final(self).wf(),
            final(self).user_ns == old(self).user_ns,
            final(self).state == step(old(self).state, e),
            final(self).events@ == old(self).events@.push(e),
    {
        let next = match (self.state, e) {
            (LifecycleState::Created, LaunchEvent::NamespacesEntered) => LifecycleState::NamespaceEntered,
            (LifecycleState::NamespaceEntered, LaunchEvent::ChildParked) => LifecycleState::WaitingForIdentityMap,
            (LifecycleState::WaitingForIdentityMap, LaunchEvent::MapApplied) => LifecycleState::IdentityMapped,
            (LifecycleState::WaitingForIdentityMap, LaunchEvent::MapSkipped) => LifecycleState::IdentityMapped,
            (LifecycleState::IdentityMapped, LaunchEvent::CapsApplied) => LifecycleState::CapabilitiesDropped,
            (LifecycleState::CapabilitiesDropped, LaunchEvent::ImageReplaced) => LifecycleState::Execed,
            (st, LaunchEvent::StageFailed) => LifecycleState::Failed(
                match st {
                    LifecycleState::Created => Stage::Created,
                    LifecycleState::NamespaceEntered => Stage::NamespaceEntered,
                    LifecycleState::WaitingForIdentityMap => Stage::WaitingForIdentityMap,
                    LifecycleState::IdentityMapped => Stage::IdentityMapped,
                    LifecycleState::CapabilitiesDropped => Stage::CapabilitiesDropped,
                    LifecycleState::Execed => Stage::CapabilitiesDropped,
                    LifecycleState::Failed(st0) => st0,
                },
            ),
            (st, _) => st,
        };
        proof {
            lemma_valid_snoc(self.user_ns, LifecycleState::Created, self.events@, e);
        }
        self.state = next;
        self.events = Ghost(self.events@.push(e));
    }

    /// The ordering law, stated on a tracked launch directly: a launch
    /// that requested a user namespace and stands at the capability drop
    /// or beyond applied its identity mapping exactly once, before every
    /// capability-drop event of its history.
    pub proof fn lemma_tracked_map_once_before_drop(&self)
        requires
            self.wf(),
            self.user_ns,
            self.state is CapabilitiesDropped || self.state is Execed,
        ensures
            n_applied(self.events@) == 1,
            forall|i: int|
                0 <= i < self.events@.len() && self.events@[i] is CapsApplied ==> n_applied(
                    #[trigger] self.events@.take(i),
                ) == 1,
    {
        lemma_map_once_before_drop(self.events@);
    }

    /// Gives the launch up at the stage underway.
    pub fn fail_current_stage(&mut self)
        requires
            old(self).wf(),
            !is_terminal(old(self).state),
        ensures
            final(self).wf(),
            final(self).user_ns == old(self).user_ns,
            final(self).state == LifecycleState::Failed(stage_of(old(self).state)),
            final(self).events@ == old(self).events@.push(LaunchEvent::StageFailed),
    {
        self.advance(LaunchEvent::StageFailed);
    }
}

proof fn lemma_valid_snoc(user_ns: bool, s: LifecycleState, es: Seq<LaunchEvent>, e: LaunchEvent)
    requires
        valid_from(user_ns, s, es),
        allows(user_ns, run(s, es), e),
    ensures
        valid_from(user_ns, s, es.push(e)),
        run(s, es.push(e)) == step(run(s, es), e),
    decreases es.len(),
{
    if es.len() == 0 {
        assert(run(s, es) == s);
        assert(es.push(e)[0] == e);
        assert(es.push(e).drop_first() =~= Seq::<LaunchEvent>::empty());
        assert(valid_from(user_ns, step(s, e), es.push(e).drop_first()));
        assert(valid_from(user_ns, s, es.push(e)));
        assert(run(step(s, e), es.push(e).drop_first()) == step(s, e));
        assert(run(s, es.push(e)) == step(s, e));
    } else {
        let s1 = step(s, es[0]);
        assert(valid_from(user_ns, s1, es.drop_first()));
        assert(run(s, es) == run(s1, es.drop_first()));
        lemma_valid_snoc(user_ns, s1, es.drop_first(), e);
        assert(es.push(e)[0] == es[0]);
        assert(es.push(e).drop_first() =~= es.drop_first().push(e));
        assert(valid_from(user_ns, s1, es.push(e).drop_first()));
        assert(valid_from(user_ns, s, es.push(e)));
        assert(run(s, es.push(e)) == run(s1, es.push(e).drop_first()));
        assert(run(s, es.push(e)) == step(run(s, es), e));
    }
}

/// The process exit code reserved for a failure at each stage: `1` for
/// launch failures, `2` for identity-mapping failures, `3` for capability
/// failures, `4` for image-replacement failures.
pub open spec fn failure_code_spec(stage: Stage) -> u8 {
    match stage {
        Stage::Created => 1,
        Stage::NamespaceEntered => 1,
        Stage::WaitingForIdentityMap => 2,
        Stage::IdentityMapped => 3,
        Stage::CapabilitiesDropped => 4,
    }
}

/// The process exit code reserved for a failure at each stage, one value
/// per failure class so an external supervisor can tell the phases apart
/// without parsing text. `0` is unreachable on success, since the image
/// is replaced.
pub fn failure_exit_code(stage: Stage) -> (r: u8)
    ensures
        r == failure_code_spec(stage),
        r != 0,
{
    match stage {
        Stage::Created => 1,
        Stage::NamespaceEntered => 1,
        Stage::WaitingForIdentityMap => 2,
        Stage::IdentityMapped => 3,
        Stage::CapabilitiesDropped => 4,
    }
}

} // verus!
