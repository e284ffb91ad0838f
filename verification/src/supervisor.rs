use vstd::prelude::*;

use crate::registry::PidRegistry;
use crate::registry::registry_after_set;

verus! {

/// Lifecycle phase of the supervised backend.
#[derive(Clone, Copy, PartialEq, Eq, Structural, Debug)]
pub enum BackendPhase {
    /// Initial: no backend pid recorded.
    NoBackend,
    /// A backend pid is recorded and not yet cleaned up.
    BackendRegistered,
    /// A cleanup was performed for the recorded backend.
    CleanedUp,
}

/// What one cleanup request decided.
#[derive(Clone, Copy, PartialEq, Eq, Structural, Debug)]
pub enum CleanupAction {
    /// Invoke the tree-kill primitive on this pid, exactly once.
    KillTree(u32),
    /// Registry miss: nothing recorded, so no kill is attempted. Not an
    /// error; worth a warning in the log at most.
    Skip,
}

/// The action a cleanup takes, given the registry contents at that
/// moment: a kill if and only if a pid is recorded.
pub open spec fn cleanup_action_of(r: Option<u32>) -> CleanupAction {
    match r {
        Some(pid) => CleanupAction::KillTree(pid),
        None => CleanupAction::Skip,
    }
}

/// Owns the pid registry and decides the shutdown transitions. The
/// external work (spawning the kill utility) is the caller's: the
/// supervisor only says what to do, so a slow kill never holds the
/// registry captive.
pub struct Supervisor {
    registry: PidRegistry,
    phase: BackendPhase,
}

impl Supervisor {
    /// The current lifecycle phase.
    pub closed spec fn phase(&self) -> BackendPhase {
        self.phase
    }

    /// The registry contents.
    pub closed spec fn recorded(&self) -> Option<u32> {
        self.registry@
    }

    /// The phase always agrees with the registry: a pid is recorded in
    /// exactly the registered and cleaned-up phases.
    pub open spec fn wf(&self) -> bool {
        self.phase() is NoBackend <==> self.recorded() is None
    }

    /// A fresh supervisor: empty registry, no backend.
    pub fn new() -> (s: Self)
        ensures
            s.wf(),
            s.phase() is NoBackend,
            s.recorded() is None,
    {
        Supervisor { registry: PidRegistry::new(), phase: BackendPhase::NoBackend }
    }

    /// Records the backend's pid once it is known, replacing any earlier
    /// value, and moves to `BackendRegistered`. Never fails; every later
    /// read observes the new value.
    pub fn store_backend_pid(&mut self, pid: u32)
        ensures
            final(self).wf(),
            final(self).recorded() == registry_after_set(old(self).recorded(), pid),
            final(self).recorded() == Some(pid),
            final(self).phase() is BackendRegistered,
    {
        self.registry.set(pid);
        self.phase = BackendPhase::BackendRegistered;
    }

    /// Decides the cleanup transition, triggered by an explicit shutdown
    /// request or a window-close notification: a kill if and only if a
    /// pid is recorded. With an empty registry it is a no-op. The
    /// registry is not cleared, so a second cleanup decides the same
    /// kill again — harmless, because the kill is best-effort.
    pub fn cleanup_backend(&mut self) -> (a: CleanupAction)
        ensures
            old(self).wf() ==> final(self).wf(),
            a == cleanup_action_of(old(self).recorded()),
            final(self).recorded() == old(self).recorded(),
            old(self).recorded() is Some ==> final(self).phase() is CleanedUp,
            old(self).recorded() is None ==> final(self).phase() == old(self).phase(),
    {
        match self.registry.get() {
            Some(pid) => {
                self.phase = BackendPhase::CleanedUp;
                CleanupAction::KillTree(pid)
            },
            None => CleanupAction::Skip,
        }
    }

    /// The currently recorded pid, if any.
    pub fn recorded_pid(&self) -> (r: Option<u32>)
        ensures
            r == self.recorded(),
    {
        self.registry.get()
    }

    /// The current lifecycle phase.
    pub fn current_phase(&self) -> (p: BackendPhase)
        ensures
            p == self.phase(),
    {
        self.phase
    }
}

/// A cleanup that finds the registry empty performs no kill attempt.
pub proof fn lemma_empty_cleanup_is_noop()
    ensures
        cleanup_action_of(Option::<u32>::None) is Skip,
{
}

/// After `pid` is recorded, one cleanup decides exactly one kill, aimed
/// at that pid and no other.
pub proof fn lemma_cleanup_kills_recorded_pid(r: Option<u32>, pid: u32)
    ensures
        cleanup_action_of(registry_after_set(r, pid)) == CleanupAction::KillTree(pid),
{
}

} // verus!
