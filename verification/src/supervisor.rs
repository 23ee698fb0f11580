//! The sidecar supervisor: lifecycle of the privileged keyboard-hook child.
//!
//! The supervisor spawns the sidecar once, keeps the only handle to it in a
//! single slot, classifies every event of the child's structured stream, and
//! owns the one teardown path that kills the child. Spawning and killing are
//! process management and happen outside; the contracts here pin what each
//! stream event means and that the kill path runs at most once and is
//! harmless when the child is already gone.

use vstd::prelude::*;
use crate::slot::HandleSlot;

verus! {

/// The handle the supervisor keeps for the live sidecar child: its process
/// identifier.
#[derive(Debug, Clone, PartialEq, Eq, Structural)]
pub struct SidecarChild {
    pub pid: u32,
}

/// One event of the sidecar's structured stream.
#[derive(Debug, Clone, PartialEq, Eq)]
pub enum ChildEvent {
    /// A line the child wrote on its standard output.
    Stdout(Vec<u8>),
    /// A line the child wrote on its standard error.
    Stderr(Vec<u8>),
    /// A structured error event from the child's runtime.
    Error(String),
    /// The child terminated, with its exit code when one was reported.
    Terminated(Option<i32>),
}

/// What the supervisor does with one stream event.
#[derive(Debug, Clone, PartialEq, Eq, Structural)]
pub enum SupervisorAction {
    /// Log the line as informational output.
    LogOutput,
    /// Log the line as an error; the child keeps running.
    LogError,
    /// Fatal: terminate the whole application at once.
    ExitApplication,
    /// Log that the child ended; by itself this does not end the
    /// application — the sidecar may legitimately end first.
    LogTermination,
}

/// The classification of one stream event: output is informational, error
/// output is logged but non-fatal, a structured error event is fatal, and a
/// termination event is informational only.
pub open spec fn spec_classify_child_event(e: ChildEvent) -> SupervisorAction {
    match e {
        ChildEvent::Stdout(_) => SupervisorAction::LogOutput,
        ChildEvent::Stderr(_) => SupervisorAction::LogError,
        ChildEvent::Error(_) => SupervisorAction::ExitApplication,
        ChildEvent::Terminated(_) => SupervisorAction::LogTermination,
    }
}

/// Classify one event of the sidecar's stream.
pub fn classify_child_event(e: &ChildEvent) -> (a: SupervisorAction)
    ensures
        a == spec_classify_child_event(*e),
        (a is ExitApplication) <==> (e is Error),
{
    match e {
        ChildEvent::Stdout(_) => SupervisorAction::LogOutput,
        ChildEvent::Stderr(_) => SupervisorAction::LogError,
        ChildEvent::Error(_) => SupervisorAction::ExitApplication,
        ChildEvent::Terminated(_) => SupervisorAction::LogTermination,
    }
}

/// Law of fatality: among all stream events, exactly the structured error
/// event ends the application; in particular a termination event alone never
/// does.
pub proof fn lemma_only_child_error_exits(e: ChildEvent)
    ensures
        (spec_classify_child_event(e) is ExitApplication) <==> (e is Error),
        e is Terminated ==> !(spec_classify_child_event(e) is ExitApplication),
{
}

/// The supervisor's owned state: the single slot for the live child handle.
pub struct SidecarSupervisor {
    pub child: HandleSlot<SidecarChild>,
}

impl SidecarSupervisor {
    /// A supervisor starts with no child.
    pub fn new() -> (s: SidecarSupervisor)
        ensures
            s.child.inner is None,
    {
        SidecarSupervisor { child: HandleSlot::empty() }
    }

    /// Record the outcome of the spawn attempt. Failure to spawn is fatal:
    /// the application must exit with an error status. On success the handle
    /// is stored in the slot — which accepts it only while empty, so at most
    /// one live child exists per run.
    pub fn on_spawn_result(&mut self, spawned: Option<SidecarChild>) -> (fatal: bool)
        ensures
            fatal == (spawned is None),
            spawned is None ==> *final(self) == *old(self),
            old(self).child.inner is None ==> (spawned matches Some(c)
                ==> final(self).child.inner == Some(c)),
            spawned is Some && old(self).child.inner is Some ==> *final(self) == *old(self),
    {
        match spawned {
            None => true,
            Some(c) => {
                let _installed = self.child.install(c);
                false
            },
        }
    }

    /// Hand out the child handle for the kill on shutdown, emptying the
    /// slot. The handle leaves exactly once: a second call — or a call when
    /// no child was ever spawned — yields nothing and is harmless.
    pub fn take_child_for_kill(&mut self) -> (c: Option<SidecarChild>)
        ensures
            c == old(self).child.inner,
            final(self).child.inner is None,
    {
        self.child.take()
    }
}

} // verus!
