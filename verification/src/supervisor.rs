//! Lifecycle state of the supervised companion process.
//!
//! A single `SupervisorState` value lives for the whole host process, behind
//! a mutual-exclusion lock owned by the (unverified) runtime shell.  Every
//! operation here is a pure step on that state; the shell calls each step
//! while it holds the lock, which makes the check-and-set steps atomic with
//! respect to other start attempts.

use vstd::prelude::*;

verus! {

/// Stand-in for the operating-system handle of the spawned companion
/// process.  The core never looks inside the real handle; it only tracks
/// presence and exclusive ownership, so the process id is all it carries.
#[derive(PartialEq, Eq, Structural, Clone, Copy, Debug)]
pub struct ProcessHandle {
    pub pid: u32,
}

/// TCP port the companion process is expected to listen on.
pub const DEFAULT_PORT: u16 = 8000;

/// Shared lifecycle record: the optional owned process handle, the fixed
/// service port, and one guard flag per background monitoring loop.
pub struct SupervisorState {
    pub process: Option<ProcessHandle>,
    pub port: u16,
    pub health_task_running: bool,
    pub resource_task_running: bool,
}

/// What a `start` attempt must do next, decided from the current state.
#[derive(PartialEq, Eq, Structural, Clone, Copy, Debug)]
pub enum StartDecision {
    /// A process handle is already registered: report success, spawn nothing.
    AlreadyRunning,
    /// No process is registered: verify integrity and spawn.
    Proceed,
}

/// What `start_decision` decides, as a function of the state.
pub open spec fn spec_start_decision(s: SupervisorState) -> StartDecision {
    if s.process is Some {
        StartDecision::AlreadyRunning
    } else {
        StartDecision::Proceed
    }
}

/// What `register_process` does to the state.
pub open spec fn spec_register(s: SupervisorState, h: ProcessHandle) -> SupervisorState {
    SupervisorState { process: Some(h), ..s }
}

/// What `take_process` returns and leaves behind.
pub open spec fn spec_take(s: SupervisorState) -> (Option<ProcessHandle>, SupervisorState) {
    (s.process, SupervisorState { process: None, ..s })
}

/// What `try_begin_health_task` returns and leaves behind.
pub open spec fn spec_begin_health(s: SupervisorState) -> (bool, SupervisorState) {
    (!s.health_task_running, SupervisorState { health_task_running: true, ..s })
}

/// What `try_begin_resource_task` returns and leaves behind.
pub open spec fn spec_begin_resource(s: SupervisorState) -> (bool, SupervisorState) {
    (!s.resource_task_running, SupervisorState { resource_task_running: true, ..s })
}

impl SupervisorState {
    /// Fresh state: no process, default port, no monitoring loop started.
    pub fn new() -> (s: Self)
        ensures
            s.process is None,
            s.port == DEFAULT_PORT,
            !s.health_task_running,
            !s.resource_task_running,
    {
        SupervisorState {
            process: None,
            port: DEFAULT_PORT,
            health_task_running: false,
            resource_task_running: false,
        }
    }

    /// Point-in-time liveness signal: is a process handle registered?
    pub fn status(&self) -> (r: bool)
        ensures
            r == (self.process is Some),
    {
        self.process.is_some()
    }

    /// First step of `start`: decide, from handle presence alone, whether a
    /// spawn is needed.  A registered handle means the attempt is already
    /// satisfied and must not spawn a second process.
    pub fn start_decision(&self) -> (r: StartDecision)
        ensures
            r == spec_start_decision(*self),
            r == StartDecision::AlreadyRunning <==> self.process is Some,
            r == StartDecision::Proceed <==> self.process is None,
    {
        if self.process.is_some() {
            StartDecision::AlreadyRunning
        } else {
            StartDecision::Proceed
        }
    }

    /// Second step of `start`: record the freshly spawned process.  Only
    /// legal when no handle is registered, which `start_decision` has
    /// established under the same critical section.
    pub fn register_process(&mut self, h: ProcessHandle)
        requires
            old(self).process is None,
        ensures
            *final(self) == spec_register(*old(self), h),
            final(self).process == Some(h),
            final(self).port == old(self).port,
            final(self).health_task_running == old(self).health_task_running,
            final(self).resource_task_running == old(self).resource_task_running,
    {
        self.process = Some(h);
    }

    /// `stop`: surrender ownership of the registered handle, if any.  The
    /// caller terminates the returned process; a `None` result means nothing
    /// was running, which is a normal outcome and not an error.
    pub fn take_process(&mut self) -> (r: Option<ProcessHandle>)
        ensures
            (r, *final(self)) == spec_take(*old(self)),
            r == old(self).process,
            final(self).process is None,
            final(self).port == old(self).port,
            final(self).health_task_running == old(self).health_task_running,
            final(self).resource_task_running == old(self).resource_task_running,
    {
        self.process.take()
    }

    /// Atomic check-and-set guarding the health-probe loop: returns whether
    /// the caller is the one who must launch the loop.  After the first
    /// successful call the flag stays set forever, so at most one loop of
    /// this kind is ever launched.
    pub fn try_begin_health_task(&mut self) -> (r: bool)
        ensures
            (r, *final(self)) == spec_begin_health(*old(self)),
            r == !old(self).health_task_running,
            final(self).health_task_running,
            final(self).process == old(self).process,
            final(self).port == old(self).port,
            final(self).resource_task_running == old(self).resource_task_running,
    {
        let was_running = self.health_task_running;
        self.health_task_running = true;
        !was_running
    }

    /// Atomic check-and-set guarding the resource-sampling loop; same
    /// contract as `try_begin_health_task` for the other flag.
    pub fn try_begin_resource_task(&mut self) -> (r: bool)
        ensures
            (r, *final(self)) == spec_begin_resource(*old(self)),
            r == !old(self).resource_task_running,
            final(self).resource_task_running,
            final(self).process == old(self).process,
            final(self).port == old(self).port,
            final(self).health_task_running == old(self).health_task_running,
    {
        let was_running = self.resource_task_running;
        self.resource_task_running = true;
        !was_running
    }
}

/// Two `start` attempts in direct succession spawn exactly one process: the
/// first attempt, finding no process, proceeds and registers the handle it
/// spawned; the second then observes "already running" and is demanded to
/// spawn nothing, leaving the registered handle in place.
pub proof fn lemma_start_twice_spawns_once(s: SupervisorState, h: ProcessHandle)
    requires
        spec_start_decision(s) == StartDecision::Proceed,
    ensures
        spec_start_decision(spec_register(s, h)) == StartDecision::AlreadyRunning,
        spec_register(s, h).process == Some(h),
{
}

/// Stopping when nothing is registered reports "not running" without an
/// error, and stopping right after a stop — successful or not — always
/// reports "not running" again: the handle is surrendered exactly once.
pub proof fn lemma_stop_on_absent_is_benign(s: SupervisorState)
    ensures
        s.process is None ==> spec_take(s).0 is None,
        spec_take(spec_take(s).1).0 is None,
        spec_take(spec_take(s).1).1.process is None,
{
}

/// The health-monitor start sequence launches exactly one loop, however many
/// times it is attempted: the first attempt on a fresh state wins; every
/// attempt leaves the guard flag set; and an attempt that finds the flag set
/// loses and changes nothing.  Since each attempt runs under the state lock,
/// no two attempts can both find the flag unset.
pub proof fn lemma_health_monitor_starts_once(s: SupervisorState)
    ensures
        !s.health_task_running ==> spec_begin_health(s).0,
        spec_begin_health(s).1.health_task_running,
        s.health_task_running ==> !spec_begin_health(s).0 && spec_begin_health(s).1 == s,
        !spec_begin_health(spec_begin_health(s).1).0,
{
}

/// The resource-monitor start sequence launches exactly one loop, by the
/// same argument as `lemma_health_monitor_starts_once`.
pub proof fn lemma_resource_monitor_starts_once(s: SupervisorState)
    ensures
        !s.resource_task_running ==> spec_begin_resource(s).0,
        spec_begin_resource(s).1.resource_task_running,
        s.resource_task_running ==> !spec_begin_resource(s).0 && spec_begin_resource(s).1 == s,
        !spec_begin_resource(spec_begin_resource(s).1).0,
{
}

/// `n` consecutive health-monitor start attempts from `s`: how many won the
/// check-and-set, and the state left behind.  Attempts contending for the
/// state lock serialize into exactly such a chain.
pub open spec fn health_attempt_wins(s: SupervisorState, n: nat) -> (nat, SupervisorState)
    decreases n,
{
    if n == 0 {
        (0, s)
    } else {
        let (w, s1) = health_attempt_wins(s, (n - 1) as nat);
        let (r, s2) = spec_begin_health(s1);
        (
            (w + if r {
                1nat
            } else {
                0nat
            }) as nat,
            s2,
        )
    }
}

/// `n` consecutive resource-monitor start attempts from `s`.
pub open spec fn resource_attempt_wins(s: SupervisorState, n: nat) -> (nat, SupervisorState)
    decreases n,
{
    if n == 0 {
        (0, s)
    } else {
        let (w, s1) = resource_attempt_wins(s, (n - 1) as nat);
        let (r, s2) = spec_begin_resource(s1);
        (
            (w + if r {
                1nat
            } else {
                0nat
            }) as nat,
            s2,
        )
    }
}

/// However many times the health-monitor start sequence runs, exactly one
/// attempt wins the guard — so exactly one probe loop is ever launched.
pub proof fn lemma_health_attempts_win_once(s: SupervisorState, n: nat)
    requires
        !s.health_task_running,
        n >= 1,
    ensures
        health_attempt_wins(s, n).0 == 1,
        health_attempt_wins(s, n).1.health_task_running,
    decreases n,
{
    if n > 1 {
        lemma_health_attempts_win_once(s, (n - 1) as nat);
    } else {
        assert(health_attempt_wins(s, 0) == (0nat, s));
    }
}

/// However many times the resource-monitor start sequence runs, exactly one
/// attempt wins the guard — so exactly one sampling loop is ever launched.
pub proof fn lemma_resource_attempts_win_once(s: SupervisorState, n: nat)
    requires
        !s.resource_task_running,
        n >= 1,
    ensures
        resource_attempt_wins(s, n).0 == 1,
        resource_attempt_wins(s, n).1.resource_task_running,
    decreases n,
{
    if n > 1 {
        lemma_resource_attempts_win_once(s, (n - 1) as nat);
    } else {
        assert(resource_attempt_wins(s, 0) == (0nat, s));
    }
}

} // verus!
