//! The supervisor's record of the one worker it may own.

use vstd::prelude::*;

verus! {

/// Where a supervisor stands with respect to its own worker.
#[derive(Debug, Clone, Copy, PartialEq, Eq, Structural)]
pub enum Phase {
    /// No worker is owned and none is being started.
    Idle,
    /// A start has reserved the slot; its worker is not stored yet.
    Starting,
    /// A worker is owned.
    Running,
    /// The worker was handed out for termination, which is not over yet.
    Stopping,
}

/// What a supervisor holds: its phase and, while running, the handle.
pub struct SupervisorView<H> {
    pub phase: Phase,
    pub handle: Option<H>,
}

/// The supervisor of one worker. `H` is whatever stands for a spawned
/// process to the caller; the supervisor only keeps it.
pub struct Supervisor<H> {
    phase: Phase,
    handle: Option<H>,
}

impl<H> View for Supervisor<H> {
    type V = SupervisorView<H>;

    closed spec fn view(&self) -> SupervisorView<H> {
        SupervisorView { phase: self.phase, handle: self.handle }
    }
}

/// A handle is held exactly while running.
pub open spec fn supervisor_valid<H>(state: SupervisorView<H>) -> bool {
    state.handle is Some <==> state.phase == Phase::Running
}

/// A start asks for the slot: it gets it from an idle supervisor only.
pub open spec fn reserve<H>(state: SupervisorView<H>) -> SupervisorView<H> {
    if state.phase == Phase::Idle {
        SupervisorView { phase: Phase::Starting, handle: None }
    } else {
        state
    }
}

/// The start that holds the slot stores its worker.
pub open spec fn install<H>(state: SupervisorView<H>, handle: H) -> SupervisorView<H> {
    if state.phase == Phase::Starting {
        SupervisorView { phase: Phase::Running, handle: Some(handle) }
    } else {
        state
    }
}

/// The start that holds the slot gives it back.
pub open spec fn release<H>(state: SupervisorView<H>) -> SupervisorView<H> {
    if state.phase == Phase::Starting {
        SupervisorView { phase: Phase::Idle, handle: None }
    } else {
        state
    }
}

/// A stop takes the worker out of the slot.
pub open spec fn surrender<H>(state: SupervisorView<H>) -> SupervisorView<H> {
    if state.phase == Phase::Running {
        SupervisorView { phase: Phase::Stopping, handle: None }
    } else {
        state
    }
}

/// The stop that took the worker is done with it.
pub open spec fn settle<H>(state: SupervisorView<H>) -> SupervisorView<H> {
    if state.phase == Phase::Stopping {
        SupervisorView { phase: Phase::Idle, handle: None }
    } else {
        state
    }
}

/// The worker was seen to have exited by itself.
pub open spec fn reap<H>(state: SupervisorView<H>) -> SupervisorView<H> {
    if state.phase == Phase::Running {
        SupervisorView { phase: Phase::Idle, handle: None }
    } else {
        state
    }
}

/// What a look at the worker's process showed.
#[derive(Debug, Clone, Copy, PartialEq, Eq, Structural)]
pub enum Liveness {
    /// The process has not exited.
    Alive,
    /// The process has exited.
    Exited,
    /// The look failed; nothing is known.
    Unknown,
}

/// The supervisor after a look at its worker: a worker that has exited is
/// let go, everything else stays.
pub open spec fn observed<H>(state: SupervisorView<H>, liveness: Liveness) -> SupervisorView<H> {
    if liveness == Liveness::Exited {
        reap(state)
    } else {
        state
    }
}

/// The three signals that make up the supervisor's status.
#[derive(Debug, Clone, Copy, PartialEq, Eq, Structural)]
pub struct ProxyStatusInfo {
    /// A worker runs, this supervisor's or another.
    pub is_running: bool,
    /// This supervisor owns a worker.
    pub is_managed_running: bool,
    /// The census shows a worker.
    pub is_external_running: bool,
    /// The system proxy is enabled.
    pub system_proxy_enabled: bool,
}

/// The status for three fresh readings.
pub open spec fn status_of(managed: bool, external: bool, system_proxy: bool) -> ProxyStatusInfo {
    ProxyStatusInfo {
        is_running: managed || external,
        is_managed_running: managed,
        is_external_running: external,
        system_proxy_enabled: system_proxy,
    }
}

impl<H> Supervisor<H> {
    #[verifier::type_invariant]
    spec fn slot_matches_phase(self) -> bool {
        self.handle is Some <==> self.phase == Phase::Running
    }

    /// A supervisor that owns nothing.
    pub fn new() -> (supervisor: Self)
        ensures
            supervisor@ == (SupervisorView::<H> { phase: Phase::Idle, handle: None }),
    {
        Supervisor { phase: Phase::Idle, handle: None }
    }

    /// The current phase.
    pub fn phase(&self) -> (phase: Phase)
        ensures
            phase == self@.phase,
            supervisor_valid(self@),
    {
        proof {
            use_type_invariant(self);
        }
        self.phase
    }

    /// Whether this supervisor owns a worker.
    pub fn is_running(&self) -> (running: bool)
        ensures
            running == (self@.handle is Some),
            running == (self@.phase == Phase::Running),
    {
        proof {
            use_type_invariant(self);
        }
        self.handle.is_some()
    }

    /// The worker that is owned, if there is one.
    pub fn handle(&self) -> (handle: Option<&H>)
        ensures
            match handle {
                Some(held) => self@.handle == Some(*held),
                None => self@.handle is None,
            },
    {
        self.handle.as_ref()
    }

    /// The status: whether this supervisor owns a worker, beside what the
    /// census and the system proxy setting were just read to say. Nothing
    /// changes.
    pub fn status(&self, external: bool, system_proxy: bool) -> (status: ProxyStatusInfo)
        ensures
            status == status_of(self@.handle is Some, external, system_proxy),
            status.is_running == (status.is_managed_running || status.is_external_running),
    {
        let managed = self.is_running();
        ProxyStatusInfo {
            is_running: managed || external,
            is_managed_running: managed,
            is_external_running: external,
            system_proxy_enabled: system_proxy,
        }
    }

    /// Takes note of a look at the worker's process. Returns whether the
    /// worker is known to run, and the handle to drop where it was seen to
    /// have exited.
    pub fn check_status(&mut self, liveness: Liveness) -> (checked: (bool, Option<H>))
        ensures
            final(self)@ == observed(old(self)@, liveness),
            checked.0 == (old(self)@.phase == Phase::Running && liveness == Liveness::Alive),
            checked.1 == if old(self)@.phase == Phase::Running && liveness == Liveness::Exited {
                old(self)@.handle
            } else {
                None
            },
    {
        proof {
            use_type_invariant(&*self);
        }
        match self.phase {
            Phase::Running => match liveness {
                Liveness::Alive => (true, None),
                Liveness::Exited => {
                    let mut other = Supervisor { phase: Phase::Idle, handle: None };
                    core::mem::swap(self, &mut other);
                    (false, other.handle)
                },
                Liveness::Unknown => (false, None),
            },
            _ => (false, None),
        }
    }

    /// Reserves the slot for a start. Returns whether the slot was free;
    /// where it was not, nothing changes.
    pub fn begin_start(&mut self) -> (reserved: bool)
        ensures
            reserved == (old(self)@.phase == Phase::Idle),
            final(self)@ == reserve(old(self)@),
    {
        proof {
            use_type_invariant(&*self);
        }
        match self.phase {
            Phase::Idle => {
                self.phase = Phase::Starting;
                true
            },
            _ => false,
        }
    }

    /// Stores the worker of the start that holds the slot. Where no start
    /// holds it, the handle comes back and nothing changes.
    pub fn complete_start(&mut self, handle: H) -> (refused: Option<H>)
        ensures
            final(self)@ == install(old(self)@, handle),
            refused == if old(self)@.phase == Phase::Starting {
                None
            } else {
                Some(handle)
            },
    {
        proof {
            use_type_invariant(&*self);
        }
        match self.phase {
            Phase::Starting => {
                *self = Supervisor { phase: Phase::Running, handle: Some(handle) };
                None
            },
            _ => Some(handle),
        }
    }

    /// Gives the reserved slot back after a start that did not spawn.
    pub fn abort_start(&mut self)
        ensures
            final(self)@ == release(old(self)@),
    {
        proof {
            use_type_invariant(&*self);
        }
        match self.phase {
            Phase::Starting => {
                self.phase = Phase::Idle;
            },
            _ => {},
        }
    }

    /// Takes the worker out for termination. The record is cleared at
    /// once, whatever becomes of the termination.
    pub fn begin_stop(&mut self) -> (taken: Option<H>)
        ensures
            taken == old(self)@.handle,
            final(self)@ == surrender(old(self)@),
    {
        proof {
            use_type_invariant(&*self);
        }
        match self.phase {
            Phase::Running => {
                let mut other = Supervisor { phase: Phase::Stopping, handle: None };
                core::mem::swap(self, &mut other);
                other.handle
            },
            _ => None,
        }
    }

    /// Ends the stop that took the worker out.
    pub fn complete_stop(&mut self)
        ensures
            final(self)@ == settle(old(self)@),
    {
        proof {
            use_type_invariant(&*self);
        }
        match self.phase {
            Phase::Stopping => {
                self.phase = Phase::Idle;
            },
            _ => {},
        }
    }
}

} // verus!
