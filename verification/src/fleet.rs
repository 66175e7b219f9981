//! Many calls at once: starts and stops that take turns at one
//! supervisor, each at its own pace. This module states what holds
//! however their steps interleave.

use vstd::prelude::*;
use crate::census::Platform;
use crate::config::ProxyConfigView;
use crate::start::{
    holds_slot, start_begin, start_pending, start_step, StartAction, StartEventView, StartState,
};
use crate::stop::{stop_begin, stop_step, StopEventView, StopStage, StopState};
use crate::supervisor::{reap, supervisor_valid, surrender, Phase, SupervisorView};

verus! {

/// One call that is under way.
pub enum Caller {
    Start(StartState),
    Stop(StopState),
}

/// A supervisor and the calls that are under way against it.
pub struct Fleet<H> {
    pub supervisor: SupervisorView<H>,
    pub callers: Seq<Caller>,
}

/// What can happen next.
pub enum FleetEvent<H> {
    /// Somebody calls `start`.
    StartCalled(ProxyConfigView, Platform),
    /// Somebody calls `stop`.
    StopCalled,
    /// The start at the position is told something.
    StartTold(int, StartEventView<H>),
    /// The stop at the position is told something.
    StopTold(int, StopEventView),
    /// The worker is seen to have exited by itself.
    WorkerExited,
}

/// Nothing is owned and nobody calls.
pub open spec fn fleet_at_rest<H>() -> Fleet<H> {
    Fleet {
        supervisor: SupervisorView { phase: Phase::Idle, handle: None },
        callers: Seq::empty(),
    }
}

/// The call holds the supervisor's slot for a spawn.
pub open spec fn is_starter(caller: Caller) -> bool {
    caller matches Caller::Start(state) && holds_slot(state.stage)
}

/// The call holds a worker that it was handed for termination.
pub open spec fn is_terminator(caller: Caller) -> bool {
    caller matches Caller::Stop(state) && state.stage == StopStage::Terminate
}

/// The event is one that callers who do as they are asked can bring
/// about: a spawned worker is reported only to a start that asked for a
/// spawn.
pub open spec fn fleet_admits<H>(fleet: Fleet<H>, event: FleetEvent<H>) -> bool {
    match event {
        FleetEvent::StartTold(at, told) => {
            &&& 0 <= at < fleet.callers.len()
            &&& fleet.callers[at] is Start
            &&& told is Spawned ==> start_pending(fleet.callers[at]->Start_0) == StartAction::Spawn
        },
        FleetEvent::StopTold(at, _) => 0 <= at < fleet.callers.len() && fleet.callers[at] is Stop,
        _ => true,
    }
}

/// The fleet after an event. An event that is not admitted changes
/// nothing.
pub open spec fn fleet_step<H>(fleet: Fleet<H>, event: FleetEvent<H>) -> Fleet<H> {
    if !fleet_admits(fleet, event) {
        fleet
    } else {
        match event {
            FleetEvent::StartCalled(config, platform) => Fleet {
                callers: fleet.callers.push(Caller::Start(start_begin(config, platform))),
                ..fleet
            },
            FleetEvent::StopCalled => Fleet {
                supervisor: surrender(fleet.supervisor),
                callers: fleet.callers.push(Caller::Stop(stop_begin(fleet.supervisor))),
            },
            FleetEvent::StartTold(at, told) => {
                let stepped = start_step(fleet.callers[at]->Start_0, fleet.supervisor, told);
                Fleet {
                    supervisor: stepped.supervisor,
                    callers: fleet.callers.update(at, Caller::Start(stepped.state)),
                }
            },
            FleetEvent::StopTold(at, told) => {
                let stepped = stop_step(fleet.callers[at]->Stop_0, fleet.supervisor, told);
                Fleet {
                    supervisor: stepped.supervisor,
                    callers: fleet.callers.update(at, Caller::Stop(stepped.state)),
                }
            },
            FleetEvent::WorkerExited => Fleet { supervisor: reap(fleet.supervisor), ..fleet },
        }
    }
}

/// The fleet after a sequence of events, taken in order.
pub open spec fn fleet_run<H>(fleet: Fleet<H>, events: Seq<FleetEvent<H>>) -> Fleet<H>
    decreases events.len(),
{
    if events.len() == 0 {
        fleet
    } else {
        fleet_run(fleet_step(fleet, events[0]), events.skip(1))
    }
}

/// How many of the calls pass a test.
pub open spec fn count_of(callers: Seq<Caller>, test: spec_fn(Caller) -> bool) -> nat
    decreases callers.len(),
{
    if callers.len() == 0 {
        0
    } else {
        count_of(callers.drop_last(), test) + if test(callers.last()) {
            1nat
        } else {
            0nat
        }
    }
}

/// The test for a call that holds the slot.
pub open spec fn starters() -> spec_fn(Caller) -> bool {
    |caller: Caller| is_starter(caller)
}

/// The test for a call that holds a worker for termination.
pub open spec fn terminators() -> spec_fn(Caller) -> bool {
    |caller: Caller| is_terminator(caller)
}

/// The worker handles that exist: the one in the supervisor's slot and
/// those that were handed out for termination and are not disposed of.
pub open spec fn handles_in_existence<H>(fleet: Fleet<H>) -> nat {
    count_of(fleet.callers, terminators()) + if fleet.supervisor.handle is Some {
        1nat
    } else {
        0nat
    }
}

/// The spawns that may be under way: one for each start that holds the
/// slot.
pub open spec fn spawns_in_prospect<H>(fleet: Fleet<H>) -> nat {
    count_of(fleet.callers, starters())
}

/// What holds of a fleet at every moment: the supervisor holds a handle
/// exactly while running, one start holds the slot exactly while it is
/// starting, and one stop holds the worker exactly while it is stopping.
pub open spec fn fleet_valid<H>(fleet: Fleet<H>) -> bool {
    &&& supervisor_valid(fleet.supervisor)
    &&& count_of(fleet.callers, starters()) == if fleet.supervisor.phase == Phase::Starting {
        1nat
    } else {
        0nat
    }
    &&& count_of(fleet.callers, terminators()) == if fleet.supervisor.phase == Phase::Stopping {
        1nat
    } else {
        0nat
    }
}

proof fn lemma_count_push(callers: Seq<Caller>, caller: Caller, test: spec_fn(Caller) -> bool)
    ensures
        count_of(callers.push(caller), test) == count_of(callers, test) + if test(caller) {
            1nat
        } else {
            0nat
        },
{
    assert(callers.push(caller).drop_last() =~= callers);
}

proof fn lemma_count_update(
    callers: Seq<Caller>,
    at: int,
    caller: Caller,
    test: spec_fn(Caller) -> bool,
)
    requires
        0 <= at < callers.len(),
    ensures
        count_of(callers.update(at, caller), test) + (if test(callers[at]) {
            1nat
        } else {
            0nat
        }) == count_of(callers, test) + if test(caller) {
            1nat
        } else {
            0nat
        },
    decreases callers.len(),
{
    if at == callers.len() - 1 {
        assert(callers.update(at, caller).drop_last() =~= callers.drop_last());
    } else {
        assert(callers.update(at, caller).drop_last() =~= callers.drop_last().update(at, caller));
        lemma_count_update(callers.drop_last(), at, caller, test);
    }
}

proof fn lemma_counted_is_present(callers: Seq<Caller>, at: int, test: spec_fn(Caller) -> bool)
    requires
        0 <= at < callers.len(),
        test(callers[at]),
    ensures
        count_of(callers, test) >= 1,
    decreases callers.len(),
{
    if at < callers.len() - 1 {
        lemma_counted_is_present(callers.drop_last(), at, test);
    }
}

/// Every event keeps a fleet valid.
pub proof fn lemma_fleet_step_keeps_valid<H>(fleet: Fleet<H>, event: FleetEvent<H>)
    requires
        fleet_valid(fleet),
    ensures
        fleet_valid(fleet_step(fleet, event)),
{
    if fleet_admits(fleet, event) {
        match event {
            FleetEvent::StartCalled(config, platform) => {
                let caller = Caller::Start(start_begin(config, platform));
                lemma_count_push(fleet.callers, caller, starters());
                lemma_count_push(fleet.callers, caller, terminators());
            },
            FleetEvent::StopCalled => {
                let caller = Caller::Stop(stop_begin(fleet.supervisor));
                lemma_count_push(fleet.callers, caller, starters());
                lemma_count_push(fleet.callers, caller, terminators());
            },
            FleetEvent::StartTold(at, told) => {
                let before = fleet.callers[at];
                let stepped = start_step(before->Start_0, fleet.supervisor, told);
                let after = Caller::Start(stepped.state);
                lemma_count_update(fleet.callers, at, after, starters());
                lemma_count_update(fleet.callers, at, after, terminators());
                if is_starter(before) {
                    lemma_counted_is_present(fleet.callers, at, starters());
                }
            },
            FleetEvent::StopTold(at, told) => {
                let before = fleet.callers[at];
                let stepped = stop_step(before->Stop_0, fleet.supervisor, told);
                let after = Caller::Stop(stepped.state);
                lemma_count_update(fleet.callers, at, after, starters());
                lemma_count_update(fleet.callers, at, after, terminators());
                if is_terminator(before) {
                    lemma_counted_is_present(fleet.callers, at, terminators());
                }
            },
            FleetEvent::WorkerExited => {},
        }
    }
}

/// In a valid fleet at most one worker handle exists, and none while a
/// spawn may be under way.
pub proof fn lemma_valid_fleet_has_one_handle<H>(fleet: Fleet<H>)
    requires
        fleet_valid(fleet),
    ensures
        handles_in_existence(fleet) + spawns_in_prospect(fleet) <= 1,
{
}

/// However starts and stops against one supervisor interleave, at most
/// one worker handle exists at any moment: in the slot, or handed out for
/// termination, never both, and no spawn is asked for while one exists.
pub proof fn lemma_at_most_one_handle<H>(events: Seq<FleetEvent<H>>)
    ensures
        fleet_valid(fleet_run(fleet_at_rest::<H>(), events)),
        handles_in_existence(fleet_run(fleet_at_rest::<H>(), events)) <= 1,
        handles_in_existence(fleet_run(fleet_at_rest::<H>(), events)) + spawns_in_prospect(
            fleet_run(fleet_at_rest::<H>(), events),
        ) <= 1,
{
    lemma_run_keeps_valid(fleet_at_rest::<H>(), events);
}

proof fn lemma_run_keeps_valid<H>(fleet: Fleet<H>, events: Seq<FleetEvent<H>>)
    requires
        fleet_valid(fleet),
    ensures
        fleet_valid(fleet_run(fleet, events)),
    decreases events.len(),
{
    if events.len() > 0 {
        lemma_fleet_step_keeps_valid(fleet, events[0]);
        lemma_run_keeps_valid(fleet_step(fleet, events[0]), events.skip(1));
    }
}

} // verus!
