//! Clearing away workers that nobody owns any more: up to three rounds of
//! listing the processes, force-terminating what is found, and looking
//! again. The caller does the work; this module decides what comes next.

use vstd::prelude::*;
use crate::census::{is_worker_present, shows_worker, CensusReport, Platform};

verus! {

/// Number of rounds after which the cleanup gives up.
pub const CLEANUP_ROUNDS: u8 = 3;

/// Milliseconds to wait after a termination request and between rounds.
pub const CLEANUP_WAIT_MILLIS: u64 = 1000;

/// Where a cleanup stands within its round.
#[derive(Debug, Clone, Copy, PartialEq, Eq, Structural)]
pub enum CleanupStage {
    /// Waiting for the round's first listing.
    Snapshot,
    /// Waiting for the termination request to return.
    Kill,
    /// Waiting for the terminated processes to go away.
    Settle,
    /// Waiting for the listing that shows whether they went.
    Recheck,
    /// Waiting before the next round.
    Pause,
    /// Nothing more to do.
    Finished,
}

/// What the caller is asked to do next.
#[derive(Debug, Clone, Copy, PartialEq, Eq, Structural)]
pub enum CleanupAction {
    /// List the processes and report the listing.
    TakeSnapshot,
    /// Force-terminate every worker and report whether the request ran.
    KillAll,
    /// Wait `CLEANUP_WAIT_MILLIS` and report back.
    Wait,
    /// Stop: the cleanup is over.
    Finish,
}

/// What the caller reports back.
#[derive(Debug, PartialEq, Eq)]
pub enum CleanupEvent {
    /// The outcome of `TakeSnapshot`.
    Snapshot(CensusReport),
    /// The outcome of `KillAll`: whether the request could be run.
    KillReturned(bool),
    /// The wait is over.
    WaitOver,
}

/// A `CleanupEvent` with its listing as text.
pub enum CleanupEventView {
    Snapshot(Option<Seq<char>>),
    KillReturned(bool),
    WaitOver,
}

impl View for CleanupEvent {
    type V = CleanupEventView;

    open spec fn view(&self) -> CleanupEventView {
        match self {
            CleanupEvent::Snapshot(report) => CleanupEventView::Snapshot(report@),
            CleanupEvent::KillReturned(ran) => CleanupEventView::KillReturned(*ran),
            CleanupEvent::WaitOver => CleanupEventView::WaitOver,
        }
    }
}

/// The state of a cleanup: the round it is in, counted from 1, and the
/// stage within the round.
pub struct CleanupState {
    pub platform: Platform,
    pub round: nat,
    pub stage: CleanupStage,
}

/// A cleanup starts with a listing. Where no termination command is known,
/// there is nothing to do.
pub open spec fn cleanup_start(platform: Platform) -> CleanupState {
    CleanupState {
        platform,
        round: 1,
        stage: if platform == Platform::Windows {
            CleanupStage::Snapshot
        } else {
            CleanupStage::Finished
        },
    }
}

/// The round is given up: pause before the next one, or stop after the last.
pub open spec fn round_given_up(state: CleanupState) -> CleanupState {
    if state.round < CLEANUP_ROUNDS {
        CleanupState { stage: CleanupStage::Pause, ..state }
    } else {
        CleanupState { stage: CleanupStage::Finished, ..state }
    }
}

/// The event is the answer to what the state is waiting for.
pub open spec fn cleanup_accepts(state: CleanupState, event: CleanupEventView) -> bool {
    match (state.stage, event) {
        (CleanupStage::Snapshot, CleanupEventView::Snapshot(_)) => true,
        (CleanupStage::Kill, CleanupEventView::KillReturned(_)) => true,
        (CleanupStage::Settle, CleanupEventView::WaitOver) => true,
        (CleanupStage::Recheck, CleanupEventView::Snapshot(_)) => true,
        (CleanupStage::Pause, CleanupEventView::WaitOver) => true,
        _ => false,
    }
}

/// The state after an event. An event that the state is not waiting for
/// changes nothing.
pub open spec fn cleanup_step(state: CleanupState, event: CleanupEventView) -> CleanupState {
    match (state.stage, event) {
        (CleanupStage::Snapshot, CleanupEventView::Snapshot(report)) => {
            if report is None {
                round_given_up(state)
            } else if shows_worker(report, state.platform) {
                CleanupState { stage: CleanupStage::Kill, ..state }
            } else {
                CleanupState { stage: CleanupStage::Finished, ..state }
            }
        },
        (CleanupStage::Kill, CleanupEventView::KillReturned(ran)) => {
            if ran {
                CleanupState { stage: CleanupStage::Settle, ..state }
            } else {
                round_given_up(state)
            }
        },
        (CleanupStage::Settle, CleanupEventView::WaitOver) => CleanupState {
            stage: CleanupStage::Recheck,
            ..state
        },
        (CleanupStage::Recheck, CleanupEventView::Snapshot(report)) => {
            if report is Some && !shows_worker(report, state.platform) {
                CleanupState { stage: CleanupStage::Finished, ..state }
            } else {
                round_given_up(state)
            }
        },
        (CleanupStage::Pause, CleanupEventView::WaitOver) => CleanupState {
            round: state.round + 1,
            stage: CleanupStage::Snapshot,
            ..state
        },
        _ => state,
    }
}

/// What the caller has to do in a state.
pub open spec fn cleanup_pending(state: CleanupState) -> CleanupAction {
    match state.stage {
        CleanupStage::Snapshot | CleanupStage::Recheck => CleanupAction::TakeSnapshot,
        CleanupStage::Kill => CleanupAction::KillAll,
        CleanupStage::Settle | CleanupStage::Pause => CleanupAction::Wait,
        CleanupStage::Finished => CleanupAction::Finish,
    }
}

/// The state after a sequence of events, taken in order.
pub open spec fn cleanup_run(state: CleanupState, events: Seq<CleanupEventView>) -> CleanupState
    decreases events.len(),
{
    if events.len() == 0 {
        state
    } else {
        cleanup_run(cleanup_step(state, events[0]), events.skip(1))
    }
}

/// How often `KillAll` is asked for while the events are taken in order.
pub open spec fn kill_requests(state: CleanupState, events: Seq<CleanupEventView>) -> nat
    decreases events.len(),
{
    if events.len() == 0 {
        0
    } else {
        let next = cleanup_step(state, events[0]);
        let asked: nat = if next.stage == CleanupStage::Kill && state.stage != CleanupStage::Kill {
            1
        } else {
            0
        };
        asked + kill_requests(next, events.skip(1))
    }
}

/// How many of the events the cleanup was waiting for when they came.
pub open spec fn accepted_events(state: CleanupState, events: Seq<CleanupEventView>) -> nat
    decreases events.len(),
{
    if events.len() == 0 {
        0
    } else {
        let counted: nat = if cleanup_accepts(state, events[0]) {
            1
        } else {
            0
        };
        counted + accepted_events(cleanup_step(state, events[0]), events.skip(1))
    }
}

/// An upper bound on the actions still to come.
pub open spec fn actions_left(state: CleanupState) -> nat {
    if state.stage == CleanupStage::Finished || state.round > CLEANUP_ROUNDS {
        0
    } else {
        let rounds_after: nat = (CLEANUP_ROUNDS - state.round) as nat;
        let in_round: nat = match state.stage {
            CleanupStage::Snapshot => 5,
            CleanupStage::Kill => 4,
            CleanupStage::Settle => 3,
            CleanupStage::Recheck => 2,
            CleanupStage::Pause => 1,
            CleanupStage::Finished => 0,
        };
        rounds_after * 5 + in_round
    }
}

/// An upper bound on the termination requests still to come.
pub open spec fn kills_left(state: CleanupState) -> nat {
    if state.stage == CleanupStage::Finished || state.round > CLEANUP_ROUNDS {
        0
    } else {
        let rounds_after: nat = (CLEANUP_ROUNDS - state.round) as nat;
        if state.stage == CleanupStage::Snapshot {
            rounds_after + 1
        } else {
            rounds_after
        }
    }
}

/// The state is one that a cleanup can be in.
pub open spec fn cleanup_state_valid(state: CleanupState) -> bool {
    &&& 1 <= state.round <= CLEANUP_ROUNDS
    &&& state.stage == CleanupStage::Pause ==> state.round < CLEANUP_ROUNDS
}

/// Every step keeps the round within bounds.
pub proof fn lemma_step_keeps_valid(state: CleanupState, event: CleanupEventView)
    requires
        cleanup_state_valid(state),
    ensures
        cleanup_state_valid(cleanup_step(state, event)),
        cleanup_step(state, event).platform == state.platform,
{
}

/// Every event that the cleanup was waiting for brings it nearer to its
/// end; any other event leaves it where it is.
pub proof fn lemma_step_makes_progress(state: CleanupState, event: CleanupEventView)
    requires
        cleanup_state_valid(state),
    ensures
        cleanup_accepts(state, event) ==> actions_left(cleanup_step(state, event)) < actions_left(
            state,
        ),
        !cleanup_accepts(state, event) ==> cleanup_step(state, event) == state,
{
}

/// A cleanup performs at most fifteen actions: however the listings and the
/// termination requests turn out, no more than fifteen reports are ever
/// waited for.
pub proof fn lemma_cleanup_is_bounded(platform: Platform, events: Seq<CleanupEventView>)
    ensures
        accepted_events(cleanup_start(platform), events) <= 15,
        accepted_events(cleanup_start(platform), events) == 15 ==> cleanup_run(
            cleanup_start(platform),
            events,
        ).stage == CleanupStage::Finished,
{
    lemma_accepted_within_budget(cleanup_start(platform), events);
}

proof fn lemma_accepted_within_budget(state: CleanupState, events: Seq<CleanupEventView>)
    requires
        cleanup_state_valid(state),
    ensures
        cleanup_state_valid(cleanup_run(state, events)),
        accepted_events(state, events) + actions_left(cleanup_run(state, events)) <= actions_left(
            state,
        ),
    decreases events.len(),
{
    if events.len() > 0 {
        lemma_step_keeps_valid(state, events[0]);
        lemma_step_makes_progress(state, events[0]);
        lemma_accepted_within_budget(cleanup_step(state, events[0]), events.skip(1));
    }
}

/// A cleanup asks for termination at most three times, whatever is
/// reported to it.
pub proof fn lemma_at_most_three_kills(platform: Platform, events: Seq<CleanupEventView>)
    ensures
        kill_requests(cleanup_start(platform), events) <= CLEANUP_ROUNDS,
{
    lemma_kills_within_budget(cleanup_start(platform), events);
}

proof fn lemma_kills_within_budget(state: CleanupState, events: Seq<CleanupEventView>)
    requires
        cleanup_state_valid(state),
    ensures
        kill_requests(state, events) <= kills_left(state),
    decreases events.len(),
{
    if events.len() > 0 {
        lemma_step_keeps_valid(state, events[0]);
        lemma_kills_within_budget(cleanup_step(state, events[0]), events.skip(1));
    }
}

/// Once finished, a cleanup stays finished and asks for nothing more.
pub proof fn lemma_finished_is_final(state: CleanupState, events: Seq<CleanupEventView>)
    requires
        state.stage == CleanupStage::Finished,
    ensures
        cleanup_run(state, events) == state,
        kill_requests(state, events) == 0,
    decreases events.len(),
{
    if events.len() > 0 {
        lemma_finished_is_final(state, events.skip(1));
    }
}

/// One run of the orphan cleanup.
#[derive(Debug, Clone, Copy)]
pub struct OrphanCleanup {
    platform: Platform,
    round: u8,
    stage: CleanupStage,
}

impl View for OrphanCleanup {
    type V = CleanupState;

    closed spec fn view(&self) -> CleanupState {
        CleanupState { platform: self.platform, round: self.round as nat, stage: self.stage }
    }
}

impl OrphanCleanup {
    #[verifier::type_invariant]
    spec fn within_rounds(self) -> bool {
        &&& 1 <= self.round <= CLEANUP_ROUNDS
        &&& self.stage == CleanupStage::Pause ==> self.round < CLEANUP_ROUNDS
    }

    /// Starts a cleanup.
    pub fn begin(platform: Platform) -> (cleanup: Self)
        ensures
            cleanup@ == cleanup_start(platform),
    {
        let stage = match platform {
            Platform::Windows => CleanupStage::Snapshot,
            Platform::Other => CleanupStage::Finished,
        };
        OrphanCleanup { platform, round: 1, stage }
    }

    /// What the caller has to do now.
    pub fn pending(&self) -> (action: CleanupAction)
        ensures
            action == cleanup_pending(self@),
    {
        match self.stage {
            CleanupStage::Snapshot | CleanupStage::Recheck => CleanupAction::TakeSnapshot,
            CleanupStage::Kill => CleanupAction::KillAll,
            CleanupStage::Settle | CleanupStage::Pause => CleanupAction::Wait,
            CleanupStage::Finished => CleanupAction::Finish,
        }
    }

    /// Whether the cleanup is over.
    pub fn is_finished(&self) -> (finished: bool)
        ensures
            finished == (self@.stage == CleanupStage::Finished),
    {
        match self.stage {
            CleanupStage::Finished => true,
            _ => false,
        }
    }

    /// The round the cleanup is in, counted from 1.
    pub fn round(&self) -> (round: u8)
        ensures
            round == self@.round,
            1 <= round <= CLEANUP_ROUNDS,
    {
        proof {
            use_type_invariant(self);
        }
        self.round
    }

    fn give_up_round(&mut self)
        ensures
            final(self)@ == round_given_up(old(self)@),
    {
        proof {
            use_type_invariant(&*self);
        }
        if self.round < CLEANUP_ROUNDS {
            self.stage = CleanupStage::Pause;
        } else {
            self.stage = CleanupStage::Finished;
        }
    }

    /// Takes the caller's report and moves on.
    pub fn advance(&mut self, event: &CleanupEvent)
        ensures
            final(self)@ == cleanup_step(old(self)@, event@),
    {
        proof {
            use_type_invariant(&*self);
        }
        match event {
            CleanupEvent::Snapshot(report) => {
                match self.stage {
                    CleanupStage::Snapshot => {
                        match report {
                            CensusReport::Unavailable => {
                                self.give_up_round();
                            },
                            CensusReport::Listing(_) => {
                                if is_worker_present(report, self.platform) {
                                    self.stage = CleanupStage::Kill;
                                } else {
                                    self.stage = CleanupStage::Finished;
                                }
                            },
                        }
                    },
                    CleanupStage::Recheck => {
                        match report {
                            CensusReport::Unavailable => {
                                self.give_up_round();
                            },
                            CensusReport::Listing(_) => {
                                if is_worker_present(report, self.platform) {
                                    self.give_up_round();
                                } else {
                                    self.stage = CleanupStage::Finished;
                                }
                            },
                        }
                    },
                    _ => {},
                }
            },
            CleanupEvent::KillReturned(ran) => {
                match self.stage {
                    CleanupStage::Kill => {
                        if *ran {
                            self.stage = CleanupStage::Settle;
                        } else {
                            self.give_up_round();
                        }
                    },
                    _ => {},
                }
            },
            CleanupEvent::WaitOver => {
                match self.stage {
                    CleanupStage::Settle => {
                        self.stage = CleanupStage::Recheck;
                    },
                    CleanupStage::Pause => {
                        self.stage = CleanupStage::Snapshot;
                        self.round = self.round + 1;
                    },
                    _ => {},
                }
            },
        }
    }
}

} // verus!
