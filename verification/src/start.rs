//! One call of `start`, step by step: the caller performs each requested
//! action outside any lock and reports the result; the call decides what
//! follows and touches the supervisor only while it is being advanced.

use vstd::prelude::*;
use vstd::string::StringExecFns;
use crate::census::{is_worker_present, shows_worker, CensusReport, Platform};
use crate::cleanup::{
    cleanup_pending, cleanup_start, cleanup_step, CleanupAction, CleanupEvent, CleanupEventView,
    CleanupStage, CleanupState, OrphanCleanup,
};
use crate::config::{ProxyConfig, ProxyConfigView};
use crate::reconcile::{change_after_start, StateChange};
use crate::supervisor::{
    install, release, reserve, supervisor_valid, Phase, Supervisor, SupervisorView,
};
use crate::worker::{worker_arguments, worker_arguments_of};

verus! {

/// How a start ended well.
#[derive(Debug, Clone, Copy, PartialEq, Eq, Structural)]
pub enum StartSuccess {
    /// A worker was spawned and is now owned by the supervisor.
    Started,
    /// A worker that is not the supervisor's own was already present;
    /// none was spawned and none is owned.
    ExternallyRunning,
}

/// Why a start did not spawn.
#[derive(Debug, PartialEq, Eq)]
pub enum StartError {
    /// This supervisor already owns a worker, or is starting or stopping
    /// one.
    AlreadyRunning,
    /// The worker executable is not where it has to be.
    ExecutableNotFound(String),
    /// A foreign worker is still present after the cleanup.
    OrphanSurvived,
    /// The configuration names no server.
    MissingServerAddress,
    /// The operating system refused to spawn the worker.
    SpawnFailed(String),
}

/// A `StartError` with its description as text.
pub enum StartErrorView {
    AlreadyRunning,
    ExecutableNotFound(Seq<char>),
    OrphanSurvived,
    MissingServerAddress,
    SpawnFailed(Seq<char>),
}

impl View for StartError {
    type V = StartErrorView;

    open spec fn view(&self) -> StartErrorView {
        match self {
            StartError::AlreadyRunning => StartErrorView::AlreadyRunning,
            StartError::ExecutableNotFound(why) => StartErrorView::ExecutableNotFound(why@),
            StartError::OrphanSurvived => StartErrorView::OrphanSurvived,
            StartError::MissingServerAddress => StartErrorView::MissingServerAddress,
            StartError::SpawnFailed(why) => StartErrorView::SpawnFailed(why@),
        }
    }
}

/// The outcome of a start, as text.
pub type StartOutcomeView = Result<StartSuccess, StartErrorView>;

/// Where a start stands.
#[derive(Debug, Clone, Copy, PartialEq, Eq, Structural)]
pub enum StartStage {
    /// Waiting for the first census. When it comes in, the slot is looked
    /// at first, then the listing.
    Census,
    /// Slot reserved; waiting to hear whether the executable exists.
    Executable,
    /// Slot reserved; the orphan cleanup is under way.
    Cleanup,
    /// Slot reserved; waiting for the census after the cleanup.
    Recheck,
    /// Slot reserved; waiting for the spawn.
    Spawn,
    /// Ended well; waiting for the last state to be recorded.
    Record,
    /// Over.
    Done,
}

/// What the caller is asked to do next.
#[derive(Debug, Clone, Copy, PartialEq, Eq, Structural)]
pub enum StartAction {
    /// List the processes and report the listing.
    TakeCensus,
    /// Look for the worker executable in the install directory.
    LocateExecutable,
    /// Force-terminate every worker.
    KillAll,
    /// Wait for the cleanup's interval.
    Wait,
    /// Spawn the worker with the call's arguments.
    Spawn,
    /// Record in the last state that a worker is running, and save.
    Record,
    /// Return the outcome to whoever asked.
    Finish,
}

/// What the caller reports back. `H` stands for a spawned process.
pub enum StartEvent<H> {
    /// The outcome of `TakeCensus`.
    Census(CensusReport),
    /// The executable exists.
    Located,
    /// The executable does not exist, or its place cannot be told.
    NotLocated(String),
    /// The outcome of `KillAll`: whether the request could be run.
    KillReturned(bool),
    /// The wait is over.
    WaitOver,
    /// The worker was spawned.
    Spawned(H),
    /// The worker could not be spawned.
    SpawnFailed(String),
    /// The last state was recorded, or the attempt to save it failed.
    Recorded,
}

/// A `StartEvent` with its texts as text.
pub enum StartEventView<H> {
    Census(Option<Seq<char>>),
    Located,
    NotLocated(Seq<char>),
    KillReturned(bool),
    WaitOver,
    Spawned(H),
    SpawnFailed(Seq<char>),
    Recorded,
}

impl<H> View for StartEvent<H> {
    type V = StartEventView<H>;

    open spec fn view(&self) -> StartEventView<H> {
        match self {
            StartEvent::Census(report) => StartEventView::Census(report@),
            StartEvent::Located => StartEventView::Located,
            StartEvent::NotLocated(why) => StartEventView::NotLocated(why@),
            StartEvent::KillReturned(ran) => StartEventView::KillReturned(*ran),
            StartEvent::WaitOver => StartEventView::WaitOver,
            StartEvent::Spawned(handle) => StartEventView::Spawned(*handle),
            StartEvent::SpawnFailed(why) => StartEventView::SpawnFailed(why@),
            StartEvent::Recorded => StartEventView::Recorded,
        }
    }
}

/// The state of one start.
pub struct StartState {
    pub config: ProxyConfigView,
    pub platform: Platform,
    pub stage: StartStage,
    pub cleanup: CleanupState,
    pub outcome: Option<StartOutcomeView>,
}

/// A start begins with a census.
pub open spec fn start_begin(config: ProxyConfigView, platform: Platform) -> StartState {
    StartState {
        config,
        platform,
        stage: StartStage::Census,
        cleanup: cleanup_start(platform),
        outcome: None,
    }
}

/// The start holds the supervisor's slot.
pub open spec fn holds_slot(stage: StartStage) -> bool {
    stage == StartStage::Executable || stage == StartStage::Cleanup || stage == StartStage::Recheck
        || stage == StartStage::Spawn
}

/// The part of an event that concerns the cleanup.
pub open spec fn cleanup_event_of<H>(event: StartEventView<H>) -> Option<CleanupEventView> {
    match event {
        StartEventView::Census(report) => Some(CleanupEventView::Snapshot(report)),
        StartEventView::KillReturned(ran) => Some(CleanupEventView::KillReturned(ran)),
        StartEventView::WaitOver => Some(CleanupEventView::WaitOver),
        _ => None,
    }
}

/// The stage that follows a step of the cleanup.
pub open spec fn stage_after_cleanup(cleanup: CleanupState) -> StartStage {
    if cleanup.stage == CleanupStage::Finished {
        StartStage::Recheck
    } else {
        StartStage::Cleanup
    }
}

/// A start that ended without a worker of its own.
pub open spec fn start_ended(state: StartState, outcome: StartOutcomeView) -> StartState {
    StartState { stage: StartStage::Done, outcome: Some(outcome), ..state }
}

/// What one step of a start leaves behind.
pub struct StartStepped<H> {
    /// The start after the step.
    pub state: StartState,
    /// The supervisor after the step.
    pub supervisor: SupervisorView<H>,
    /// A spawned process that found no place, handed back to the caller.
    pub refused: Option<H>,
}

/// One step of a start: the state of the call and of the supervisor after
/// an event. An event that the call is not waiting for changes nothing; a
/// spawned process that comes with it is handed back.
pub open spec fn start_step<H>(
    state: StartState,
    supervisor: SupervisorView<H>,
    event: StartEventView<H>,
) -> StartStepped<H> {
    let unchanged = StartStepped {
        state,
        supervisor,
        refused: match event {
            StartEventView::Spawned(handle) => Some(handle),
            _ => None,
        },
    };
    match state.stage {
        StartStage::Census => match event {
            StartEventView::Census(report) => {
                if supervisor.phase != Phase::Idle {
                    StartStepped {
                        state: start_ended(state, Err(StartErrorView::AlreadyRunning)),
                        supervisor,
                        refused: None,
                    }
                } else if shows_worker(report, state.platform) {
                    StartStepped {
                        state: StartState {
                            stage: StartStage::Record,
                            outcome: Some(Ok(StartSuccess::ExternallyRunning)),
                            ..state
                        },
                        supervisor,
                        refused: None,
                    }
                } else {
                    StartStepped {
                        state: StartState { stage: StartStage::Executable, ..state },
                        supervisor: reserve(supervisor),
                        refused: None,
                    }
                }
            },
            _ => unchanged,
        },
        StartStage::Executable => match event {
            StartEventView::Located => StartStepped {
                state: StartState {
                    stage: stage_after_cleanup(cleanup_start(state.platform)),
                    cleanup: cleanup_start(state.platform),
                    ..state
                },
                supervisor,
                refused: None,
            },
            StartEventView::NotLocated(why) => StartStepped {
                state: start_ended(state, Err(StartErrorView::ExecutableNotFound(why))),
                supervisor: release(supervisor),
                refused: None,
            },
            _ => unchanged,
        },
        StartStage::Cleanup => match cleanup_event_of(event) {
            Some(report) => StartStepped {
                state: StartState {
                    stage: stage_after_cleanup(cleanup_step(state.cleanup, report)),
                    cleanup: cleanup_step(state.cleanup, report),
                    ..state
                },
                supervisor,
                refused: None,
            },
            None => unchanged,
        },
        StartStage::Recheck => match event {
            StartEventView::Census(report) => {
                if shows_worker(report, state.platform) {
                    StartStepped {
                        state: start_ended(state, Err(StartErrorView::OrphanSurvived)),
                        supervisor: release(supervisor),
                        refused: None,
                    }
                } else if state.config.server_addr.len() == 0 {
                    StartStepped {
                        state: start_ended(state, Err(StartErrorView::MissingServerAddress)),
                        supervisor: release(supervisor),
                        refused: None,
                    }
                } else {
                    StartStepped {
                        state: StartState { stage: StartStage::Spawn, ..state },
                        supervisor,
                        refused: None,
                    }
                }
            },
            _ => unchanged,
        },
        StartStage::Spawn => match event {
            StartEventView::Spawned(handle) => {
                if supervisor.phase == Phase::Starting {
                    StartStepped {
                        state: StartState {
                            stage: StartStage::Record,
                            outcome: Some(Ok(StartSuccess::Started)),
                            ..state
                        },
                        supervisor: install(supervisor, handle),
                        refused: None,
                    }
                } else {
                    StartStepped {
                        state: start_ended(state, Err(StartErrorView::AlreadyRunning)),
                        supervisor,
                        refused: Some(handle),
                    }
                }
            },
            StartEventView::SpawnFailed(why) => StartStepped {
                state: start_ended(state, Err(StartErrorView::SpawnFailed(why))),
                supervisor: release(supervisor),
                refused: None,
            },
            _ => unchanged,
        },
        StartStage::Record => match event {
            StartEventView::Recorded => StartStepped {
                state: StartState { stage: StartStage::Done, ..state },
                supervisor,
                refused: None,
            },
            _ => unchanged,
        },
        StartStage::Done => unchanged,
    }
}

/// What the caller has to do in a state.
pub open spec fn start_pending(state: StartState) -> StartAction {
    match state.stage {
        StartStage::Census | StartStage::Recheck => StartAction::TakeCensus,
        StartStage::Executable => StartAction::LocateExecutable,
        StartStage::Cleanup => match cleanup_pending(state.cleanup) {
            CleanupAction::KillAll => StartAction::KillAll,
            CleanupAction::Wait => StartAction::Wait,
            _ => StartAction::TakeCensus,
        },
        StartStage::Spawn => StartAction::Spawn,
        StartStage::Record => StartAction::Record,
        StartStage::Done => StartAction::Finish,
    }
}

/// The start and the supervisor after a sequence of events, taken in
/// order.
pub open spec fn start_run<H>(
    state: StartState,
    supervisor: SupervisorView<H>,
    events: Seq<StartEventView<H>>,
) -> StartStepped<H>
    decreases events.len(),
{
    if events.len() == 0 {
        StartStepped { state, supervisor, refused: None }
    } else {
        let stepped = start_step(state, supervisor, events[0]);
        start_run(stepped.state, stepped.supervisor, events.skip(1))
    }
}

/// What holds of a start at every moment: it asks for a spawn only with
/// a server address, it has an outcome exactly when it is through, and a
/// worker counts as started only where one could be asked for.
pub open spec fn start_state_valid(state: StartState) -> bool {
    &&& state.stage == StartStage::Spawn ==> state.config.server_addr.len() > 0
    &&& state.outcome is Some <==> (state.stage == StartStage::Record || state.stage
        == StartStage::Done)
    &&& state.stage == StartStage::Record ==> state.outcome->0 is Ok
    &&& state.outcome == Some(Ok::<StartSuccess, StartErrorView>(StartSuccess::Started))
        ==> state.config.server_addr.len() > 0
    &&& (state.outcome matches Some(Err(StartErrorView::SpawnFailed(_))))
        ==> state.config.server_addr.len() > 0
}

/// A step keeps what holds of a start, and never touches the
/// configuration.
pub proof fn lemma_start_step_keeps_valid<H>(
    state: StartState,
    supervisor: SupervisorView<H>,
    event: StartEventView<H>,
)
    requires
        start_state_valid(state),
    ensures
        start_state_valid(start_step(state, supervisor, event).state),
        start_step(state, supervisor, event).state.config == state.config,
        start_step(state, supervisor, event).state.platform == state.platform,
{
}

/// A start with an empty server address never asks for a spawn, and so
/// never ends with a worker started or with a spawn that failed, whatever
/// is reported to it and whatever the supervisor holds.
pub proof fn lemma_empty_address_never_spawns<H>(
    config: ProxyConfigView,
    platform: Platform,
    supervisor: SupervisorView<H>,
    events: Seq<StartEventView<H>>,
)
    requires
        config.server_addr.len() == 0,
    ensures
        start_pending(start_run(start_begin(config, platform), supervisor, events).state)
            != StartAction::Spawn,
        start_run(start_begin(config, platform), supervisor, events).state.outcome != Some(
            Ok::<StartSuccess, StartErrorView>(StartSuccess::Started),
        ),
        !(start_run(start_begin(config, platform), supervisor, events).state.outcome matches Some(
            Err(StartErrorView::SpawnFailed(_)),
        )),
{
    lemma_run_keeps_valid(start_begin(config, platform), supervisor, events);
}

proof fn lemma_run_keeps_valid<H>(
    state: StartState,
    supervisor: SupervisorView<H>,
    events: Seq<StartEventView<H>>,
)
    requires
        start_state_valid(state),
    ensures
        start_state_valid(start_run(state, supervisor, events).state),
        start_run(state, supervisor, events).state.config == state.config,
    decreases events.len(),
{
    if events.len() > 0 {
        lemma_start_step_keeps_valid(state, supervisor, events[0]);
        let stepped = start_step(state, supervisor, events[0]);
        lemma_run_keeps_valid(stepped.state, stepped.supervisor, events.skip(1));
    }
}

/// A start that reaches the check of its configuration with an empty
/// server address fails there, with the slot given back.
pub proof fn lemma_empty_address_is_rejected<H>(
    state: StartState,
    supervisor: SupervisorView<H>,
    report: Option<Seq<char>>,
)
    requires
        state.stage == StartStage::Recheck,
        state.config.server_addr.len() == 0,
        !shows_worker(report, state.platform),
    ensures
        start_step(state, supervisor, StartEventView::Census(report)).state.outcome == Some(
            Err::<StartSuccess, StartErrorView>(StartErrorView::MissingServerAddress),
        ),
        start_step(state, supervisor, StartEventView::Census(report)).supervisor == release(
            supervisor,
        ),
{
}

/// A start against a supervisor that is not idle is refused: it never
/// asks for a spawn, leaves the supervisor as it is, and ends with
/// `AlreadyRunning` as soon as its census comes in, whatever that census
/// shows. A worker that the census lists while the slot is held is the
/// supervisor's own, not a foreign one.
pub proof fn lemma_start_refused_unless_idle<H>(
    config: ProxyConfigView,
    platform: Platform,
    supervisor: SupervisorView<H>,
    events: Seq<StartEventView<H>>,
)
    requires
        supervisor.phase != Phase::Idle,
    ensures
        start_pending(start_run(start_begin(config, platform), supervisor, events).state)
            != StartAction::Spawn,
        start_run(start_begin(config, platform), supervisor, events).supervisor == supervisor,
        events.len() > 0 && events[0] is Census ==> start_run(
            start_begin(config, platform),
            supervisor,
            events,
        ).state.outcome == Some(
            Err::<StartSuccess, StartErrorView>(StartErrorView::AlreadyRunning),
        ),
        events.len() > 0 && events[0] is Census ==> start_pending(
            start_run(start_begin(config, platform), supervisor, events).state,
        ) == StartAction::Finish,
{
    lemma_refused_run(start_begin(config, platform), supervisor, events);
    if events.len() > 0 {
        let stepped = start_step(start_begin(config, platform), supervisor, events[0]);
        if events[0] is Census {
            lemma_done_is_final(stepped.state, stepped.supervisor, events.skip(1));
        }
    }
}

proof fn lemma_refused_run<H>(
    state: StartState,
    supervisor: SupervisorView<H>,
    events: Seq<StartEventView<H>>,
)
    requires
        supervisor.phase != Phase::Idle,
        !holds_slot(state.stage),
    ensures
        !holds_slot(start_run(state, supervisor, events).state.stage),
        start_run(state, supervisor, events).supervisor == supervisor,
    decreases events.len(),
{
    if events.len() > 0 {
        let stepped = start_step(state, supervisor, events[0]);
        lemma_refused_run(stepped.state, stepped.supervisor, events.skip(1));
    }
}

/// A start that is over stays as it is.
pub proof fn lemma_done_is_final<H>(
    state: StartState,
    supervisor: SupervisorView<H>,
    events: Seq<StartEventView<H>>,
)
    requires
        state.stage == StartStage::Done,
    ensures
        start_run(state, supervisor, events).state == state,
        start_run(state, supervisor, events).supervisor == supervisor,
    decreases events.len(),
{
    if events.len() > 0 {
        lemma_done_is_final(state, supervisor, events.skip(1));
    }
}

/// A start that was told of a spawned worker while it held the slot
/// leaves the supervisor running with that worker, so that the next start
/// finds it not idle.
pub proof fn lemma_started_means_running<H>(
    state: StartState,
    supervisor: SupervisorView<H>,
    handle: H,
)
    requires
        state.stage == StartStage::Spawn,
        supervisor.phase == Phase::Starting,
    ensures
        start_step(state, supervisor, StartEventView::Spawned(handle)).supervisor == (
        SupervisorView { phase: Phase::Running, handle: Some(handle) }),
        start_step(state, supervisor, StartEventView::Spawned(handle)).state.outcome == Some(
            Ok::<StartSuccess, StartErrorView>(StartSuccess::Started),
        ),
        start_step(state, supervisor, StartEventView::Spawned(handle)).refused is None,
{
}

/// What holds between a start and a supervisor that nobody else uses.
pub open spec fn start_alone<H>(state: StartState, supervisor: SupervisorView<H>) -> bool {
    let started = state.outcome == Some(Ok::<StartSuccess, StartErrorView>(StartSuccess::Started));
    &&& start_state_valid(state)
    &&& supervisor_valid(supervisor)
    &&& holds_slot(state.stage) ==> supervisor.phase == Phase::Starting
    &&& started ==> supervisor.phase == Phase::Running && supervisor.handle is Some
    &&& !holds_slot(state.stage) && !started ==> supervisor.phase == Phase::Idle
        && supervisor.handle is None
    &&& holds_slot(state.stage) ==> !started
}

/// A start that ends with a worker started leaves a supervisor that
/// nobody else uses running with a handle in its slot; any other end
/// leaves it idle. So of two starts in a row, the second finds the
/// supervisor of a first that went well not idle, and spawns nothing.
pub proof fn lemma_start_alone_ends_running_or_idle<H>(
    config: ProxyConfigView,
    platform: Platform,
    events: Seq<StartEventView<H>>,
)
    ensures
        ({
            let ended = start_run(
                start_begin(config, platform),
                SupervisorView::<H> { phase: Phase::Idle, handle: None },
                events,
            );
            if ended.state.outcome == Some(
                Ok::<StartSuccess, StartErrorView>(StartSuccess::Started),
            ) {
                ended.supervisor.phase == Phase::Running && ended.supervisor.handle is Some
            } else {
                ended.supervisor.handle is None
            }
        }),
{
    lemma_run_alone(
        start_begin(config, platform),
        SupervisorView::<H> { phase: Phase::Idle, handle: None },
        events,
    );
}

proof fn lemma_run_alone<H>(
    state: StartState,
    supervisor: SupervisorView<H>,
    events: Seq<StartEventView<H>>,
)
    requires
        start_alone(state, supervisor),
    ensures
        start_alone(
            start_run(state, supervisor, events).state,
            start_run(state, supervisor, events).supervisor,
        ),
    decreases events.len(),
{
    if events.len() > 0 {
        lemma_start_step_keeps_valid(state, supervisor, events[0]);
        let stepped = start_step(state, supervisor, events[0]);
        lemma_run_alone(stepped.state, stepped.supervisor, events.skip(1));
    }
}

/// Where the census shows a worker that is not the supervisor's own, the
/// start ends well without spawning: the supervisor stays idle and owns
/// nothing, and what is left to do is to record that a worker runs.
pub proof fn lemma_present_worker_short_circuits<H>(
    config: ProxyConfigView,
    platform: Platform,
    supervisor: SupervisorView<H>,
    report: Option<Seq<char>>,
)
    requires
        supervisor.phase == Phase::Idle,
        shows_worker(report, platform),
    ensures
        ({
            let stepped = start_step(
                start_begin(config, platform),
                supervisor,
                StartEventView::Census(report),
            );
            &&& stepped.state.outcome == Some(
                Ok::<StartSuccess, StartErrorView>(StartSuccess::ExternallyRunning),
            )
            &&& start_pending(stepped.state) == StartAction::Record
            &&& stepped.supervisor == supervisor
        }),
{
}

/// The outcome of a start with its description as text.
pub open spec fn outcome_text(outcome: Option<Result<StartSuccess, StartError>>) -> Option<
    StartOutcomeView,
> {
    match outcome {
        Some(Ok(success)) => Some(Ok(success)),
        Some(Err(error)) => Some(Err(error@)),
        None => None,
    }
}

/// What the caller of `start` is told about an outcome.
pub open spec fn start_message_of(outcome: StartOutcomeView) -> Seq<char> {
    match outcome {
        Ok(StartSuccess::Started) => "External proxy server started successfully"@,
        Ok(StartSuccess::ExternallyRunning) => "External proxy server already running externally"@,
        Err(StartErrorView::AlreadyRunning) => "External proxy server is already running"@,
        Err(StartErrorView::ExecutableNotFound(why)) => "Failed to create proxy server: "@ + why,
        Err(StartErrorView::OrphanSurvived) =>
            "Failed to start proxy server: External proxy server is already running (external process detected)"@,
        Err(StartErrorView::MissingServerAddress) =>
            "Failed to start proxy server: Server address is required for ech-workers.exe"@,
        Err(StartErrorView::SpawnFailed(why)) =>
            "Failed to start proxy server: Failed to spawn external process: "@ + why,
    }
}

/// What the caller of `start` is told about an outcome.
pub fn start_message(outcome: &Result<StartSuccess, StartError>) -> (text: String)
    ensures
        text@ == start_message_of(outcome_text(Some(*outcome))->0),
{
    match outcome {
        Ok(StartSuccess::Started) => String::from_str("External proxy server started successfully"),
        Ok(StartSuccess::ExternallyRunning) => String::from_str(
            "External proxy server already running externally",
        ),
        Err(StartError::AlreadyRunning) => String::from_str(
            "External proxy server is already running",
        ),
        Err(StartError::ExecutableNotFound(why)) => {
            let mut text = String::from_str("Failed to create proxy server: ");
            text.append(why.as_str());
            text
        },
        Err(StartError::OrphanSurvived) => String::from_str(
            "Failed to start proxy server: External proxy server is already running (external process detected)",
        ),
        Err(StartError::MissingServerAddress) => String::from_str(
            "Failed to start proxy server: Server address is required for ech-workers.exe",
        ),
        Err(StartError::SpawnFailed(why)) => {
            let mut text = String::from_str(
                "Failed to start proxy server: Failed to spawn external process: ",
            );
            text.append(why.as_str());
            text
        },
    }
}

/// One call of `start`.
pub struct StartCall {
    config: ProxyConfig,
    platform: Platform,
    stage: StartStage,
    cleanup: OrphanCleanup,
    arguments: Vec<String>,
    outcome: Option<Result<StartSuccess, StartError>>,
}

impl View for StartCall {
    type V = StartState;

    closed spec fn view(&self) -> StartState {
        StartState {
            config: self.config@,
            platform: self.platform,
            stage: self.stage,
            cleanup: self.cleanup@,
            outcome: outcome_text(self.outcome),
        }
    }
}

impl StartCall {
    #[verifier::type_invariant]
    spec fn consistent(self) -> bool {
        &&& self.stage == StartStage::Spawn ==> self.config@.server_addr.len() > 0
            && self.arguments.deep_view() == worker_arguments_of(self.config@)
        &&& self.stage == StartStage::Cleanup ==> self.cleanup@.stage != CleanupStage::Finished
        &&& self.stage == StartStage::Record ==> (self.outcome matches Some(Ok(_)))
        &&& self.stage == StartStage::Done ==> self.outcome is Some
    }

    /// A start of the worker that `config` describes.
    pub fn new(config: ProxyConfig, platform: Platform) -> (call: Self)
        ensures
            call@ == start_begin(config@, platform),
    {
        StartCall {
            config,
            platform,
            stage: StartStage::Census,
            cleanup: OrphanCleanup::begin(platform),
            arguments: Vec::new(),
            outcome: None,
        }
    }

    /// What the caller has to do now. A spawn is asked for only on a
    /// configuration that names a server.
    pub fn pending(&self) -> (action: StartAction)
        ensures
            action == start_pending(self@),
            action == StartAction::Spawn ==> self@.config.server_addr.len() > 0,
    {
        proof {
            use_type_invariant(self);
        }
        match self.stage {
            StartStage::Census | StartStage::Recheck => StartAction::TakeCensus,
            StartStage::Executable => StartAction::LocateExecutable,
            StartStage::Cleanup => match self.cleanup.pending() {
                CleanupAction::KillAll => StartAction::KillAll,
                CleanupAction::Wait => StartAction::Wait,
                _ => StartAction::TakeCensus,
            },
            StartStage::Spawn => StartAction::Spawn,
            StartStage::Record => StartAction::Record,
            StartStage::Done => StartAction::Finish,
        }
    }

    /// The configuration that is being started.
    pub fn config(&self) -> (config: &ProxyConfig)
        ensures
            config@ == self@.config,
    {
        &self.config
    }

    /// The worker's argument vector. It is the one that the configuration
    /// stands for whenever a spawn is asked for.
    pub fn arguments(&self) -> (arguments: &Vec<String>)
        ensures
            self@.stage == StartStage::Spawn ==> arguments.deep_view() == worker_arguments_of(
                self@.config,
            ),
    {
        proof {
            use_type_invariant(self);
        }
        &self.arguments
    }

    /// What to record when `Record` is asked for: a worker is running.
    pub fn state_change(&self) -> (change: StateChange)
        ensures
            change == change_after_start(),
    {
        StateChange { was_running: Some(true), system_proxy_enabled: None }
    }

    /// Whether the call is over.
    pub fn is_done(&self) -> (done: bool)
        ensures
            done == (self@.stage == StartStage::Done),
    {
        match self.stage {
            StartStage::Done => true,
            _ => false,
        }
    }

    /// Ends the call and hands out its outcome, which is there once the
    /// call asks for `Record` or `Finish`.
    pub fn into_outcome(self) -> (outcome: Option<Result<StartSuccess, StartError>>)
        ensures
            outcome_text(outcome) == self@.outcome,
            self@.stage == StartStage::Record || self@.stage == StartStage::Done
                ==> outcome is Some,
    {
        proof {
            use_type_invariant(&self);
        }
        self.outcome
    }

    fn end_with(&mut self, error: StartError)
        requires
            old(self).stage != StartStage::Record,
        ensures
            final(self)@ == start_ended(old(self)@, Err(error@)),
    {
        proof {
            use_type_invariant(&*self);
        }
        self.outcome = Some(Err(error));
        self.stage = StartStage::Done;
    }

    /// Takes the caller's report and moves on. The supervisor is read and
    /// changed only here, so the caller holds its lock for this call alone.
    pub fn advance<H>(&mut self, supervisor: &mut Supervisor<H>, event: StartEvent<H>) -> (refused:
        Option<H>)
        ensures
            final(self)@ == start_step(old(self)@, old(supervisor)@, event@).state,
            final(supervisor)@ == start_step(old(self)@, old(supervisor)@, event@).supervisor,
            refused == start_step(old(self)@, old(supervisor)@, event@).refused,
    {
        proof {
            use_type_invariant(&*self);
        }
        match self.stage {
            StartStage::Census => match event {
                StartEvent::Census(report) => {
                    match supervisor.phase() {
                        Phase::Idle => {
                            if is_worker_present(&report, self.platform) {
                                self.outcome = Some(Ok(StartSuccess::ExternallyRunning));
                                self.stage = StartStage::Record;
                            } else {
                                supervisor.begin_start();
                                self.stage = StartStage::Executable;
                            }
                        },
                        _ => {
                            self.end_with(StartError::AlreadyRunning);
                        },
                    }
                    None
                },
                StartEvent::Spawned(handle) => Some(handle),
                _ => None,
            },
            StartStage::Executable => match event {
                StartEvent::Located => {
                    let cleanup = OrphanCleanup::begin(self.platform);
                    let finished = cleanup.is_finished();
                    self.cleanup = cleanup;
                    if finished {
                        self.stage = StartStage::Recheck;
                    } else {
                        self.stage = StartStage::Cleanup;
                    }
                    None
                },
                StartEvent::NotLocated(why) => {
                    supervisor.abort_start();
                    self.end_with(StartError::ExecutableNotFound(why));
                    None
                },
                StartEvent::Spawned(handle) => Some(handle),
                _ => None,
            },
            StartStage::Cleanup => {
                let report = match event {
                    StartEvent::Census(report) => CleanupEvent::Snapshot(report),
                    StartEvent::KillReturned(ran) => CleanupEvent::KillReturned(ran),
                    StartEvent::WaitOver => CleanupEvent::WaitOver,
                    StartEvent::Spawned(handle) => {
                        return Some(handle);
                    },
                    _ => {
                        return None;
                    },
                };
                let mut cleanup = self.cleanup;
                cleanup.advance(&report);
                if cleanup.is_finished() {
                    self.stage = StartStage::Recheck;
                }
                self.cleanup = cleanup;
                None
            },
            StartStage::Recheck => match event {
                StartEvent::Census(report) => {
                    if is_worker_present(&report, self.platform) {
                        supervisor.abort_start();
                        self.end_with(StartError::OrphanSurvived);
                    } else {
                        match worker_arguments(&self.config) {
                            Ok(arguments) => {
                                self.arguments = arguments;
                                self.stage = StartStage::Spawn;
                            },
                            Err(_) => {
                                supervisor.abort_start();
                                self.end_with(StartError::MissingServerAddress);
                            },
                        }
                    }
                    None
                },
                StartEvent::Spawned(handle) => Some(handle),
                _ => None,
            },
            StartStage::Spawn => match event {
                StartEvent::Spawned(handle) => {
                    let refused = supervisor.complete_start(handle);
                    if refused.is_none() {
                        self.outcome = Some(Ok(StartSuccess::Started));
                        self.stage = StartStage::Record;
                    } else {
                        self.end_with(StartError::AlreadyRunning);
                    }
                    refused
                },
                StartEvent::SpawnFailed(why) => {
                    supervisor.abort_start();
                    self.end_with(StartError::SpawnFailed(why));
                    None
                },
                _ => None,
            },
            StartStage::Record => match event {
                StartEvent::Recorded => {
                    self.stage = StartStage::Done;
                    None
                },
                StartEvent::Spawned(handle) => Some(handle),
                _ => None,
            },
            StartStage::Done => match event {
                StartEvent::Spawned(handle) => Some(handle),
                _ => None,
            },
        }
    }
}

} // verus!
