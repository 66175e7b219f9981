//! One call of `stop`, step by step. The worker is taken out of the
//! supervisor at once; the system proxy is switched off and the last state
//! recorded whatever becomes of the termination.

use vstd::prelude::*;
use vstd::string::StringExecFns;
use crate::config::LastState;
use crate::reconcile::{change_after_stop, changed, StateChange};
use crate::supervisor::{settle, surrender, Phase, Supervisor, SupervisorView};
use crate::sysproxy::{description_of, SettingsError, SettingsErrorView};

verus! {

/// How a stop ended well.
#[derive(Debug, Clone, Copy, PartialEq, Eq, Structural)]
pub enum StopSuccess {
    /// The supervisor's worker was terminated.
    Stopped,
    /// The supervisor owned no worker; the system proxy is off.
    NothingToStop,
}

/// Why a stop is reported as failed.
#[derive(Debug, PartialEq, Eq)]
pub enum StopError {
    /// The worker could not be asked to terminate.
    KillFailed(String),
    /// The system proxy could not be switched off.
    ProxyNotDisabled(SettingsError),
}

/// A `StopError` with its description as text.
pub enum StopErrorView {
    KillFailed(Seq<char>),
    ProxyNotDisabled(SettingsErrorView),
}

impl View for StopError {
    type V = StopErrorView;

    open spec fn view(&self) -> StopErrorView {
        match self {
            StopError::KillFailed(why) => StopErrorView::KillFailed(why@),
            StopError::ProxyNotDisabled(error) => StopErrorView::ProxyNotDisabled(error@),
        }
    }
}

/// Where a stop stands.
#[derive(Debug, Clone, Copy, PartialEq, Eq, Structural)]
pub enum StopStage {
    /// The worker was handed out; waiting for its termination.
    Terminate,
    /// Waiting for the system proxy to be switched off.
    DisableProxy,
    /// Waiting for the last state to be recorded.
    Record,
    /// Over.
    Done,
}

/// What the caller is asked to do next.
#[derive(Debug, Clone, Copy, PartialEq, Eq, Structural)]
pub enum StopAction {
    /// Terminate the worker that was handed out and wait for its exit.
    Terminate,
    /// Switch the system proxy off.
    DisableProxy,
    /// Record in the last state that nothing runs any more, and save.
    Record,
    /// Return the outcome to whoever asked.
    Finish,
}

/// What the caller reports back.
#[derive(Debug, PartialEq, Eq)]
pub enum StopEvent {
    /// The worker was asked to terminate. Whether its exit was seen is of
    /// no account.
    Terminated,
    /// The worker could not be asked to terminate.
    TerminationFailed(String),
    /// The system proxy is off.
    ProxyDisabled,
    /// The system proxy could not be switched off.
    ProxyNotDisabled(SettingsError),
    /// The last state was recorded, or the attempt to save it failed.
    Recorded,
}

/// A `StopEvent` with its descriptions as text.
pub enum StopEventView {
    Terminated,
    TerminationFailed(Seq<char>),
    ProxyDisabled,
    ProxyNotDisabled(SettingsErrorView),
    Recorded,
}

impl View for StopEvent {
    type V = StopEventView;

    open spec fn view(&self) -> StopEventView {
        match self {
            StopEvent::Terminated => StopEventView::Terminated,
            StopEvent::TerminationFailed(why) => StopEventView::TerminationFailed(why@),
            StopEvent::ProxyDisabled => StopEventView::ProxyDisabled,
            StopEvent::ProxyNotDisabled(error) => StopEventView::ProxyNotDisabled(error@),
            StopEvent::Recorded => StopEventView::Recorded,
        }
    }
}

/// The state of one stop.
pub struct StopState {
    pub stage: StopStage,
    /// A worker was taken out of the supervisor.
    pub owned: bool,
    pub kill_error: Option<Seq<char>>,
    pub proxy_error: Option<SettingsErrorView>,
}

/// A stop begins by taking the worker, if there is one. With a worker it
/// goes on to terminate it, without one straight to the system proxy.
pub open spec fn stop_begin<H>(supervisor: SupervisorView<H>) -> StopState {
    StopState {
        stage: if supervisor.phase == Phase::Running {
            StopStage::Terminate
        } else {
            StopStage::DisableProxy
        },
        owned: supervisor.phase == Phase::Running,
        kill_error: None,
        proxy_error: None,
    }
}

/// What one step of a stop leaves behind.
pub struct StopStepped<H> {
    pub state: StopState,
    pub supervisor: SupervisorView<H>,
}

/// One step of a stop. An event that the call is not waiting for changes
/// nothing.
pub open spec fn stop_step<H>(
    state: StopState,
    supervisor: SupervisorView<H>,
    event: StopEventView,
) -> StopStepped<H> {
    match (state.stage, event) {
        (StopStage::Terminate, StopEventView::Terminated) => StopStepped {
            state: StopState { stage: StopStage::DisableProxy, ..state },
            supervisor: settle(supervisor),
        },
        (StopStage::Terminate, StopEventView::TerminationFailed(why)) => StopStepped {
            state: StopState { stage: StopStage::DisableProxy, kill_error: Some(why), ..state },
            supervisor: settle(supervisor),
        },
        (StopStage::DisableProxy, StopEventView::ProxyDisabled) => StopStepped {
            state: StopState { stage: StopStage::Record, ..state },
            supervisor,
        },
        (StopStage::DisableProxy, StopEventView::ProxyNotDisabled(error)) => StopStepped {
            state: StopState { stage: StopStage::Record, proxy_error: Some(error), ..state },
            supervisor,
        },
        (StopStage::Record, StopEventView::Recorded) => StopStepped {
            state: StopState { stage: StopStage::Done, ..state },
            supervisor,
        },
        _ => StopStepped { state, supervisor },
    }
}

/// What the caller has to do in a state.
pub open spec fn stop_pending(state: StopState) -> StopAction {
    match state.stage {
        StopStage::Terminate => StopAction::Terminate,
        StopStage::DisableProxy => StopAction::DisableProxy,
        StopStage::Record => StopAction::Record,
        StopStage::Done => StopAction::Finish,
    }
}

/// The outcome of a stop: a failed termination is reported first, then a
/// system proxy that stayed on; else the stop went well.
pub open spec fn stop_outcome(state: StopState) -> Result<StopSuccess, StopErrorView> {
    match (state.kill_error, state.proxy_error) {
        (Some(why), _) => Err(StopErrorView::KillFailed(why)),
        (None, Some(error)) => Err(StopErrorView::ProxyNotDisabled(error)),
        (None, None) => Ok(
            if state.owned {
                StopSuccess::Stopped
            } else {
                StopSuccess::NothingToStop
            },
        ),
    }
}

/// The stop and the supervisor after a sequence of events, taken in
/// order.
pub open spec fn stop_run<H>(
    state: StopState,
    supervisor: SupervisorView<H>,
    events: Seq<StopEventView>,
) -> StopStepped<H>
    decreases events.len(),
{
    if events.len() == 0 {
        StopStepped { state, supervisor }
    } else {
        let stepped = stop_step(state, supervisor, events[0]);
        stop_run(stepped.state, stepped.supervisor, events.skip(1))
    }
}

/// A stop when nothing runs succeeds: it asks for no termination, goes
/// straight to the system proxy and, with that off and the state recorded,
/// ends well. The supervisor stays idle, and what is recorded says that no
/// worker runs and that the system proxy is off. So a second stop after a
/// first does what the first did.
pub proof fn lemma_stop_when_idle_succeeds<H>(supervisor: SupervisorView<H>, last: LastState)
    requires
        supervisor.phase == Phase::Idle,
        supervisor.handle is None,
    ensures
        surrender(supervisor) == supervisor,
        stop_pending(stop_begin(supervisor)) == StopAction::DisableProxy,
        ({
            let ended = stop_run(
                stop_begin(supervisor),
                surrender(supervisor),
                seq![StopEventView::ProxyDisabled, StopEventView::Recorded],
            );
            &&& ended.state.stage == StopStage::Done
            &&& stop_outcome(ended.state) == Ok::<StopSuccess, StopErrorView>(
                StopSuccess::NothingToStop,
            )
            &&& ended.supervisor == supervisor
        }),
        !changed(last, change_after_stop()).was_running,
        !changed(last, change_after_stop()).system_proxy_enabled,
{
    reveal_with_fuel(stop_run, 3);
    let events = seq![StopEventView::ProxyDisabled, StopEventView::Recorded];
    assert(events.skip(1) =~= seq![StopEventView::Recorded]);
    assert(events.skip(1).skip(1) =~= Seq::<StopEventView>::empty());
}

/// A stop clears the supervisor's record at once, and whatever becomes
/// of the termination, the system proxy is switched off next and the
/// supervisor is idle again.
pub proof fn lemma_stop_goes_on_after_termination<H>(
    supervisor: SupervisorView<H>,
    event: StopEventView,
)
    requires
        supervisor.phase == Phase::Running,
        event is Terminated || event is TerminationFailed,
    ensures
        surrender(supervisor).handle is None,
        stop_pending(stop_begin(supervisor)) == StopAction::Terminate,
        ({
            let stepped = stop_step(stop_begin(supervisor), surrender(supervisor), event);
            &&& stop_pending(stepped.state) == StopAction::DisableProxy
            &&& stepped.supervisor == (SupervisorView::<H> { phase: Phase::Idle, handle: None })
        }),
{
}

/// A stop records its state whether or not the system proxy could be
/// switched off, and reports the failure.
pub proof fn lemma_stop_records_after_proxy<H>(
    state: StopState,
    supervisor: SupervisorView<H>,
    event: StopEventView,
)
    requires
        state.stage == StopStage::DisableProxy,
        event is ProxyDisabled || event is ProxyNotDisabled,
    ensures
        stop_pending(stop_step(state, supervisor, event).state) == StopAction::Record,
        event is ProxyNotDisabled && state.kill_error is None ==> stop_outcome(
            stop_step(state, supervisor, event).state,
        ) == Err::<StopSuccess, StopErrorView>(
            StopErrorView::ProxyNotDisabled(event->ProxyNotDisabled_0),
        ),
{
}

/// The outcome of a stop with its description as text.
pub open spec fn stop_outcome_text(outcome: Result<StopSuccess, StopError>) -> Result<
    StopSuccess,
    StopErrorView,
> {
    match outcome {
        Ok(success) => Ok(success),
        Err(error) => Err(error@),
    }
}

/// What the caller of `stop` is told about an outcome.
pub open spec fn stop_message_of(outcome: Result<StopSuccess, StopErrorView>) -> Seq<char> {
    match outcome {
        Ok(StopSuccess::Stopped) => "External proxy server stopped successfully"@,
        Ok(StopSuccess::NothingToStop) => "System proxy disabled successfully"@,
        Err(StopErrorView::KillFailed(why)) =>
            "Failed to stop proxy server: Failed to kill process: "@ + why,
        Err(StopErrorView::ProxyNotDisabled(error)) => "Failed to disable system proxy: "@
            + description_of(error),
    }
}

/// What the caller of `stop` is told about an outcome.
pub fn stop_message(outcome: &Result<StopSuccess, StopError>) -> (text: String)
    ensures
        text@ == stop_message_of(stop_outcome_text(*outcome)),
{
    match outcome {
        Ok(StopSuccess::Stopped) => String::from_str("External proxy server stopped successfully"),
        Ok(StopSuccess::NothingToStop) => String::from_str("System proxy disabled successfully"),
        Err(StopError::KillFailed(why)) => {
            let mut text = String::from_str(
                "Failed to stop proxy server: Failed to kill process: ",
            );
            text.append(why.as_str());
            text
        },
        Err(StopError::ProxyNotDisabled(error)) => {
            let mut text = String::from_str("Failed to disable system proxy: ");
            let description = error.message();
            text.append(description.as_str());
            text
        },
    }
}

/// One call of `stop`.
#[derive(Debug)]
pub struct StopCall {
    stage: StopStage,
    owned: bool,
    kill_error: Option<String>,
    proxy_error: Option<SettingsError>,
}

impl View for StopCall {
    type V = StopState;

    closed spec fn view(&self) -> StopState {
        StopState {
            stage: self.stage,
            owned: self.owned,
            kill_error: match self.kill_error {
                Some(why) => Some(why@),
                None => None,
            },
            proxy_error: match self.proxy_error {
                Some(error) => Some(error@),
                None => None,
            },
        }
    }
}

impl StopCall {
    /// Begins a stop: takes the worker out of the supervisor, whose record
    /// is cleared by that, and hands it to the caller for termination.
    pub fn begin<H>(supervisor: &mut Supervisor<H>) -> (begun: (Self, Option<H>))
        ensures
            begun.0@ == stop_begin(old(supervisor)@),
            begun.1 == old(supervisor)@.handle,
            final(supervisor)@ == surrender(old(supervisor)@),
    {
        let running = supervisor.is_running();
        let taken = supervisor.begin_stop();
        let stage = if running {
            StopStage::Terminate
        } else {
            StopStage::DisableProxy
        };
        (StopCall { stage, owned: running, kill_error: None, proxy_error: None }, taken)
    }

    /// What the caller has to do now.
    pub fn pending(&self) -> (action: StopAction)
        ensures
            action == stop_pending(self@),
    {
        match self.stage {
            StopStage::Terminate => StopAction::Terminate,
            StopStage::DisableProxy => StopAction::DisableProxy,
            StopStage::Record => StopAction::Record,
            StopStage::Done => StopAction::Finish,
        }
    }

    /// Whether the call is over.
    pub fn is_done(&self) -> (done: bool)
        ensures
            done == (self@.stage == StopStage::Done),
    {
        match self.stage {
            StopStage::Done => true,
            _ => false,
        }
    }

    /// What to record when `Record` is asked for: nothing runs, and the
    /// system proxy is off.
    pub fn state_change(&self) -> (change: StateChange)
        ensures
            change == change_after_stop(),
    {
        StateChange { was_running: Some(false), system_proxy_enabled: Some(false) }
    }

    /// Takes the caller's report and moves on.
    pub fn advance<H>(&mut self, supervisor: &mut Supervisor<H>, event: StopEvent)
        ensures
            final(self)@ == stop_step(old(self)@, old(supervisor)@, event@).state,
            final(supervisor)@ == stop_step(old(self)@, old(supervisor)@, event@).supervisor,
    {
        match self.stage {
            StopStage::Terminate => match event {
                StopEvent::Terminated => {
                    supervisor.complete_stop();
                    self.stage = StopStage::DisableProxy;
                },
                StopEvent::TerminationFailed(why) => {
                    supervisor.complete_stop();
                    self.kill_error = Some(why);
                    self.stage = StopStage::DisableProxy;
                },
                _ => {},
            },
            StopStage::DisableProxy => match event {
                StopEvent::ProxyDisabled => {
                    self.stage = StopStage::Record;
                },
                StopEvent::ProxyNotDisabled(error) => {
                    self.proxy_error = Some(error);
                    self.stage = StopStage::Record;
                },
                _ => {},
            },
            StopStage::Record => match event {
                StopEvent::Recorded => {
                    self.stage = StopStage::Done;
                },
                _ => {},
            },
            StopStage::Done => {},
        }
    }

    /// Ends the call and hands out its outcome.
    pub fn into_outcome(self) -> (outcome: Result<StopSuccess, StopError>)
        ensures
            stop_outcome_text(outcome) == stop_outcome(self@),
    {
        match self.kill_error {
            Some(why) => Err(StopError::KillFailed(why)),
            None => match self.proxy_error {
                Some(error) => Err(StopError::ProxyNotDisabled(error)),
                None => Ok(
                    if self.owned {
                        StopSuccess::Stopped
                    } else {
                        StopSuccess::NothingToStop
                    },
                ),
            },
        }
    }
}

} // verus!
