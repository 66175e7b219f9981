//! Keeping the recorded last state in step with what was last attempted,
//! and deciding what to resume after a restart.

use vstd::prelude::*;
use vstd::string::StringExecFns;
use crate::config::{proxy_config_of, Config, LastState};
use crate::sysproxy::{
    call_begin, description_of, enable_steps, is_host_port, split_listen_address,
    InvalidListenAddress, ProxyCall, ProxyStepView, SettingsError, SettingsErrorView,
};

verus! {

/// Seconds to wait after startup before anything is resumed.
pub const RESUME_DELAY_SECS: u64 = 3;

/// What a transition changes in the last state. A field that is `None`
/// stays as it is.
#[derive(Debug, Clone, Copy, PartialEq, Eq, Structural)]
pub struct StateChange {
    pub was_running: Option<bool>,
    pub system_proxy_enabled: Option<bool>,
}

/// The last state after a change.
pub open spec fn changed(state: LastState, change: StateChange) -> LastState {
    LastState {
        was_running: match change.was_running {
            Some(value) => value,
            None => state.was_running,
        },
        system_proxy_enabled: match change.system_proxy_enabled {
            Some(value) => value,
            None => state.system_proxy_enabled,
        },
        ..state
    }
}

/// What a start that ended well changes: a worker is running.
pub open spec fn change_after_start() -> StateChange {
    StateChange { was_running: Some(true), system_proxy_enabled: None }
}

/// What a stop changes, however it ended: no worker, no system proxy.
pub open spec fn change_after_stop() -> StateChange {
    StateChange { was_running: Some(false), system_proxy_enabled: Some(false) }
}

/// What switching the system proxy changes.
pub open spec fn change_after_switch(enabled: bool) -> StateChange {
    StateChange { was_running: None, system_proxy_enabled: Some(enabled) }
}

/// Applies a change to a last state.
pub fn apply_change(state: LastState, change: StateChange) -> (next: LastState)
    ensures
        next == changed(state, change),
{
    let was_running = match change.was_running {
        Some(value) => value,
        None => state.was_running,
    };
    let system_proxy_enabled = match change.system_proxy_enabled {
        Some(value) => value,
        None => state.system_proxy_enabled,
    };
    LastState {
        was_running,
        system_proxy_enabled,
        auto_start_checked: state.auto_start_checked,
        preferred_mode: state.preferred_mode,
    }
}

/// The change to record after switching the system proxy on or off.
pub fn after_switch(enabled: bool) -> (change: StateChange)
    ensures
        change == change_after_switch(enabled),
{
    StateChange { was_running: None, system_proxy_enabled: Some(enabled) }
}

/// The change that enables the system proxy at the listen address of the
/// current server. It can be made exactly when that address is of the
/// form `host:port`, and the endpoint that it stores is then the address
/// itself.
pub fn enable_call_for(config: &Config) -> (result: Result<ProxyCall, InvalidListenAddress>)
    ensures
        result is Ok <==> is_host_port(proxy_config_of(config@).listen_addr),
        result matches Ok(call) ==> call@ == call_begin(
            seq![
                ProxyStepView::Open,
                ProxyStepView::StoreEndpoint(proxy_config_of(config@).listen_addr),
                ProxyStepView::StoreEnabled(true),
                ProxyStepView::Broadcast,
            ],
        ),
{
    let settings = config.get_proxy_config();
    match split_listen_address(settings.listen_addr.as_str()) {
        Ok((host, port)) => {
            let call = ProxyCall::enable(host.as_str(), port.as_str());
            assert(enable_steps(host@, port@) =~= seq![
                ProxyStepView::Open,
                ProxyStepView::StoreEndpoint(proxy_config_of(config@).listen_addr),
                ProxyStepView::StoreEnabled(true),
                ProxyStepView::Broadcast,
            ]);
            Ok(call)
        },
        Err(error) => Err(error),
    }
}

/// What to record after a switch of the system proxy: the new setting
/// where the switch went through, nothing where it failed.
pub open spec fn change_recorded_after_switch(enabled: bool, done: bool) -> Option<StateChange> {
    if done {
        Some(change_after_switch(enabled))
    } else {
        None
    }
}

/// What to record after a switch of the system proxy.
pub fn recorded_after_switch(enabled: bool, outcome: &Result<(), SettingsError>) -> (change:
    Option<StateChange>)
    ensures
        change == change_recorded_after_switch(enabled, outcome is Ok),
{
    match outcome {
        Ok(_) => Some(after_switch(enabled)),
        Err(_) => None,
    }
}

/// What the caller is told where the listen address is not `host:port`.
pub fn invalid_listen_address_message() -> (text: String)
    ensures
        text@ == "Invalid listen address format"@,
{
    String::from_str("Invalid listen address format")
}

/// What the caller is told about a switch that failed.
pub open spec fn switch_failure_of(enabled: bool, error: SettingsErrorView) -> Seq<char> {
    if enabled {
        "Failed to set system proxy: "@ + description_of(error)
    } else {
        "Failed to disable system proxy: "@ + description_of(error)
    }
}

/// What the caller is told about a switch that failed.
pub fn switch_failure_message(enabled: bool, error: &SettingsError) -> (text: String)
    ensures
        text@ == switch_failure_of(enabled, error@),
{
    let mut text = if enabled {
        String::from_str("Failed to set system proxy: ")
    } else {
        String::from_str("Failed to disable system proxy: ")
    };
    let description = error.message();
    text.append(description.as_str());
    text
}

/// What to do once after startup.
#[derive(Debug, Clone, Copy, PartialEq, Eq, Structural)]
pub enum ResumePlan {
    /// Leave everything as it is.
    Nothing,
    /// Start the worker with the persisted configuration; if that goes
    /// well and `then_proxy` is set, enable the system proxy.
    StartWorker { then_proxy: bool },
    /// Enable the system proxy alone.
    ProxyOnly,
}

/// The plan for a last state: nothing where a worker is already present,
/// else a start if one was running, else the system proxy if it was on.
pub open spec fn resume_plan_of(last: LastState, worker_present: bool) -> ResumePlan {
    if worker_present {
        ResumePlan::Nothing
    } else if last.was_running {
        ResumePlan::StartWorker { then_proxy: last.system_proxy_enabled }
    } else if last.system_proxy_enabled {
        ResumePlan::ProxyOnly
    } else {
        ResumePlan::Nothing
    }
}

/// Decides what to resume from the last state and a fresh census.
pub fn resume_plan(last: &LastState, worker_present: bool) -> (plan: ResumePlan)
    ensures
        plan == resume_plan_of(*last, worker_present),
{
    if worker_present {
        ResumePlan::Nothing
    } else if last.was_running {
        ResumePlan::StartWorker { then_proxy: last.system_proxy_enabled }
    } else if last.system_proxy_enabled {
        ResumePlan::ProxyOnly
    } else {
        ResumePlan::Nothing
    }
}

/// Whether a plan has the system proxy enabled, given how its start went.
/// `started` is of no account where the plan starts nothing.
pub open spec fn enables_proxy(plan: ResumePlan, started: bool) -> bool {
    match plan {
        ResumePlan::Nothing => false,
        ResumePlan::StartWorker { then_proxy } => started && then_proxy,
        ResumePlan::ProxyOnly => true,
    }
}

/// Whether to enable the system proxy under a plan, once its start, if it
/// has one, is over.
pub fn proxy_follows(plan: ResumePlan, started: bool) -> (enable: bool)
    ensures
        enable == enables_proxy(plan, started),
{
    match plan {
        ResumePlan::Nothing => false,
        ResumePlan::StartWorker { then_proxy } => started && then_proxy,
        ResumePlan::ProxyOnly => true,
    }
}

/// A start that fails during the resume leaves the system proxy alone:
/// it is never enabled on its own account when the worker was to run.
pub proof fn lemma_failed_start_leaves_proxy(last: LastState, worker_present: bool)
    requires
        last.was_running,
    ensures
        !enables_proxy(resume_plan_of(last, worker_present), false),
{
}

/// Where a worker is already present, nothing is resumed.
pub proof fn lemma_present_worker_resumes_nothing(last: LastState, started: bool)
    ensures
        resume_plan_of(last, true) == ResumePlan::Nothing,
        !enables_proxy(resume_plan_of(last, true), started),
{
}

} // verus!
