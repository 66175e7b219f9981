//! The operating system's proxy setting: what is written to it, in which
//! order, and which failures count.

use vstd::prelude::*;
use vstd::string::StrSliceExecFns;
use vstd::string::StringExecFns;
use crate::census::{CommandLine, CommandLineView};
use crate::text::{characters, position_from};

verus! {

/// Why the proxy setting could not be changed.
#[derive(Debug, PartialEq, Eq)]
pub enum SettingsError {
    /// The settings store could not be opened.
    AccessDenied(String),
    /// A value that has to be written was not written.
    WriteFailed(String),
}

impl SettingsError {
    /// The description of the error.
    pub fn message(&self) -> (text: String)
        ensures
            text@ == description_of(self@),
    {
        match self {
            SettingsError::AccessDenied(why) => why.clone(),
            SettingsError::WriteFailed(why) => why.clone(),
        }
    }
}

/// The description that an error carries.
pub open spec fn description_of(error: SettingsErrorView) -> Seq<char> {
    match error {
        SettingsErrorView::AccessDenied(why) => why,
        SettingsErrorView::WriteFailed(why) => why,
    }
}

/// A `SettingsError` with its description as text.
pub enum SettingsErrorView {
    AccessDenied(Seq<char>),
    WriteFailed(Seq<char>),
}

impl View for SettingsError {
    type V = SettingsErrorView;

    open spec fn view(&self) -> SettingsErrorView {
        match self {
            SettingsError::AccessDenied(why) => SettingsErrorView::AccessDenied(why@),
            SettingsError::WriteFailed(why) => SettingsErrorView::WriteFailed(why@),
        }
    }
}

/// The text holds exactly one colon, and it stands at `at`.
pub open spec fn single_colon_at(text: Seq<char>, at: int) -> bool {
    &&& 0 <= at < text.len()
    &&& text[at] == ':'
    &&& forall|i: int| 0 <= i < text.len() && i != at ==> text[i] != ':'
}

/// The text has the form `host:port`: exactly one colon stands in it.
pub open spec fn is_host_port(text: Seq<char>) -> bool {
    exists|at: int| single_colon_at(text, at)
}

/// The endpoint for a host and a port: the two joined by a colon.
pub open spec fn endpoint_of(host: Seq<char>, port: Seq<char>) -> Seq<char> {
    host + seq![':'] + port
}

/// A listen address that is not of the form `host:port`.
#[derive(Debug, Clone, Copy, PartialEq, Eq, Structural)]
pub struct InvalidListenAddress;

/// Splits a listen address into host and port. It succeeds exactly on a
/// text with one colon; neither part is looked into any further.
pub fn split_listen_address(address: &str) -> (result: Result<(String, String), InvalidListenAddress>)
    ensures
        result is Ok <==> is_host_port(address@),
        result matches Ok((host, port)) ==> endpoint_of(host@, port@) == address@
            && single_colon_at(address@, host@.len() as int),
{
    let chars = characters(address);
    let at = position_from(&chars, ':', 0);
    if at == chars.len() {
        assert forall|i: int| !single_colon_at(address@, i) by {}
        return Err(InvalidListenAddress);
    }
    let second = position_from(&chars, ':', at + 1);
    if second < chars.len() {
        assert forall|i: int| !single_colon_at(address@, i) by {
            if i == at {
                assert(address@[second as int] == ':');
            } else {
                assert(address@[at as int] == ':');
            }
        }
        return Err(InvalidListenAddress);
    }
    assert(single_colon_at(address@, at as int));
    let host = address.substring_char(0, at).to_owned();
    let port = address.substring_char(at + 1, chars.len()).to_owned();
    assert(endpoint_of(host@, port@) =~= address@);
    Ok((host, port))
}

/// The endpoint text that is stored for a host and a port.
pub fn proxy_endpoint(host: &str, port: &str) -> (endpoint: String)
    ensures
        endpoint@ == endpoint_of(host@, port@),
{
    let mut endpoint = String::from_str(host);
    proof {
        reveal_strlit(":");
    }
    endpoint.append(":");
    endpoint.append(port);
    assert(":"@ =~= seq![':']);
    endpoint
}

/// Splitting a listen address and joining the parts again gives the
/// address back: the endpoint that is stored for a listen address of the
/// form `host:port` is that very text.
pub proof fn lemma_endpoint_of_listen_address(address: Seq<char>, at: int)
    requires
        single_colon_at(address, at),
    ensures
        endpoint_of(address.take(at), address.skip(at + 1)) == address,
{
    assert(endpoint_of(address.take(at), address.skip(at + 1)) =~= address);
}

/// A host and a port without a colon, joined, split into themselves again.
pub proof fn lemma_endpoint_splits_back(host: Seq<char>, port: Seq<char>)
    requires
        !host.contains(':'),
        !port.contains(':'),
    ensures
        single_colon_at(endpoint_of(host, port), host.len() as int),
        endpoint_of(host, port).take(host.len() as int) == host,
        endpoint_of(host, port).skip(host.len() as int + 1) == port,
{
    let joined = endpoint_of(host, port);
    assert forall|i: int| 0 <= i < joined.len() && i != host.len() implies joined[i] != ':' by {
        if i < host.len() {
            assert(host.contains(joined[i]));
        } else {
            assert(joined[i] == port[i - host.len() - 1]);
            assert(port.contains(joined[i]));
        }
    }
    assert(joined.take(host.len() as int) =~= host);
    assert(joined.skip(host.len() as int + 1) =~= port);
}

/// One thing to do to the operating system's proxy setting.
#[derive(Debug, PartialEq, Eq)]
pub enum ProxyStep {
    /// Open the settings store for writing.
    Open,
    /// Store the proxy endpoint.
    StoreEndpoint(String),
    /// Store the enablement flag.
    StoreEnabled(bool),
    /// Delete the stored endpoint.
    ClearEndpoint,
    /// Delete the stored auto-configuration address.
    ClearAutoConfig,
    /// Tell running applications that the settings have changed.
    Broadcast,
    /// Switch the flag off once more, by the system's own configuration
    /// tool.
    Reassert,
}

/// A `ProxyStep` with its endpoint as text.
pub enum ProxyStepView {
    Open,
    StoreEndpoint(Seq<char>),
    StoreEnabled(bool),
    ClearEndpoint,
    ClearAutoConfig,
    Broadcast,
    Reassert,
}

impl View for ProxyStep {
    type V = ProxyStepView;

    open spec fn view(&self) -> ProxyStepView {
        match self {
            ProxyStep::Open => ProxyStepView::Open,
            ProxyStep::StoreEndpoint(endpoint) => ProxyStepView::StoreEndpoint(endpoint@),
            ProxyStep::StoreEnabled(enabled) => ProxyStepView::StoreEnabled(*enabled),
            ProxyStep::ClearEndpoint => ProxyStepView::ClearEndpoint,
            ProxyStep::ClearAutoConfig => ProxyStepView::ClearAutoConfig,
            ProxyStep::Broadcast => ProxyStepView::Broadcast,
            ProxyStep::Reassert => ProxyStepView::Reassert,
        }
    }
}

impl DeepView for ProxyStep {
    type V = ProxyStepView;

    open spec fn deep_view(&self) -> ProxyStepView {
        self@
    }
}

/// A step whose failure fails the whole call. The others are tried and
/// their failure is passed over.
pub open spec fn is_required(step: ProxyStepView) -> bool {
    step is Open || step is StoreEndpoint || step is StoreEnabled
}

/// What is said of a required step that failed, before the reason.
pub open spec fn failure_heading(step: ProxyStepView) -> Seq<char> {
    match step {
        ProxyStepView::Open => "Failed to open Internet Settings registry key: "@,
        ProxyStepView::StoreEndpoint(_) => "Failed to set ProxyServer registry value: "@,
        ProxyStepView::StoreEnabled(true) => "Failed to enable proxy: "@,
        ProxyStepView::StoreEnabled(false) => "Failed to disable proxy: "@,
        _ => Seq::empty(),
    }
}

/// The error that the failure of a required step stands for: access
/// denied where the store could not be opened, a failed write else. Its
/// description is the step's heading and the reason.
pub open spec fn failure_of(step: ProxyStepView, why: Seq<char>) -> SettingsErrorView {
    if step is Open {
        SettingsErrorView::AccessDenied(failure_heading(step) + why)
    } else {
        SettingsErrorView::WriteFailed(failure_heading(step) + why)
    }
}

/// Enabling: store the endpoint, switch the flag on, tell everybody.
pub open spec fn enable_steps(host: Seq<char>, port: Seq<char>) -> Seq<ProxyStepView> {
    seq![
        ProxyStepView::Open,
        ProxyStepView::StoreEndpoint(endpoint_of(host, port)),
        ProxyStepView::StoreEnabled(true),
        ProxyStepView::Broadcast,
    ]
}

/// Disabling: switch the flag off, clear what else is stored, tell
/// everybody, and switch the flag off a second time by another way.
pub open spec fn disable_steps() -> Seq<ProxyStepView> {
    seq![
        ProxyStepView::Open,
        ProxyStepView::StoreEnabled(false),
        ProxyStepView::ClearEndpoint,
        ProxyStepView::ClearAutoConfig,
        ProxyStepView::Broadcast,
        ProxyStepView::Reassert,
    ]
}

/// What the caller reports of one step.
#[derive(Debug, PartialEq, Eq)]
pub enum StepReport {
    /// The step was carried out.
    Done,
    /// The step failed, for the reason given.
    Failed(String),
}

impl View for StepReport {
    type V = Option<Seq<char>>;

    /// The reason of the failure, if the step failed.
    open spec fn view(&self) -> Option<Seq<char>> {
        match self {
            StepReport::Done => None,
            StepReport::Failed(why) => Some(why@),
        }
    }
}

/// The state of a change to the proxy setting: its steps, how many of them
/// are behind it, and the failure that ended it, if one did.
pub struct ProxyCallState {
    pub steps: Seq<ProxyStepView>,
    pub next: nat,
    pub failure: Option<SettingsErrorView>,
}

/// A change that has all its steps before it.
pub open spec fn call_begin(steps: Seq<ProxyStepView>) -> ProxyCallState {
    ProxyCallState { steps, next: 0, failure: None }
}

/// The step that the caller has to carry out, if the change is not over.
pub open spec fn call_pending(state: ProxyCallState) -> Option<ProxyStepView> {
    if state.failure is None && state.next < state.steps.len() {
        Some(state.steps[state.next as int])
    } else {
        None
    }
}

/// The state after the pending step was reported. The failure of a
/// required step ends the change; any other failure is passed over.
pub open spec fn call_step(state: ProxyCallState, report: Option<Seq<char>>) -> ProxyCallState {
    match call_pending(state) {
        None => state,
        Some(step) => match report {
            Some(why) if is_required(step) => ProxyCallState {
                failure: Some(failure_of(step, why)),
                ..state
            },
            _ => ProxyCallState { next: state.next + 1, ..state },
        },
    }
}

/// The outcome of a change that is over.
pub open spec fn call_outcome(state: ProxyCallState) -> Result<(), SettingsErrorView> {
    match state.failure {
        Some(error) => Err(error),
        None => Ok(()),
    }
}

/// The state after a sequence of reports, one for each pending step in
/// turn.
pub open spec fn call_run(state: ProxyCallState, reports: Seq<Option<Seq<char>>>) -> ProxyCallState
    decreases reports.len(),
{
    if reports.len() == 0 {
        state
    } else {
        call_run(call_step(state, reports[0]), reports.skip(1))
    }
}

/// Only a required step can fail a change: where every required step is
/// reported done, the change goes through all its steps and ends well,
/// whatever is reported of the others.
pub proof fn lemma_only_required_steps_fail(
    state: ProxyCallState,
    reports: Seq<Option<Seq<char>>>,
)
    requires
        state.failure is None,
        state.next + reports.len() == state.steps.len(),
        forall|i: int|
            0 <= i < reports.len() && is_required(#[trigger] state.steps[state.next + i])
                ==> reports[i] is None,
    ensures
        call_run(state, reports).failure is None,
        call_run(state, reports).next == state.steps.len(),
        call_outcome(call_run(state, reports)) == Ok::<(), SettingsErrorView>(()),
    decreases reports.len(),
{
    if reports.len() > 0 {
        let next = call_step(state, reports[0]);
        assert(is_required(state.steps[state.next + 0int]) ==> reports[0] is None);
        assert forall|i: int|
            0 <= i < reports.skip(1).len() && is_required(
                #[trigger] next.steps[next.next + i],
            ) implies reports.skip(1)[i] is None by {
            assert(next.steps[next.next + i] == state.steps[state.next + (i + 1)]);
        }
        lemma_only_required_steps_fail(next, reports.skip(1));
    }
}

/// The first required step that fails ends the change with its error:
/// a store that cannot be opened, or a value that cannot be written.
pub proof fn lemma_required_failure_is_surfaced(state: ProxyCallState, why: Seq<char>)
    requires
        call_pending(state) matches Some(step) && is_required(step),
    ensures
        call_outcome(call_step(state, Some(why))) == Err::<(), SettingsErrorView>(
            failure_of(call_pending(state)->0, why),
        ),
        call_pending(call_step(state, Some(why))) is None,
{
}

/// A change to the proxy setting, carried out step by step by the caller.
#[derive(Debug)]
pub struct ProxyCall {
    steps: Vec<ProxyStep>,
    next: usize,
    failure: Option<SettingsError>,
}

impl View for ProxyCall {
    type V = ProxyCallState;

    closed spec fn view(&self) -> ProxyCallState {
        ProxyCallState {
            steps: self.steps.deep_view(),
            next: self.next as nat,
            failure: match self.failure {
                Some(error) => Some(error@),
                None => None,
            },
        }
    }
}

impl ProxyCall {
    #[verifier::type_invariant]
    spec fn within_steps(self) -> bool {
        self.next <= self.steps.len()
    }

    /// The change that enables the proxy at `host:port`.
    pub fn enable(host: &str, port: &str) -> (call: Self)
        ensures
            call@ == call_begin(enable_steps(host@, port@)),
    {
        let mut steps: Vec<ProxyStep> = Vec::new();
        steps.push(ProxyStep::Open);
        steps.push(ProxyStep::StoreEndpoint(proxy_endpoint(host, port)));
        steps.push(ProxyStep::StoreEnabled(true));
        steps.push(ProxyStep::Broadcast);
        assert(steps.deep_view() =~= enable_steps(host@, port@));
        ProxyCall { steps, next: 0, failure: None }
    }

    /// The change that disables the proxy.
    pub fn disable() -> (call: Self)
        ensures
            call@ == call_begin(disable_steps()),
    {
        let mut steps: Vec<ProxyStep> = Vec::new();
        steps.push(ProxyStep::Open);
        steps.push(ProxyStep::StoreEnabled(false));
        steps.push(ProxyStep::ClearEndpoint);
        steps.push(ProxyStep::ClearAutoConfig);
        steps.push(ProxyStep::Broadcast);
        steps.push(ProxyStep::Reassert);
        assert(steps.deep_view() =~= disable_steps());
        ProxyCall { steps, next: 0, failure: None }
    }

    /// The step to carry out now, or `None` when the change is over.
    pub fn pending(&self) -> (step: Option<&ProxyStep>)
        ensures
            step.deep_view() == call_pending(self@),
    {
        proof {
            use_type_invariant(self);
        }
        if self.failure.is_none() && self.next < self.steps.len() {
            Some(&self.steps[self.next])
        } else {
            None
        }
    }

    /// Takes the report of the pending step and moves on.
    pub fn advance(&mut self, report: StepReport)
        ensures
            final(self)@ == call_step(old(self)@, report@),
    {
        proof {
            use_type_invariant(&*self);
        }
        if self.failure.is_none() && self.next < self.steps.len() {
            let heading = match &self.steps[self.next] {
                ProxyStep::Open => Some("Failed to open Internet Settings registry key: "),
                ProxyStep::StoreEndpoint(_) => Some("Failed to set ProxyServer registry value: "),
                ProxyStep::StoreEnabled(true) => Some("Failed to enable proxy: "),
                ProxyStep::StoreEnabled(false) => Some("Failed to disable proxy: "),
                _ => None,
            };
            let opening = match &self.steps[self.next] {
                ProxyStep::Open => true,
                _ => false,
            };
            match report {
                StepReport::Failed(why) => {
                    match heading {
                        Some(heading) => {
                            let mut text = String::from_str(heading);
                            text.append(why.as_str());
                            if opening {
                                self.failure = Some(SettingsError::AccessDenied(text));
                            } else {
                                self.failure = Some(SettingsError::WriteFailed(text));
                            }
                        },
                        None => {
                            self.next = self.next + 1;
                        },
                    }
                },
                StepReport::Done => {
                    self.next = self.next + 1;
                },
            }
        }
    }

    /// Ends the change and hands out its outcome.
    pub fn into_outcome(self) -> (outcome: Result<(), SettingsError>)
        ensures
            match outcome {
                Ok(_) => call_outcome(self@) == Ok::<(), SettingsErrorView>(()),
                Err(error) => call_outcome(self@) == Err::<(), SettingsErrorView>(error@),
            },
    {
        match self.failure {
            Some(error) => Err(error),
            None => Ok(()),
        }
    }
}

/// The three stored values that make up the system's proxy setting. A
/// value that is `None` is not stored at all.
#[derive(Debug, PartialEq, Eq)]
pub struct SystemProxySetting {
    /// The enablement flag: on where it is stored and not zero.
    pub proxy_enable: Option<u32>,
    /// The endpoint, as `host:port`.
    pub proxy_server: Option<String>,
    /// The address of an auto-configuration script.
    pub auto_config_url: Option<String>,
}

/// What a `SystemProxySetting` holds, as text.
pub struct SystemProxySettingView {
    pub proxy_enable: Option<u32>,
    pub proxy_server: Option<Seq<char>>,
    pub auto_config_url: Option<Seq<char>>,
}

impl View for SystemProxySetting {
    type V = SystemProxySettingView;

    open spec fn view(&self) -> SystemProxySettingView {
        SystemProxySettingView {
            proxy_enable: self.proxy_enable,
            proxy_server: match self.proxy_server {
                Some(text) => Some(text@),
                None => None,
            },
            auto_config_url: match self.auto_config_url {
                Some(text) => Some(text@),
                None => None,
            },
        }
    }
}

/// The flag reads as on: it is stored and not zero.
pub open spec fn flag_on(flag: Option<u32>) -> bool {
    flag matches Some(value) && value != 0
}

/// Whether a stored flag reads as on. A flag that is not stored, or
/// could not be read, is off.
pub fn flag_is_on(flag: Option<u32>) -> (on: bool)
    ensures
        on == flag_on(flag),
{
    match flag {
        Some(value) => value != 0,
        None => false,
    }
}

/// The setting after a step was tried on it.
pub open spec fn performed(
    setting: SystemProxySettingView,
    step: ProxyStepView,
) -> SystemProxySettingView {
    match step {
        ProxyStepView::StoreEndpoint(endpoint) => SystemProxySettingView {
            proxy_server: Some(endpoint),
            ..setting
        },
        ProxyStepView::StoreEnabled(enabled) => SystemProxySettingView {
            proxy_enable: Some(
                if enabled {
                    1u32
                } else {
                    0u32
                },
            ),
            ..setting
        },
        ProxyStepView::ClearEndpoint => SystemProxySettingView { proxy_server: None, ..setting },
        ProxyStepView::ClearAutoConfig => SystemProxySettingView {
            auto_config_url: None,
            ..setting
        },
        ProxyStepView::Reassert => SystemProxySettingView { proxy_enable: Some(0u32), ..setting },
        ProxyStepView::Open | ProxyStepView::Broadcast => setting,
    }
}

/// What a value that is not stored answers to its deletion.
pub open spec fn not_stored() -> Seq<char> {
    "the value is not stored"@
}

/// The report of a step tried on a setting: everything succeeds but the
/// deletion of a value that is not stored.
pub open spec fn report_of(setting: SystemProxySettingView, step: ProxyStepView) -> Option<
    Seq<char>,
> {
    match step {
        ProxyStepView::ClearEndpoint if setting.proxy_server is None => Some(not_stored()),
        ProxyStepView::ClearAutoConfig if setting.auto_config_url is None => Some(not_stored()),
        _ => None,
    }
}

/// A setting and a change after the change's remaining steps were tried
/// on the setting one after another.
pub struct CarriedOut {
    pub setting: SystemProxySettingView,
    pub state: ProxyCallState,
}

/// Tries the remaining steps of a change on a setting, in order, until
/// the change is over.
pub open spec fn carried_out(setting: SystemProxySettingView, state: ProxyCallState) -> CarriedOut
    decreases state.steps.len() - state.next,
{
    match call_pending(state) {
        None => CarriedOut { setting, state },
        Some(step) => {
            if report_of(setting, step) is Some && is_required(step) {
                CarriedOut { setting, state: call_step(state, report_of(setting, step)) }
            } else {
                carried_out(performed(setting, step), call_step(state, report_of(setting, step)))
            }
        },
    }
}

impl SystemProxySetting {
    /// A setting with nothing stored.
    pub fn new() -> (setting: Self)
        ensures
            setting@ == (SystemProxySettingView {
                proxy_enable: None,
                proxy_server: None,
                auto_config_url: None,
            }),
    {
        SystemProxySetting { proxy_enable: None, proxy_server: None, auto_config_url: None }
    }

    /// Tries one step on the setting and reports how it went.
    pub fn perform(&mut self, step: &ProxyStep) -> (report: StepReport)
        ensures
            final(self)@ == performed(old(self)@, step@),
            report@ == report_of(old(self)@, step@),
    {
        match step {
            ProxyStep::Open | ProxyStep::Broadcast => StepReport::Done,
            ProxyStep::StoreEndpoint(endpoint) => {
                self.proxy_server = Some(endpoint.clone());
                StepReport::Done
            },
            ProxyStep::StoreEnabled(enabled) => {
                self.proxy_enable = Some(
                    if *enabled {
                        1u32
                    } else {
                        0u32
                    },
                );
                StepReport::Done
            },
            ProxyStep::ClearEndpoint => {
                let stored = self.proxy_server.is_some();
                self.proxy_server = None;
                if stored {
                    StepReport::Done
                } else {
                    StepReport::Failed("the value is not stored".to_owned())
                }
            },
            ProxyStep::ClearAutoConfig => {
                let stored = self.auto_config_url.is_some();
                self.auto_config_url = None;
                if stored {
                    StepReport::Done
                } else {
                    StepReport::Failed("the value is not stored".to_owned())
                }
            },
            ProxyStep::Reassert => {
                self.proxy_enable = Some(0u32);
                StepReport::Done
            },
        }
    }

    /// Carries a change out on the setting, step by step.
    pub fn carry_out(&mut self, call: ProxyCall) -> (outcome: Result<(), SettingsError>)
        ensures
            final(self)@ == carried_out(old(self)@, call@).setting,
            match outcome {
                Ok(_) => call_outcome(carried_out(old(self)@, call@).state) == Ok::<
                    (),
                    SettingsErrorView,
                >(()),
                Err(error) => call_outcome(carried_out(old(self)@, call@).state) == Err::<
                    (),
                    SettingsErrorView,
                >(error@),
            },
    {
        let ghost begun = call@;
        let mut current = call;
        loop
            invariant
                carried_out(self@, current@) == carried_out(old(self)@, begun),
            ensures
                call_pending(current@) is None,
            decreases
                    current@.steps.len() - current@.next + (if current@.failure is None {
                        1int
                    } else {
                        0int
                    }),
        {
            proof {
                use_type_invariant(&current);
            }
            let report = match current.pending() {
                Some(step) => self.perform(step),
                None => {
                    break ;
                },
            };
            current.advance(report);
        }
        current.into_outcome()
    }
}

/// Enables the proxy at `host:port` on a setting. On a setting held in
/// memory every step succeeds: the flag is on afterwards and the endpoint
/// is the two parts joined by a colon.
pub fn set_system_proxy(setting: &mut SystemProxySetting, host: &str, port: &str) -> (outcome:
    Result<(), SettingsError>)
    ensures
        outcome is Ok,
        final(setting)@ == (SystemProxySettingView {
            proxy_enable: Some(1u32),
            proxy_server: Some(endpoint_of(host@, port@)),
            auto_config_url: old(setting)@.auto_config_url,
        }),
        flag_on(final(setting)@.proxy_enable),
{
    proof {
        reveal_with_fuel(carried_out, 5);
    }
    setting.carry_out(ProxyCall::enable(host, port))
}

/// Disables the proxy on a setting: the flag is off afterwards and
/// neither an endpoint nor an auto-configuration address is stored. That
/// one of them was not stored before is no error.
pub fn disable_system_proxy(setting: &mut SystemProxySetting) -> (outcome: Result<
    (),
    SettingsError,
>)
    ensures
        outcome is Ok,
        final(setting)@ == (SystemProxySettingView {
            proxy_enable: Some(0u32),
            proxy_server: None,
            auto_config_url: None,
        }),
        !flag_on(final(setting)@.proxy_enable),
{
    proof {
        reveal_with_fuel(carried_out, 7);
    }
    setting.carry_out(ProxyCall::disable())
}

/// Whether the proxy is enabled on a setting.
pub fn is_system_proxy_enabled(setting: &SystemProxySetting) -> (enabled: bool)
    ensures
        enabled == flag_on(setting@.proxy_enable),
{
    flag_is_on(setting.proxy_enable)
}

/// The place of the proxy setting in the settings store.
pub open spec fn settings_key() -> Seq<char> {
    "Software\\Microsoft\\Windows\\CurrentVersion\\Internet Settings"@
}

/// The place of the proxy setting in the current user's settings store.
pub fn settings_key_path() -> (path: String)
    ensures
        path@ == settings_key(),
{
    "Software\\Microsoft\\Windows\\CurrentVersion\\Internet Settings".to_owned()
}

/// The name of the stored value that a step writes or deletes.
pub open spec fn value_name_of(step: ProxyStepView) -> Option<Seq<char>> {
    match step {
        ProxyStepView::StoreEndpoint(_) | ProxyStepView::ClearEndpoint => Some("ProxyServer"@),
        ProxyStepView::StoreEnabled(_) => Some("ProxyEnable"@),
        ProxyStepView::ClearAutoConfig => Some("AutoConfigURL"@),
        _ => None,
    }
}

/// The name of the stored value that a step writes or deletes, where it
/// does either.
pub fn value_name(step: &ProxyStep) -> (name: Option<String>)
    ensures
        name.deep_view() == value_name_of(step@),
{
    match step {
        ProxyStep::StoreEndpoint(_) | ProxyStep::ClearEndpoint => Some("ProxyServer".to_owned()),
        ProxyStep::StoreEnabled(_) => Some("ProxyEnable".to_owned()),
        ProxyStep::ClearAutoConfig => Some("AutoConfigURL".to_owned()),
        _ => None,
    }
}

/// The command by which `Reassert` switches the flag off once more.
pub open spec fn reassert_command_of() -> CommandLineView {
    CommandLineView {
        program: "powershell"@,
        args: seq![
            "-Command"@,
            "Set-ItemProperty -Path 'HKCU:\\Software\\Microsoft\\Windows\\CurrentVersion\\Internet Settings' -Name ProxyEnable -Value 0"@,
        ],
    }
}

/// The command by which `Reassert` switches the flag off once more.
pub fn reassert_command() -> (command: CommandLine)
    ensures
        command@ == reassert_command_of(),
{
    let mut args: Vec<String> = Vec::new();
    args.push("-Command".to_owned());
    args.push(
        "Set-ItemProperty -Path 'HKCU:\\Software\\Microsoft\\Windows\\CurrentVersion\\Internet Settings' -Name ProxyEnable -Value 0".to_owned(),
    );
    assert(args.deep_view() =~= reassert_command_of().args);
    CommandLine { program: "powershell".to_owned(), args }
}

/// The value of a decimal digit, and `None` for any other character.
pub open spec fn digit_of(c: char) -> Option<nat> {
    if c == '0' {
        Some(0)
    } else if c == '1' {
        Some(1)
    } else if c == '2' {
        Some(2)
    } else if c == '3' {
        Some(3)
    } else if c == '4' {
        Some(4)
    } else if c == '5' {
        Some(5)
    } else if c == '6' {
        Some(6)
    } else if c == '7' {
        Some(7)
    } else if c == '8' {
        Some(8)
    } else if c == '9' {
        Some(9)
    } else {
        None
    }
}

/// A decimal digit.
pub open spec fn is_digit(c: char) -> bool {
    digit_of(c) is Some
}

fn digit_value(c: char) -> (value: Option<u32>)
    ensures
        match value {
            Some(value) => digit_of(c) == Some(value as nat) && value <= 9,
            None => digit_of(c) is None,
        },
{
    match c {
        '0' => Some(0),
        '1' => Some(1),
        '2' => Some(2),
        '3' => Some(3),
        '4' => Some(4),
        '5' => Some(5),
        '6' => Some(6),
        '7' => Some(7),
        '8' => Some(8),
        '9' => Some(9),
        _ => None,
    }
}

/// Every character is a decimal digit.
pub open spec fn all_digits(text: Seq<char>) -> bool {
    forall|i: int| 0 <= i < text.len() ==> is_digit(#[trigger] text[i])
}

/// The number that a sequence of decimal digits stands for.
pub open spec fn digits_value(digits: Seq<char>) -> nat
    decreases digits.len(),
{
    if digits.len() == 0 {
        0
    } else {
        digits_value(digits.drop_last()) * 10 + match digit_of(digits.last()) {
            Some(value) => value,
            None => 0,
        }
    }
}

/// The port that a text stands for: decimal digits, at least one, after
/// an optional plus sign, that make a number of at most 65535.
pub open spec fn port_of(text: Seq<char>) -> Option<u16> {
    let digits = if text.len() > 0 && text[0] == '+' {
        text.skip(1)
    } else {
        text
    };
    if digits.len() > 0 && all_digits(digits) && digits_value(digits) <= 65535 {
        Some(digits_value(digits) as u16)
    } else {
        None
    }
}

/// `at` is the position of the first colon.
pub open spec fn first_colon_at(text: Seq<char>, at: int) -> bool {
    &&& 0 <= at < text.len()
    &&& text[at] == ':'
    &&& forall|i: int| 0 <= i < at ==> text[i] != ':'
}

/// Why a stored endpoint cannot be read as host and port.
#[derive(Debug, Clone, Copy, PartialEq, Eq, Structural)]
pub enum EndpointError {
    /// No endpoint is stored.
    NotStored,
    /// The endpoint holds no colon.
    NoPort,
    /// What follows the first colon is no port.
    InvalidPort,
}

proof fn lemma_digits_grow(digits: Seq<char>, upto: int)
    requires
        all_digits(digits),
        0 <= upto <= digits.len(),
    ensures
        digits_value(digits.take(upto)) <= digits_value(digits),
    decreases digits.len() - upto,
{
    if upto < digits.len() {
        assert(digits.take(upto + 1).drop_last() =~= digits.take(upto));
        assert(is_digit(digits[upto]));
        assert(digits.take(upto + 1).last() == digits[upto]);
        lemma_digits_grow(digits, upto + 1);
    } else {
        assert(digits.take(upto) =~= digits);
    }
}

fn parse_port(chars: &Vec<char>, from: usize) -> (port: Option<u16>)
    requires
        from <= chars.len(),
    ensures
        port == port_of(chars@.skip(from as int)),
{
    let ghost text = chars@.skip(from as int);
    let mut at: usize = from;
    if at < chars.len() && chars[at] == '+' {
        at += 1;
    }
    let start: usize = at;
    let ghost digits = chars@.skip(start as int);
    assert(digits =~= if text.len() > 0 && text[0] == '+' {
        text.skip(1)
    } else {
        text
    });
    if at == chars.len() {
        return None;
    }
    let mut value: u32 = 0;
    assert(digits.take(0) =~= Seq::<char>::empty());
    while at < chars.len()
        invariant
            start <= at <= chars.len(),
            digits == chars@.skip(start as int),
            digits.len() > 0,
            text == chars@.skip(from as int),
            digits == if text.len() > 0 && text[0] == '+' {
                text.skip(1)
            } else {
                text
            },
            all_digits(digits.take(at - start)),
            value == digits_value(digits.take(at - start)),
            value <= 65535,
        decreases chars.len() - at,
    {
        let c = chars[at];
        proof {
            assert(digits.take(at - start + 1).drop_last() =~= digits.take(at - start));
            assert(digits.take(at - start + 1).last() == c);
        }
        let digit = match digit_value(c) {
            Some(digit) => digit,
            None => {
                assert(!is_digit(digits[at - start]));
                return None;
            },
        };
        let next: u32 = value * 10 + digit;
        if next > 65535 {
            proof {
                if all_digits(digits) {
                    lemma_digits_grow(digits, at - start + 1);
                }
            }
            return None;
        }
        assert(is_digit(c));
        assert(digits[at - start] == c);
        value = next;
        at += 1;
        assert forall|i: int| 0 <= i < digits.take(at - start).len() implies is_digit(
            #[trigger] digits.take(at - start)[i],
        ) by {
            if i < at - start - 1 {
                assert(digits.take(at - start)[i] == digits.take(at - start - 1)[i]);
            } else {
                assert(digits.take(at - start)[i] == c);
            }
        }
    }
    assert(digits.take(at - start) =~= digits);
    Some(value as u16)
}

/// Reads a stored endpoint as host and port: the host is what stands
/// before the first colon, the port what follows it.
pub fn parse_endpoint(endpoint: &str) -> (result: Result<(String, u16), EndpointError>)
    ensures
        result != Err::<(String, u16), EndpointError>(EndpointError::NotStored),
        !endpoint@.contains(':') <==> result == Err::<(String, u16), EndpointError>(
            EndpointError::NoPort,
        ),
        forall|at: int|
            first_colon_at(endpoint@, at) ==> match port_of(endpoint@.skip(at + 1)) {
                Some(number) => result matches Ok((host, port)) && host@ == endpoint@.take(at)
                    && port == number,
                None => result == Err::<(String, u16), EndpointError>(EndpointError::InvalidPort),
            },
{
    let chars = characters(endpoint);
    let colon = position_from(&chars, ':', 0);
    if colon == chars.len() {
        assert(!endpoint@.contains(':'));
        return Err(EndpointError::NoPort);
    }
    assert(endpoint@.contains(':'));
    assert(first_colon_at(endpoint@, colon as int));
    assert forall|at: int| first_colon_at(endpoint@, at) implies at == colon by {}
    match parse_port(&chars, colon + 1) {
        Some(port) => {
            let host = endpoint.substring_char(0, colon).to_owned();
            Ok((host, port))
        },
        None => Err(EndpointError::InvalidPort),
    }
}

/// The endpoint that is stored on a setting, as host and port.
pub fn get_system_proxy(setting: &SystemProxySetting) -> (result: Result<
    (String, u16),
    EndpointError,
>)
    ensures
        setting@.proxy_server is None <==> result == Err::<(String, u16), EndpointError>(
            EndpointError::NotStored,
        ),
        setting@.proxy_server matches Some(endpoint) ==> (!endpoint.contains(':') <==> result
            == Err::<(String, u16), EndpointError>(EndpointError::NoPort)) && forall|at: int|
            first_colon_at(endpoint, at) ==> match port_of(endpoint.skip(at + 1)) {
                Some(number) => result matches Ok((host, port)) && host@ == endpoint.take(at)
                    && port == number,
                None => result == Err::<(String, u16), EndpointError>(EndpointError::InvalidPort),
            },
{
    match &setting.proxy_server {
        Some(endpoint) => parse_endpoint(endpoint.as_str()),
        None => Err(EndpointError::NotStored),
    }
}

} // verus!
