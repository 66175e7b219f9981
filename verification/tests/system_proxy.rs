use ech_workers_client::config::{Config, ProxyConfig};
use ech_workers_client::reconcile::{
    after_switch, enable_call_for, invalid_listen_address_message, recorded_after_switch,
    switch_failure_message, StateChange,
};
use ech_workers_client::sysproxy::{
    disable_system_proxy, flag_is_on, get_system_proxy, is_system_proxy_enabled, parse_endpoint,
    proxy_endpoint, reassert_command, set_system_proxy, settings_key_path, split_listen_address,
    value_name, EndpointError, InvalidListenAddress, ProxyCall, ProxyStep, SettingsError,
    StepReport, SystemProxySetting,
};

fn steps_of(mut call: ProxyCall) -> Vec<String> {
    let mut seen = Vec::new();
    loop {
        let step = match call.pending() {
            Some(step) => format!("{:?}", step),
            None => return seen,
        };
        seen.push(step);
        call.advance(StepReport::Done);
    }
}

#[test]
fn listen_address_splits_at_its_colon() {
    assert_eq!(
        split_listen_address("127.0.0.1:30000"),
        Ok(("127.0.0.1".to_string(), "30000".to_string()))
    );
    assert_eq!(split_listen_address(":80"), Ok((String::new(), "80".to_string())));
    assert_eq!(split_listen_address("host:"), Ok(("host".to_string(), String::new())));
    assert_eq!(split_listen_address("héllo:wörld"), Ok(("héllo".to_string(), "wörld".to_string())));
}

#[test]
fn listen_address_needs_exactly_one_colon() {
    assert_eq!(split_listen_address("localhost"), Err(InvalidListenAddress));
    assert_eq!(split_listen_address(""), Err(InvalidListenAddress));
    assert_eq!(split_listen_address("[::1]:30000"), Err(InvalidListenAddress));
    assert_eq!(split_listen_address("a:b:c"), Err(InvalidListenAddress));
    assert_eq!(invalid_listen_address_message(), "Invalid listen address format");
}

#[test]
fn endpoint_joins_host_and_port() {
    assert_eq!(proxy_endpoint("127.0.0.1", "30000"), "127.0.0.1:30000");
    assert_eq!(proxy_endpoint("", ""), ":");
    let (host, port) = split_listen_address("example.org:8080").unwrap();
    assert_eq!(proxy_endpoint(&host, &port), "example.org:8080");
}

#[test]
fn enabling_stores_endpoint_and_flag() {
    let mut setting = SystemProxySetting::new();
    assert!(!is_system_proxy_enabled(&setting));
    assert_eq!(set_system_proxy(&mut setting, "127.0.0.1", "30000"), Ok(()));
    assert_eq!(setting.proxy_server, Some("127.0.0.1:30000".to_string()));
    assert_eq!(setting.proxy_enable, Some(1));
    assert!(is_system_proxy_enabled(&setting));
    assert_eq!(get_system_proxy(&setting), Ok(("127.0.0.1".to_string(), 30000)));
}

#[test]
fn enabling_at_the_listen_address_of_the_store() {
    let mut config = Config::default();
    config.ensure_default_server_with("server_1".to_string());
    let call = enable_call_for(&config).unwrap();
    let mut setting = SystemProxySetting::new();
    assert_eq!(setting.carry_out(call), Ok(()));
    assert_eq!(setting.proxy_server, Some("127.0.0.1:30000".to_string()));
    assert!(is_system_proxy_enabled(&setting));
}

#[test]
fn enabling_is_refused_for_a_bad_listen_address() {
    let mut config = Config::default();
    config.ensure_default_server_with("server_1".to_string());
    let mut settings = ProxyConfig::default();
    settings.listen_addr = "30000".to_string();
    config.set_proxy_config(settings);
    assert!(matches!(enable_call_for(&config), Err(InvalidListenAddress)));
}

#[test]
fn disabling_clears_flag_and_endpoint() {
    let mut setting = SystemProxySetting {
        proxy_enable: Some(1),
        proxy_server: Some("127.0.0.1:30000".to_string()),
        auto_config_url: Some("http://wpad/wpad.dat".to_string()),
    };
    assert_eq!(disable_system_proxy(&mut setting), Ok(()));
    assert_eq!(setting.proxy_enable, Some(0));
    assert_eq!(setting.proxy_server, None);
    assert_eq!(setting.auto_config_url, None);
    assert!(!is_system_proxy_enabled(&setting));
}

#[test]
fn disabling_tolerates_a_missing_endpoint() {
    let mut setting = SystemProxySetting::new();
    assert_eq!(disable_system_proxy(&mut setting), Ok(()));
    assert_eq!(setting.proxy_enable, Some(0));
    assert_eq!(setting.proxy_server, None);
    assert_eq!(disable_system_proxy(&mut setting), Ok(()));
    assert!(!is_system_proxy_enabled(&setting));
}

#[test]
fn clearing_a_missing_value_is_reported() {
    let mut setting = SystemProxySetting::new();
    assert_eq!(
        setting.perform(&ProxyStep::ClearEndpoint),
        StepReport::Failed("the value is not stored".to_string())
    );
    setting.perform(&ProxyStep::StoreEndpoint("h:1".to_string()));
    assert_eq!(setting.perform(&ProxyStep::ClearEndpoint), StepReport::Done);
    assert_eq!(setting.proxy_server, None);
}

#[test]
fn steps_in_order() {
    assert_eq!(
        steps_of(ProxyCall::enable("127.0.0.1", "30000")),
        vec!["Open", "StoreEndpoint(\"127.0.0.1:30000\")", "StoreEnabled(true)", "Broadcast"]
    );
    assert_eq!(
        steps_of(ProxyCall::disable()),
        vec![
            "Open",
            "StoreEnabled(false)",
            "ClearEndpoint",
            "ClearAutoConfig",
            "Broadcast",
            "Reassert",
        ]
    );
}

#[test]
fn a_store_that_cannot_be_opened_ends_the_change() {
    let mut call = ProxyCall::enable("127.0.0.1", "30000");
    call.advance(StepReport::Failed("access is denied".to_string()));
    assert_eq!(call.pending(), None);
    let error = call.into_outcome().unwrap_err();
    assert_eq!(
        error,
        SettingsError::AccessDenied(
            "Failed to open Internet Settings registry key: access is denied".to_string()
        )
    );
    assert_eq!(
        switch_failure_message(true, &error),
        "Failed to set system proxy: Failed to open Internet Settings registry key: access is denied"
    );
}

#[test]
fn a_write_that_fails_ends_the_change() {
    let mut call = ProxyCall::enable("127.0.0.1", "30000");
    call.advance(StepReport::Done);
    call.advance(StepReport::Failed("disk full".to_string()));
    assert_eq!(call.pending(), None);
    assert_eq!(
        call.into_outcome(),
        Err(SettingsError::WriteFailed(
            "Failed to set ProxyServer registry value: disk full".to_string()
        ))
    );

    let mut call = ProxyCall::enable("127.0.0.1", "30000");
    call.advance(StepReport::Done);
    call.advance(StepReport::Done);
    call.advance(StepReport::Failed("disk full".to_string()));
    assert_eq!(
        call.into_outcome(),
        Err(SettingsError::WriteFailed("Failed to enable proxy: disk full".to_string()))
    );

    let mut call = ProxyCall::disable();
    call.advance(StepReport::Done);
    call.advance(StepReport::Failed("disk full".to_string()));
    let error = call.into_outcome().unwrap_err();
    assert_eq!(error.message(), "Failed to disable proxy: disk full");
    assert_eq!(
        switch_failure_message(false, &error),
        "Failed to disable system proxy: Failed to disable proxy: disk full"
    );
}

#[test]
fn other_failures_are_passed_over() {
    let mut call = ProxyCall::disable();
    call.advance(StepReport::Done);
    call.advance(StepReport::Done);
    for _ in 0..4 {
        assert!(call.pending().is_some());
        call.advance(StepReport::Failed("never mind".to_string()));
    }
    assert_eq!(call.pending(), None);
    call.advance(StepReport::Failed("too late".to_string()));
    assert_eq!(call.into_outcome(), Ok(()));
}

#[test]
fn flag_reads_as_on_when_not_zero() {
    assert!(!flag_is_on(None));
    assert!(!flag_is_on(Some(0)));
    assert!(flag_is_on(Some(1)));
    assert!(flag_is_on(Some(7)));
}

#[test]
fn stored_endpoint_is_read_back() {
    assert_eq!(parse_endpoint("127.0.0.1:30000"), Ok(("127.0.0.1".to_string(), 30000)));
    assert_eq!(parse_endpoint("h:0"), Ok(("h".to_string(), 0)));
    assert_eq!(parse_endpoint("h:65535"), Ok(("h".to_string(), 65535)));
    assert_eq!(parse_endpoint("h:+80"), Ok(("h".to_string(), 80)));
    assert_eq!(parse_endpoint("h:00080"), Ok(("h".to_string(), 80)));
    assert_eq!(parse_endpoint(":1"), Ok((String::new(), 1)));
}

#[test]
fn stored_endpoint_with_a_bad_port_is_refused() {
    assert_eq!(parse_endpoint("localhost"), Err(EndpointError::NoPort));
    assert_eq!(parse_endpoint(""), Err(EndpointError::NoPort));
    assert_eq!(parse_endpoint("h:"), Err(EndpointError::InvalidPort));
    assert_eq!(parse_endpoint("h:+"), Err(EndpointError::InvalidPort));
    assert_eq!(parse_endpoint("h:-1"), Err(EndpointError::InvalidPort));
    assert_eq!(parse_endpoint("h:65536"), Err(EndpointError::InvalidPort));
    assert_eq!(parse_endpoint("h:99999999999999999999"), Err(EndpointError::InvalidPort));
    assert_eq!(parse_endpoint("h:80a"), Err(EndpointError::InvalidPort));
    assert_eq!(parse_endpoint("h: 80"), Err(EndpointError::InvalidPort));
    assert_eq!(parse_endpoint("a:b:80"), Err(EndpointError::InvalidPort));
    assert_eq!(parse_endpoint("h:٣"), Err(EndpointError::InvalidPort));
}

#[test]
fn port_reading_agrees_with_the_standard_parser() {
    let texts = ["0", "1", "+1", "++1", "65535", "65536", "070", "", "+", "-0", "12x", "4294967296"];
    for text in texts {
        let expected = text.parse::<u16>().ok();
        let endpoint = format!("h:{}", text);
        assert_eq!(parse_endpoint(&endpoint).ok().map(|(_, port)| port), expected, "{:?}", text);
    }
}

#[test]
fn missing_endpoint_is_told_apart() {
    assert_eq!(get_system_proxy(&SystemProxySetting::new()), Err(EndpointError::NotStored));
}

#[test]
fn settings_store_names() {
    assert_eq!(
        settings_key_path(),
        "Software\\Microsoft\\Windows\\CurrentVersion\\Internet Settings"
    );
    assert_eq!(value_name(&ProxyStep::StoreEndpoint(String::new())), Some("ProxyServer".to_string()));
    assert_eq!(value_name(&ProxyStep::ClearEndpoint), Some("ProxyServer".to_string()));
    assert_eq!(value_name(&ProxyStep::StoreEnabled(true)), Some("ProxyEnable".to_string()));
    assert_eq!(value_name(&ProxyStep::ClearAutoConfig), Some("AutoConfigURL".to_string()));
    assert_eq!(value_name(&ProxyStep::Open), None);
    assert_eq!(value_name(&ProxyStep::Broadcast), None);
    assert_eq!(value_name(&ProxyStep::Reassert), None);
    let command = reassert_command();
    assert_eq!(command.program, "powershell");
    assert_eq!(
        command.args,
        vec![
            "-Command",
            "Set-ItemProperty -Path 'HKCU:\\Software\\Microsoft\\Windows\\CurrentVersion\\Internet Settings' -Name ProxyEnable -Value 0",
        ]
    );
}

#[test]
fn switch_is_recorded_only_when_it_went_through() {
    assert_eq!(
        after_switch(true),
        StateChange { was_running: None, system_proxy_enabled: Some(true) }
    );
    assert_eq!(recorded_after_switch(true, &Ok(())), Some(after_switch(true)));
    assert_eq!(recorded_after_switch(false, &Ok(())), Some(after_switch(false)));
    let failed = Err(SettingsError::WriteFailed("no".to_string()));
    assert_eq!(recorded_after_switch(true, &failed), None);
}
