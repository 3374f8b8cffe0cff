use ha_companion::commands::{apply_settings_update, toggle_sensor, SettingsResponse};
use ha_companion::errors::HaError;
use ha_companion::ha_client::HaClient;
use ha_companion::polling::{after_push_outcome, after_registration_outcome, poll_tick};
use ha_companion::registration::{
    build_registration_request, prepare_re_register, RegistrationWorkflow, WorkflowAction,
    WorkflowState,
};
use ha_companion::sensors::collector::{EnabledSensors, SensorCollector};
use ha_companion::sensors::system_info::SystemInfoData;
use ha_companion::settings::AppSettings;

fn settings_with(url: &str, token: &str) -> AppSettings {
    AppSettings {
        server_url: url.to_string(),
        access_token: token.to_string(),
        webhook_id: None,
        device_id: "device-1".to_string(),
        update_interval: 60,
        language: "en".to_string(),
        enabled_sensors: EnabledSensors::new(),
        autostart: false,
    }
}

fn host_facts() -> SystemInfoData {
    SystemInfoData {
        os_name: "TestOS".to_string(),
        os_version: "1.2".to_string(),
        hostname: "box".to_string(),
        motherboard_manufacturer: Some("Maker".to_string()),
        motherboard_model: Some("Board".to_string()),
        bios_version: None,
        bios_vendor: None,
        bios_release_date: None,
        uptime_seconds: 1,
        boot_time: 0,
        logged_in_user: None,
        process_count: 1,
        displays: Vec::new(),
    }
}

#[test]
fn empty_settings_reject_before_any_network_step() {
    let (workflow, outcome) = RegistrationWorkflow::start("", "");
    assert_eq!(workflow.state, WorkflowState::Unconfigured);
    assert_eq!(outcome.unwrap_err(), HaError::ConfigIncomplete);

    let (workflow, outcome) = RegistrationWorkflow::start("https://ha.local", "");
    assert_eq!(workflow.state, WorkflowState::Unconfigured);
    assert_eq!(outcome.unwrap_err(), HaError::ConfigIncomplete);

    let (workflow, outcome) = RegistrationWorkflow::start("", "token");
    assert_eq!(workflow.state, WorkflowState::Unconfigured);
    assert_eq!(outcome.unwrap_err(), HaError::ConfigIncomplete);
}

#[test]
fn successful_run_ends_live_with_the_issued_webhook() {
    let (workflow, action) = RegistrationWorkflow::start("https://ha.local", "token");
    assert_eq!(workflow.state, WorkflowState::Validated);
    assert_eq!(action.unwrap(), WorkflowAction::Probe);

    let (workflow, action) = workflow.on_probe(Ok(()));
    assert_eq!(workflow.state, WorkflowState::Reachable);
    assert_eq!(action.unwrap(), WorkflowAction::Register);

    let (workflow, action) = workflow.on_register(Ok("abc123".to_string()));
    assert_eq!(workflow.state, WorkflowState::Registered);
    assert_eq!(workflow.webhook_id.as_deref(), Some("abc123"));
    assert_eq!(action.unwrap(), WorkflowAction::SaveWebhookAndSettle);

    let (workflow, action) = workflow.on_settled();
    assert_eq!(action.unwrap(), WorkflowAction::DeclareSensors);

    let (workflow, action) = workflow.on_declared(Ok(()));
    assert_eq!(workflow.state, WorkflowState::SensorsDeclared);
    assert_eq!(action.unwrap(), WorkflowAction::PushInitial);

    let (workflow, action) = workflow.on_initial_push(Ok(()));
    assert_eq!(workflow.state, WorkflowState::Live);
    assert_eq!(workflow.webhook_id.as_deref(), Some("abc123"));
    assert_eq!(action.unwrap(), WorkflowAction::Done);

    let registered = after_registration_outcome(false, &Ok("abc123".to_string()));
    assert!(registered);
}

#[test]
fn probe_failure_is_terminal_and_keeps_its_diagnostic() {
    let (workflow, _) = RegistrationWorkflow::start("https://ha.local", "token");
    let (workflow, outcome) =
        workflow.on_probe(Err(HaError::Unreachable("no route".to_string())));
    assert_eq!(workflow.state, WorkflowState::Failed);
    assert_eq!(
        outcome.unwrap_err(),
        HaError::Unreachable("no route".to_string())
    );
}

#[test]
fn declaration_failure_keeps_the_saved_webhook() {
    let (workflow, _) = RegistrationWorkflow::start("https://ha.local", "token");
    let (workflow, _) = workflow.on_probe(Ok(()));
    let (workflow, _) = workflow.on_register(Ok("abc123".to_string()));
    let (workflow, _) = workflow.on_settled();
    let (workflow, outcome) = workflow.on_declared(Err(HaError::WebhookExpired));
    assert_eq!(workflow.state, WorkflowState::Failed);
    assert_eq!(workflow.webhook_id.as_deref(), Some("abc123"));
    assert_eq!(outcome.unwrap_err(), HaError::WebhookExpired);
}

#[test]
fn a_gone_response_demotes_registration_until_reregistered() {
    let registered = true;
    let registered = after_push_outcome(registered, &Err(HaError::WebhookExpired));
    assert!(!registered);
    assert!(!poll_tick(registered));
    let registered = after_push_outcome(registered, &Ok(()));
    assert!(!registered);
    let registered = after_registration_outcome(
        registered,
        &Err(HaError::Unreachable("down".to_string())),
    );
    assert!(!registered);
    let registered = after_registration_outcome(registered, &Ok("hook".to_string()));
    assert!(registered);
    assert!(poll_tick(registered));
}

#[test]
fn other_push_failures_keep_the_cadence_and_flag() {
    assert!(after_push_outcome(
        true,
        &Err(HaError::PushFailed(500, "busy".to_string()))
    ));
    assert!(after_push_outcome(true, &Ok(())));
    assert!(after_push_outcome(true, &Err(HaError::IntegrationRemoved)));
}

#[test]
fn registration_request_carries_the_identity() {
    let settings = settings_with("https://ha.local", "token");
    let request = build_registration_request(&settings, &host_facts(), "0.9.1");
    assert_eq!(request.device_id, "device-1");
    assert_eq!(request.device_name, "box");
    assert_eq!(request.manufacturer.as_deref(), Some("Maker"));
    assert_eq!(request.model.as_deref(), Some("Board"));
    assert_eq!(request.os_name.as_deref(), Some("TestOS"));
    assert_eq!(request.os_version.as_deref(), Some("1.2"));
    assert_eq!(request.app_version.as_deref(), Some("0.9.1"));
}

#[test]
fn changed_connection_invalidates_the_webhook() {
    let mut settings = settings_with("https://ha.local", "token");
    settings.webhook_id = Some("hook".to_string());

    let changed = apply_settings_update(
        &mut settings,
        "https://ha.local/".to_string(),
        " token ".to_string(),
        30,
        "de".to_string(),
        true,
    );
    assert!(!changed);
    assert_eq!(settings.webhook_id.as_deref(), Some("hook"));
    assert_eq!(settings.update_interval, 30);
    assert_eq!(settings.language, "de");
    assert!(settings.autostart);

    let changed = apply_settings_update(
        &mut settings,
        "https://other/api".to_string(),
        "token".to_string(),
        30,
        "de".to_string(),
        true,
    );
    assert!(changed);
    assert_eq!(settings.server_url, "https://other");
    assert!(settings.webhook_id.is_none());
}

#[test]
fn re_registration_clears_the_webhook_and_reconfigures_the_client() {
    let mut settings = settings_with("https://ha.local", "token");
    settings.webhook_id = Some("old-hook".to_string());
    let mut client = HaClient::new(
        "https://stale".to_string(),
        "stale".to_string(),
        Some("old-hook".to_string()),
    );
    prepare_re_register(&mut settings, &mut client);
    assert!(settings.webhook_id.is_none());
    assert_eq!(client.server_url, "https://ha.local");
    assert_eq!(client.access_token, "token");
}

#[test]
fn toggling_updates_settings_and_collector_together() {
    let mut settings = settings_with("https://ha.local", "token");
    let mut collector = SensorCollector::new(&settings.enabled_sensors);
    assert!(collector.is_enabled("cpu_usage"));
    toggle_sensor(
        &mut settings,
        &mut collector,
        "cpu_usage".to_string(),
        false,
    );
    assert!(!collector.is_enabled("cpu_usage"));
    assert_eq!(settings.enabled_sensors.get("cpu_usage"), Some(false));
}

#[test]
fn settings_snapshot_mirrors_the_settings() {
    let mut settings = settings_with("https://ha.local", "token");
    settings.webhook_id = Some("hook".to_string());
    let response = SettingsResponse::from_settings(&settings, true);
    assert_eq!(response.server_url, "https://ha.local");
    assert_eq!(response.webhook_id.as_deref(), Some("hook"));
    assert_eq!(response.device_id, "device-1");
    assert!(response.is_registered);
}

#[test]
fn loaded_settings_fall_back_to_defaults() {
    let settings = AppSettings::from_loaded(
        None,
        None,
        None,
        Some("keep-me".to_string()),
        None,
        None,
        None,
        None,
    );
    assert_eq!(settings.server_url, "");
    assert_eq!(settings.access_token, "");
    assert!(settings.webhook_id.is_none());
    assert_eq!(settings.device_id, "keep-me");
    assert_eq!(settings.update_interval, 60);
    assert_eq!(settings.language, "en");
    assert!(!settings.autostart);

    let fresh = AppSettings::from_loaded(None, None, None, None, None, None, None, None);
    assert_eq!(fresh.device_id.len(), 36);

    let defaults = AppSettings::default();
    assert_eq!(defaults.update_interval, 60);
    assert_eq!(defaults.language, "en");
    assert_eq!(defaults.device_id.len(), 36);
}
