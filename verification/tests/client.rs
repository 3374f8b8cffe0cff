use ha_companion::errors::HaError;
use ha_companion::ha_client::{
    normalize_server_url, HaClient, RegistrationResponse, UpdatePlan,
};
use ha_companion::sensors::collector::{SensorValue, StateValue};

fn sample_sensor(id: &str) -> SensorValue {
    SensorValue {
        unique_id: id.to_string(),
        name: "Sample".to_string(),
        state: StateValue::Integer(1),
        sensor_type: "sensor".to_string(),
        device_class: None,
        unit_of_measurement: None,
        state_class: None,
        icon: None,
        attributes: Vec::new(),
        update_at_interval: true,
    }
}

#[test]
fn url_normalization_is_canonical() {
    assert_eq!(normalize_server_url("https://ha.local/api/"), "https://ha.local");
    assert_eq!(normalize_server_url("https://ha.local"), "https://ha.local");
    assert_eq!(normalize_server_url("  https://ha.local/  "), "https://ha.local");
    assert_eq!(normalize_server_url("https://ha.local/api"), "https://ha.local");
    assert_eq!(normalize_server_url("https://ha.local//"), "https://ha.local");
    assert_eq!(normalize_server_url("https://ha.local/apix"), "https://ha.local/apix");
}

#[test]
fn client_normalizes_configuration() {
    let client = HaClient::new(
        "https://ha.local/api/".to_string(),
        "  token  ".to_string(),
        None,
    );
    assert_eq!(client.server_url, "https://ha.local");
    assert_eq!(client.access_token, "token");
    assert_eq!(client.base_url(), "https://ha.local");
    assert_eq!(client.ping_url(), "https://ha.local/api/desktop_app/ping");
    assert_eq!(
        client.registration_url(),
        "https://ha.local/api/desktop_app/registrations"
    );
    assert!(client.webhook_url().is_none());
}

#[test]
fn updating_config_keeps_the_webhook() {
    let mut client = HaClient::new(
        "https://a".to_string(),
        "t".to_string(),
        Some("hook1".to_string()),
    );
    client.update_config("https://b/api".to_string(), " u ".to_string());
    assert_eq!(client.server_url, "https://b");
    assert_eq!(client.access_token, "u");
    assert_eq!(client.webhook_id(), Some("hook1"));
    assert_eq!(
        client.webhook_url().unwrap(),
        "https://b/api/webhook/hook1"
    );
}

#[test]
fn reachability_statuses_classify() {
    assert!(HaClient::classify_reachability(200).is_ok());
    assert!(HaClient::classify_reachability(204).is_ok());
    assert_eq!(
        HaClient::classify_reachability(404).unwrap_err(),
        HaError::IntegrationNotInstalled
    );
    assert_eq!(
        HaClient::classify_reachability(500).unwrap_err(),
        HaError::Unreachable("Server returned 500".to_string())
    );
}

#[test]
fn registration_interpretation_covers_every_case() {
    assert_eq!(
        HaClient::interpret_registration(401, "", None).unwrap_err(),
        HaError::Unauthorized
    );
    assert_eq!(
        HaClient::interpret_registration(404, "", None).unwrap_err(),
        HaError::IntegrationNotInstalled
    );
    assert_eq!(
        HaClient::interpret_registration(500, "boom", None).unwrap_err(),
        HaError::PushFailed(500, "boom".to_string())
    );
    assert_eq!(
        HaClient::interpret_registration(200, "not json", None).unwrap_err(),
        HaError::MalformedResponse
    );
    let rejected = RegistrationResponse {
        success: false,
        webhook_id: None,
        error: Some("duplicate".to_string()),
    };
    assert_eq!(
        HaClient::interpret_registration(200, "", Some(rejected)).unwrap_err(),
        HaError::RegistrationRejected("duplicate".to_string())
    );
    let rejected_silently = RegistrationResponse {
        success: false,
        webhook_id: None,
        error: None,
    };
    assert_eq!(
        HaClient::interpret_registration(200, "", Some(rejected_silently)).unwrap_err(),
        HaError::RegistrationRejected("Unknown error".to_string())
    );
    let missing_id = RegistrationResponse {
        success: true,
        webhook_id: None,
        error: None,
    };
    assert_eq!(
        HaClient::interpret_registration(200, "", Some(missing_id)).unwrap_err(),
        HaError::MalformedResponse
    );
    let ok = RegistrationResponse {
        success: true,
        webhook_id: Some("abc123".to_string()),
        error: None,
    };
    assert_eq!(
        HaClient::interpret_registration(200, "", Some(ok)).unwrap(),
        "abc123"
    );
}

#[test]
fn empty_batch_needs_no_network_call() {
    let client = HaClient::new(
        "https://ha.local".to_string(),
        "t".to_string(),
        Some("hook".to_string()),
    );
    let plan = client.update_plan(&Vec::new());
    assert!(matches!(plan, UpdatePlan::Noop));

    let unregistered = HaClient::new("https://ha.local".to_string(), "t".to_string(), None);
    let plan = unregistered.update_plan(&Vec::new());
    assert!(matches!(plan, UpdatePlan::Noop));
}

#[test]
fn update_plan_maps_every_sensor() {
    let client = HaClient::new(
        "https://ha.local".to_string(),
        "t".to_string(),
        Some("hook".to_string()),
    );
    let sensors = vec![sample_sensor("a"), sample_sensor("b")];
    match client.update_plan(&sensors) {
        UpdatePlan::Send { url, updates } => {
            assert_eq!(url, "https://ha.local/api/webhook/hook");
            assert_eq!(updates.len(), 2);
            assert_eq!(updates[0].sensor_unique_id, "a");
            assert_eq!(updates[1].sensor_unique_id, "b");
        }
        _ => panic!("expected a send plan"),
    }

    let unregistered = HaClient::new("https://ha.local".to_string(), "t".to_string(), None);
    assert!(matches!(
        unregistered.update_plan(&sensors),
        UpdatePlan::NotRegistered
    ));
}

#[test]
fn declarations_are_one_per_sensor() {
    let client = HaClient::new(
        "https://ha.local".to_string(),
        "t".to_string(),
        Some("hook".to_string()),
    );
    let sensors = vec![sample_sensor("a"), sample_sensor("b"), sample_sensor("c")];
    let (url, payloads) = client.declare_plan(&sensors).unwrap();
    assert_eq!(url, "https://ha.local/api/webhook/hook");
    assert_eq!(payloads.len(), 3);
    assert_eq!(payloads[2].sensor_unique_id, "c");

    let unregistered = HaClient::new("https://ha.local".to_string(), "t".to_string(), None);
    assert_eq!(
        unregistered.declare_plan(&sensors).unwrap_err(),
        HaError::NotRegistered
    );
}

#[test]
fn push_statuses_classify() {
    assert!(HaClient::classify_push_status(200, "").is_ok());
    assert_eq!(
        HaClient::classify_push_status(410, "").unwrap_err(),
        HaError::WebhookExpired
    );
    assert_eq!(
        HaClient::classify_push_status(404, "").unwrap_err(),
        HaError::IntegrationRemoved
    );
    assert_eq!(
        HaClient::classify_push_status(500, "oops").unwrap_err(),
        HaError::PushFailed(500, "oops".to_string())
    );
    assert!(HaClient::classify_declare_status(201, "").is_ok());
    assert_eq!(
        HaClient::classify_declare_status(410, "").unwrap_err(),
        HaError::WebhookExpired
    );
    assert_eq!(
        HaClient::classify_declare_status(404, "gone").unwrap_err(),
        HaError::PushFailed(404, "gone".to_string())
    );
}

#[test]
fn webhook_liveness_swallows_failures() {
    assert!(HaClient::interpret_webhook_check(Some(200)));
    assert!(!HaClient::interpret_webhook_check(Some(410)));
    assert!(!HaClient::interpret_webhook_check(None));

    let unregistered = HaClient::new("https://ha.local".to_string(), "t".to_string(), None);
    assert!(unregistered.check_webhook_plan().is_none());
}

#[test]
fn error_messages_name_their_cause() {
    assert_eq!(
        HaError::NotRegistered.message(),
        "No webhook id configured"
    );
    assert_eq!(
        HaError::WebhookExpired.message(),
        "410 Gone - webhook expired"
    );
    assert_eq!(
        HaError::PushFailed(503, "busy".to_string()).message(),
        "Push failed (503): busy"
    );
    assert_eq!(
        HaError::RegistrationRejected("no".to_string()).message(),
        "Registration rejected: no"
    );
    assert_eq!(
        HaError::ConfigIncomplete.message(),
        "Server URL or access token is not configured"
    );
    assert_eq!(HaError::NetworkTimeout.message(), "Network timeout");
    assert_eq!(
        HaError::Unreachable("refused".to_string()).message(),
        "Cannot reach the hub's companion API. refused"
    );
}
