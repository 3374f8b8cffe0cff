//! The decision cores of the caller-triggered operations: reading the
//! settings snapshot, applying a settings update, and toggling a sensor.
use vstd::prelude::*;

use crate::ha_client::{normalize_server_url, spec_normalize_url};
use crate::sensors::collector::{spec_lookup, EnabledSensors, SensorCollector};
use crate::settings::AppSettings;
use crate::strutil::{spec_trim, str_eq, trim_ascii};

verus! {

/// The settings snapshot handed to the configuration surface, with the
/// live registered flag joined in.
#[derive(Debug)]
pub struct SettingsResponse {
    pub server_url: String,
    pub access_token: String,
    pub webhook_id: Option<String>,
    pub device_id: String,
    pub update_interval: u64,
    pub language: String,
    pub enabled_sensors: EnabledSensors,
    pub autostart: bool,
    pub is_registered: bool,
}

impl SettingsResponse {
    /// Copies the current settings and the registered flag into one
    /// snapshot.
    pub fn from_settings(settings: &AppSettings, is_registered: bool) -> (r: SettingsResponse)
        ensures
            r.server_url@ == settings.server_url@,
            r.access_token@ == settings.access_token@,
            r.webhook_id.deep_view() == settings.webhook_id.deep_view(),
            r.device_id@ == settings.device_id@,
            r.update_interval == settings.update_interval,
            r.language@ == settings.language@,
            r.enabled_sensors@ == settings.enabled_sensors@,
            r.autostart == settings.autostart,
            r.is_registered == is_registered,
    {
        SettingsResponse {
            server_url: settings.server_url.clone(),
            access_token: settings.access_token.clone(),
            webhook_id: match &settings.webhook_id {
                Some(id) => Some(id.clone()),
                None => None,
            },
            device_id: settings.device_id.clone(),
            update_interval: settings.update_interval,
            language: settings.language.clone(),
            enabled_sensors: settings.enabled_sensors.duplicate(),
            autostart: settings.autostart,
            is_registered,
        }
    }
}

/// Applies a settings update: the URL is normalized and the credential
/// trimmed before they replace the stored pair, the cadence, language
/// and autostart follow, and the result says whether the connection
/// configuration changed. A changed connection invalidates the stored
/// webhook identifier, so the caller must demote the registered flag
/// and re-register; an unchanged one leaves it in place.
pub fn apply_settings_update(
    settings: &mut AppSettings,
    server_url: String,
    access_token: String,
    update_interval: u64,
    language: String,
    autostart: bool,
) -> (changed: bool)
    ensures
        final(settings).server_url@ == spec_normalize_url(server_url@),
        final(settings).access_token@ == spec_trim(access_token@),
        final(settings).update_interval == update_interval,
        final(settings).language == language,
        final(settings).autostart == autostart,
        final(settings).device_id == old(settings).device_id,
        final(settings).enabled_sensors@ == old(settings).enabled_sensors@,
        changed == (old(settings).server_url@ != spec_normalize_url(server_url@) || old(
            settings,
        ).access_token@ != spec_trim(access_token@)),
        changed ==> final(settings).webhook_id is None,
        !changed ==> final(settings).webhook_id == old(settings).webhook_id,
{
    let new_url = normalize_server_url(server_url.as_str());
    let new_token = trim_ascii(access_token.as_str());
    let url_changed = !str_eq(settings.server_url.as_str(), new_url.as_str());
    let token_changed = !str_eq(settings.access_token.as_str(), new_token.as_str());
    let changed = url_changed || token_changed;
    settings.server_url = new_url;
    settings.access_token = new_token;
    settings.update_interval = update_interval;
    settings.language = language;
    settings.autostart = autostart;
    if changed {
        settings.webhook_id = None;
    }
    changed
}

/// Toggles one sensor: the explicit setting shadows any earlier one,
/// and the collector's map is brought in line with the settings'
/// atomically.
pub fn toggle_sensor(
    settings: &mut AppSettings,
    collector: &mut SensorCollector,
    sensor_id: String,
    enabled: bool,
)
    ensures
        forall|k: Seq<char>|
            #[trigger] spec_lookup(final(settings).enabled_sensors@, k) == if k == sensor_id@ {
                Some(enabled)
            } else {
                spec_lookup(old(settings).enabled_sensors@, k)
            },
        final(collector).enabled_sensors@ == final(settings).enabled_sensors@,
        final(settings).server_url == old(settings).server_url,
        final(settings).access_token == old(settings).access_token,
        final(settings).webhook_id == old(settings).webhook_id,
        final(settings).device_id == old(settings).device_id,
        final(settings).update_interval == old(settings).update_interval,
        final(settings).language == old(settings).language,
        final(settings).autostart == old(settings).autostart,
{
    settings.enabled_sensors.insert(sensor_id, enabled);
    collector.set_enabled_sensors(settings.enabled_sensors.duplicate());
}

} // verus!
