//! The persisted application settings and their defaults.
use vstd::prelude::*;

use crate::sensors::collector::EnabledSensors;

verus! {

/// Everything the companion persists: connection configuration, the
/// device identity, the webhook identifier once registered, the polling
/// cadence, and per-sensor enablement.
#[derive(Debug)]
pub struct AppSettings {
    pub server_url: String,
    pub access_token: String,
    pub webhook_id: Option<String>,
    pub device_id: String,
    pub update_interval: u64,
    pub language: String,
    pub enabled_sensors: EnabledSensors,
    pub autostart: bool,
}

/// Relies on `uuid::Uuid::new_v4` and its `Display`: a fresh random
/// identifier in the hyphenated form, which is always 36 characters.
/// Nothing is assumed about which identifier comes back.
#[verifier::external_body]
fn fresh_device_id() -> (r: String)
    ensures
        r@.len() == 36,
{
    uuid::Uuid::new_v4().to_string()
}

impl Default for AppSettings {
    /// First-run settings: no connection configuration, a freshly
    /// generated stable device identifier, a sixty-second poll cadence,
    /// English, every sensor at its documented default, no autostart.
    fn default() -> (r: AppSettings)
        ensures
            r.server_url@.len() == 0,
            r.access_token@.len() == 0,
            r.webhook_id is None,
            r.device_id@.len() == 36,
            r.update_interval == 60,
            r.language@ == "en"@,
            r.enabled_sensors@ == Seq::<(Seq<char>, bool)>::empty(),
            r.autostart == false,
    {
        AppSettings {
            server_url: String::new(),
            access_token: String::new(),
            webhook_id: None,
            device_id: fresh_device_id(),
            update_interval: 60,
            language: String::from_str("en"),
            enabled_sensors: EnabledSensors::new(),
            autostart: false,
        }
    }
}

impl AppSettings {
    /// Rebuilds settings from whatever a persisted store held: each
    /// absent value falls back to its first-run default, and an absent
    /// device identifier is generated afresh (and should be persisted
    /// by the caller).
    pub fn from_loaded(
        server_url: Option<String>,
        access_token: Option<String>,
        webhook_id: Option<String>,
        device_id: Option<String>,
        update_interval: Option<u64>,
        language: Option<String>,
        enabled_sensors: Option<EnabledSensors>,
        autostart: Option<bool>,
    ) -> (r: AppSettings)
        ensures
            r.server_url@ == (match server_url {
                Some(s) => s@,
                None => Seq::<char>::empty(),
            }),
            r.access_token@ == (match access_token {
                Some(s) => s@,
                None => Seq::<char>::empty(),
            }),
            r.webhook_id == webhook_id,
            device_id matches Some(d) ==> r.device_id == d,
            device_id is None ==> r.device_id@.len() == 36,
            r.update_interval == (match update_interval {
                Some(v) => v,
                None => 60u64,
            }),
            r.language@ == (match language {
                Some(s) => s@,
                None => "en"@,
            }),
            r.enabled_sensors@ == (match enabled_sensors {
                Some(m) => m@,
                None => Seq::<(Seq<char>, bool)>::empty(),
            }),
            r.autostart == (match autostart {
                Some(b) => b,
                None => false,
            }),
    {
        AppSettings {
            server_url: match server_url {
                Some(s) => s,
                None => String::new(),
            },
            access_token: match access_token {
                Some(s) => s,
                None => String::new(),
            },
            webhook_id,
            device_id: match device_id {
                Some(d) => d,
                None => fresh_device_id(),
            },
            update_interval: match update_interval {
                Some(v) => v,
                None => 60,
            },
            language: match language {
                Some(s) => s,
                None => String::from_str("en"),
            },
            enabled_sensors: match enabled_sensors {
                Some(m) => m,
                None => EnabledSensors::new(),
            },
            autostart: match autostart {
                Some(b) => b,
                None => false,
            },
        }
    }
}

} // verus!
