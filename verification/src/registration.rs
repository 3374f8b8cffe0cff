//! The first-time pairing workflow, as an explicit state machine.
//!
//! The ordering the protocol demands is encoded as explicit transitions:
//! configuration must validate before the reachability probe, the probe
//! must succeed before identity registration, the webhook identifier is
//! saved (and the hub given time to settle) before sensors are declared,
//! and the declared snapshot is pushed once before the workflow is live.
//! The caller performs each issued action (a network call, a save, the
//! settling delay) and feeds the outcome back in.
use vstd::prelude::*;

use crate::errors::HaError;
use crate::ha_client::RegistrationRequest;
use crate::sensors::system_info::SystemInfoData;
use crate::settings::AppSettings;

verus! {

/// Where the pairing workflow stands.
#[derive(Clone, Copy, Debug, PartialEq, Eq, Structural)]
pub enum WorkflowState {
    Unconfigured,
    Validated,
    Reachable,
    Registered,
    SensorsDeclared,
    Live,
    Failed,
}

/// What the caller must do next. `SaveWebhookAndSettle` asks it to
/// persist the freshly issued webhook identifier at once, then wait out
/// the hub's asynchronous platform setup before declaring sensors —
/// declarations sent too early are silently dropped.
#[derive(Clone, Copy, Debug, PartialEq, Eq, Structural)]
pub enum WorkflowAction {
    Probe,
    Register,
    SaveWebhookAndSettle,
    DeclareSensors,
    PushInitial,
    Done,
}

/// The pairing workflow's live state: its position and the webhook
/// identifier once the hub has issued one.
#[derive(Debug)]
pub struct RegistrationWorkflow {
    pub state: WorkflowState,
    pub webhook_id: Option<String>,
}

impl RegistrationWorkflow {
    /// Validates the configuration. With a non-empty server URL and
    /// credential the workflow starts and asks for the reachability
    /// probe; otherwise it rejects with `ConfigIncomplete` before any
    /// network action is issued.
    pub fn start(server_url: &str, access_token: &str) -> (r: (
        RegistrationWorkflow,
        Result<WorkflowAction, HaError>,
    ))
        ensures
            r.0.webhook_id is None,
            (server_url@.len() == 0 || access_token@.len() == 0) ==> r.0.state
                == WorkflowState::Unconfigured && r.1 == Err::<WorkflowAction, HaError>(
                HaError::ConfigIncomplete,
            ),
            (server_url@.len() > 0 && access_token@.len() > 0) ==> r.0.state
                == WorkflowState::Validated && r.1 == Ok::<WorkflowAction, HaError>(
                WorkflowAction::Probe,
            ),
    {
        if server_url.unicode_len() == 0 || access_token.unicode_len() == 0 {
            (
                RegistrationWorkflow { state: WorkflowState::Unconfigured, webhook_id: None },
                Err(HaError::ConfigIncomplete),
            )
        } else {
            (
                RegistrationWorkflow { state: WorkflowState::Validated, webhook_id: None },
                Ok(WorkflowAction::Probe),
            )
        }
    }

    /// Consumes the reachability probe's outcome: success advances to
    /// `Reachable` and asks for identity registration; failure is
    /// terminal and surfaces the probe's own diagnostic.
    pub fn on_probe(self, outcome: Result<(), HaError>) -> (r: (
        RegistrationWorkflow,
        Result<WorkflowAction, HaError>,
    ))
        requires
            self.state == WorkflowState::Validated,
        ensures
            r.0.webhook_id == self.webhook_id,
            outcome is Ok ==> r.0.state == WorkflowState::Reachable && r.1 == Ok::<
                WorkflowAction,
                HaError,
            >(WorkflowAction::Register),
            outcome is Err ==> r.0.state == WorkflowState::Failed && r.1 is Err && r.1->Err_0
                == outcome->Err_0,
    {
        match outcome {
            Ok(()) => (
                RegistrationWorkflow { state: WorkflowState::Reachable, ..self },
                Ok(WorkflowAction::Register),
            ),
            Err(e) => (RegistrationWorkflow { state: WorkflowState::Failed, ..self }, Err(e)),
        }
    }

    /// Consumes the registration call's outcome: on success the issued
    /// webhook identifier is held and must be persisted immediately —
    /// before anything else runs — so a later failure does not force
    /// redundant re-registration; failure is terminal.
    pub fn on_register(self, outcome: Result<String, HaError>) -> (r: (
        RegistrationWorkflow,
        Result<WorkflowAction, HaError>,
    ))
        requires
            self.state == WorkflowState::Reachable,
        ensures
            outcome is Ok ==> r.0.state == WorkflowState::Registered && r.0.webhook_id
                == Some(outcome->Ok_0) && r.1 == Ok::<WorkflowAction, HaError>(
                WorkflowAction::SaveWebhookAndSettle,
            ),
            outcome is Err ==> r.0.state == WorkflowState::Failed && r.0.webhook_id
                == self.webhook_id && r.1 is Err && r.1->Err_0 == outcome->Err_0,
    {
        match outcome {
            Ok(id) => (
                RegistrationWorkflow { state: WorkflowState::Registered, webhook_id: Some(id) },
                Ok(WorkflowAction::SaveWebhookAndSettle),
            ),
            Err(e) => (RegistrationWorkflow { state: WorkflowState::Failed, ..self }, Err(e)),
        }
    }

    /// Called once the webhook identifier is persisted and the settling
    /// delay has passed: asks for the full sensor set to be declared.
    pub fn on_settled(self) -> (r: (RegistrationWorkflow, Result<WorkflowAction, HaError>))
        requires
            self.state == WorkflowState::Registered,
        ensures
            r.0.state == self.state,
            r.0.webhook_id == self.webhook_id,
            r.1 == Ok::<WorkflowAction, HaError>(WorkflowAction::DeclareSensors),
    {
        (self, Ok(WorkflowAction::DeclareSensors))
    }

    /// Consumes the sensor declaration's outcome: success advances to
    /// `SensorsDeclared` and asks for the initial snapshot push;
    /// failure is terminal (the saved webhook identifier survives).
    pub fn on_declared(self, outcome: Result<(), HaError>) -> (r: (
        RegistrationWorkflow,
        Result<WorkflowAction, HaError>,
    ))
        requires
            self.state == WorkflowState::Registered,
        ensures
            r.0.webhook_id == self.webhook_id,
            outcome is Ok ==> r.0.state == WorkflowState::SensorsDeclared && r.1 == Ok::<
                WorkflowAction,
                HaError,
            >(WorkflowAction::PushInitial),
            outcome is Err ==> r.0.state == WorkflowState::Failed && r.1 is Err && r.1->Err_0
                == outcome->Err_0,
    {
        match outcome {
            Ok(()) => (
                RegistrationWorkflow { state: WorkflowState::SensorsDeclared, ..self },
                Ok(WorkflowAction::PushInitial),
            ),
            Err(e) => (RegistrationWorkflow { state: WorkflowState::Failed, ..self }, Err(e)),
        }
    }

    /// Consumes the initial state push's outcome: success ends the
    /// workflow `Live`; failure is terminal.
    pub fn on_initial_push(self, outcome: Result<(), HaError>) -> (r: (
        RegistrationWorkflow,
        Result<WorkflowAction, HaError>,
    ))
        requires
            self.state == WorkflowState::SensorsDeclared,
        ensures
            r.0.webhook_id == self.webhook_id,
            outcome is Ok ==> r.0.state == WorkflowState::Live && r.1 == Ok::<
                WorkflowAction,
                HaError,
            >(WorkflowAction::Done),
            outcome is Err ==> r.0.state == WorkflowState::Failed && r.1 is Err && r.1->Err_0
                == outcome->Err_0,
    {
        match outcome {
            Ok(()) => (
                RegistrationWorkflow { state: WorkflowState::Live, ..self },
                Ok(WorkflowAction::Done),
            ),
            Err(e) => (RegistrationWorkflow { state: WorkflowState::Failed, ..self }, Err(e)),
        }
    }
}

/// A workflow that starts on valid configuration and sees every step
/// succeed ends `Live`, holding exactly the webhook identifier the hub
/// issued — and each step in between stands where the guards demand.
pub proof fn lemma_successful_run_reaches_live(
    server_url: &str,
    access_token: &str,
    w0: RegistrationWorkflow,
    a0: Result<WorkflowAction, HaError>,
    w1: RegistrationWorkflow,
    w2: RegistrationWorkflow,
    w3: RegistrationWorkflow,
    w4: RegistrationWorkflow,
    webhook: Seq<char>,
)
    requires
        server_url@.len() > 0,
        access_token@.len() > 0,
// the five steps, each on a success outcome:

        w0.state == WorkflowState::Validated && w0.webhook_id is None,
        w1.state == WorkflowState::Reachable && w1.webhook_id == w0.webhook_id,
        w2.state == WorkflowState::Registered && (w2.webhook_id matches Some(id) && id@ == webhook),
        w3.state == WorkflowState::SensorsDeclared && w3.webhook_id == w2.webhook_id,
        w4.state == WorkflowState::Live && w4.webhook_id == w3.webhook_id,
    ensures
        w4.state == WorkflowState::Live,
        w4.webhook_id matches Some(id) && id@ == webhook,
{
}

/// The identity declared at registration, drawn from the stored device
/// identifier and the host's identity facts.
pub fn build_registration_request(
    settings: &AppSettings,
    sys_info: &SystemInfoData,
    app_version: &str,
) -> (r: RegistrationRequest)
    ensures
        r@.device_id == settings.device_id@,
        r@.device_name == sys_info@.hostname,
        r@.manufacturer == sys_info@.motherboard_manufacturer,
        r@.model == sys_info@.motherboard_model,
        r@.os_name == Some(sys_info@.os_name),
        r@.os_version == Some(sys_info@.os_version),
        r@.app_version matches Some(v) && v == app_version@,
{
    RegistrationRequest {
        device_id: settings.device_id.clone(),
        device_name: sys_info.hostname.clone(),
        manufacturer: match &sys_info.motherboard_manufacturer {
            Some(s) => Some(s.clone()),
            None => None,
        },
        model: match &sys_info.motherboard_model {
            Some(s) => Some(s.clone()),
            None => None,
        },
        os_name: Some(sys_info.os_name.clone()),
        os_version: Some(sys_info.os_version.clone()),
        app_version: Some(String::from_str(app_version)),
    }
}

/// Prepares a re-registration after the server URL or credential
/// changed: the stored webhook identifier is cleared and the client
/// reconfigured from the settings before the workflow is run anew.
pub fn prepare_re_register(settings: &mut AppSettings, client: &mut crate::ha_client::HaClient)
    ensures
        final(settings).webhook_id is None,
        final(settings).server_url == old(settings).server_url,
        final(settings).access_token == old(settings).access_token,
        final(settings).device_id == old(settings).device_id,
        final(settings).update_interval == old(settings).update_interval,
        final(settings).language == old(settings).language,
        final(settings).enabled_sensors@ == old(settings).enabled_sensors@,
        final(settings).autostart == old(settings).autostart,
        final(client).server_url@ == crate::ha_client::spec_normalize_url(
            old(settings).server_url@,
        ),
        final(client).access_token@ == crate::strutil::spec_trim(old(settings).access_token@),
        final(client).webhook_id == old(client).webhook_id,
{
    settings.webhook_id = None;
    client.update_config(settings.server_url.clone(), settings.access_token.clone());
}

} // verus!
