//! The registration and push protocol client.
//!
//! The client owns the normalized server base URL, the trimmed access
//! credential and the optional webhook identifier, and turns every
//! protocol operation into a pure plan (which URL to call, what to send)
//! plus a pure classification of the response. The caller performs the
//! network transfer between the two halves and reports connection-level
//! failures as `Unreachable` or `NetworkTimeout`.
use vstd::prelude::*;

use crate::errors::HaError;
use crate::sensors::collector::{SensorValue, SensorValueView, StateValue, StateValueView};
use crate::strutil::{spec_trim, trim_ascii, trim_end_index, trim_start_index};

verus! {

/// `s` with every trailing `/` removed.
pub open spec fn spec_strip_slashes(s: Seq<char>) -> Seq<char>
    decreases s.len(),
{
    if s.len() > 0 && s[s.len() - 1] == '/' {
        spec_strip_slashes(s.drop_last())
    } else {
        s
    }
}

/// Whether `s` ends in the path segment `/api`.
pub open spec fn spec_has_api_suffix(s: Seq<char>) -> bool {
    s.len() >= 4 && s[s.len() - 4] == '/' && s[s.len() - 3] == 'a' && s[s.len() - 2] == 'p' && s[
        s.len() - 1] == 'i'
}

/// A server base URL in canonical form: whitespace trimmed, trailing
/// path separators removed, and one trailing `/api` segment (with any
/// separator it leaves behind) removed, so `https://host/api/` and
/// `https://host` normalize identically.
pub open spec fn spec_normalize_url(s: Seq<char>) -> Seq<char> {
    let t = spec_strip_slashes(spec_trim(s));
    if spec_has_api_suffix(t) {
        spec_strip_slashes(t.take(t.len() - 4))
    } else {
        t
    }
}

/// The least `j >= lo` such that cutting the window `lo..hi` of `s` at
/// `j` removes exactly its trailing slashes.
fn strip_slash_index(s: &str, lo: usize, hi: usize) -> (j: usize)
    requires
        lo <= hi <= s@.len(),
    ensures
        lo <= j <= hi,
        spec_strip_slashes(s@.subrange(lo as int, hi as int)) == s@.subrange(lo as int, j as int),
{
    let mut j: usize = hi;
    while j > lo && s.get_char(j - 1) == '/'
        invariant
            lo <= j <= hi <= s@.len(),
            spec_strip_slashes(s@.subrange(lo as int, hi as int)) == spec_strip_slashes(
                s@.subrange(lo as int, j as int),
            ),
        decreases j,
    {
        proof {
            assert(s@.subrange(lo as int, j as int).drop_last() =~= s@.subrange(
                lo as int,
                j - 1 as int,
            ));
        }
        j = j - 1;
    }
    proof {
        let win = s@.subrange(lo as int, j as int);
        if j > lo {
            assert(win[win.len() - 1] != '/');
        }
        assert(spec_strip_slashes(win) == win);
    }
    j
}

/// Normalizes a server base URL: trims whitespace, strips trailing
/// slashes, and strips one trailing `/api` segment together with the
/// slash it leaves behind.
pub fn normalize_server_url(url: &str) -> (r: String)
    ensures
        r@ == spec_normalize_url(url@),
{
    let n = url.unicode_len();
    let i = trim_start_index(url);
    let j0 = trim_end_index(url, i, n);
    let j1 = strip_slash_index(url, i, j0);
    if j1 - i >= 4 && url.get_char(j1 - 4) == '/' && url.get_char(j1 - 3) == 'a' && url.get_char(
        j1 - 2,
    ) == 'p' && url.get_char(j1 - 1) == 'i' {
        proof {
            let t = url@.subrange(i as int, j1 as int);
            assert(spec_has_api_suffix(t));
            assert(t.take(t.len() - 4) =~= url@.subrange(i as int, j1 - 4 as int));
        }
        let j2 = strip_slash_index(url, i, j1 - 4);
        String::from_str(url.substring_char(i, j2))
    } else {
        proof {
            let t = url@.subrange(i as int, j1 as int);
            assert(!spec_has_api_suffix(t));
        }
        String::from_str(url.substring_char(i, j1))
    }
}

/// The device identity declared at registration.
#[derive(Debug)]
pub struct RegistrationRequest {
    pub device_id: String,
    pub device_name: String,
    pub manufacturer: Option<String>,
    pub model: Option<String>,
    pub os_name: Option<String>,
    pub os_version: Option<String>,
    pub app_version: Option<String>,
}

#[verifier::ext_equal]
pub struct RegistrationRequestView {
    pub device_id: Seq<char>,
    pub device_name: Seq<char>,
    pub manufacturer: Option<Seq<char>>,
    pub model: Option<Seq<char>>,
    pub os_name: Option<Seq<char>>,
    pub os_version: Option<Seq<char>>,
    pub app_version: Option<Seq<char>>,
}

impl View for RegistrationRequest {
    type V = RegistrationRequestView;

    open spec fn view(&self) -> RegistrationRequestView {
        RegistrationRequestView {
            device_id: self.device_id@,
            device_name: self.device_name@,
            manufacturer: self.manufacturer.deep_view(),
            model: self.model.deep_view(),
            os_name: self.os_name.deep_view(),
            os_version: self.os_version.deep_view(),
            app_version: self.app_version.deep_view(),
        }
    }
}

impl DeepView for RegistrationRequest {
    type V = RegistrationRequestView;

    open spec fn deep_view(&self) -> RegistrationRequestView {
        self.view()
    }
}

/// The server's registration payload: a success flag, the webhook
/// identifier on success, and a reason on logical failure.
#[derive(Debug)]
pub struct RegistrationResponse {
    pub success: bool,
    pub webhook_id: Option<String>,
    pub error: Option<String>,
}

#[verifier::ext_equal]
pub struct RegistrationResponseView {
    pub success: bool,
    pub webhook_id: Option<Seq<char>>,
    pub error: Option<Seq<char>>,
}

impl View for RegistrationResponse {
    type V = RegistrationResponseView;

    open spec fn view(&self) -> RegistrationResponseView {
        RegistrationResponseView {
            success: self.success,
            webhook_id: self.webhook_id.deep_view(),
            error: self.error.deep_view(),
        }
    }
}

impl DeepView for RegistrationResponse {
    type V = RegistrationResponseView;

    open spec fn deep_view(&self) -> RegistrationResponseView {
        self.view()
    }
}

/// One sensor's declaration payload, as the webhook's `register_sensor`
/// command carries it.
#[derive(Debug)]
pub struct SensorRegistration {
    pub sensor_unique_id: String,
    pub sensor_name: String,
    pub sensor_type: String,
    pub sensor_state: StateValue,
    pub sensor_device_class: Option<String>,
    pub sensor_unit_of_measurement: Option<String>,
    pub sensor_state_class: Option<String>,
    pub sensor_icon: Option<String>,
}

#[verifier::ext_equal]
pub struct SensorRegistrationView {
    pub sensor_unique_id: Seq<char>,
    pub sensor_name: Seq<char>,
    pub sensor_type: Seq<char>,
    pub sensor_state: StateValueView,
    pub sensor_device_class: Option<Seq<char>>,
    pub sensor_unit_of_measurement: Option<Seq<char>>,
    pub sensor_state_class: Option<Seq<char>>,
    pub sensor_icon: Option<Seq<char>>,
}

impl View for SensorRegistration {
    type V = SensorRegistrationView;

    open spec fn view(&self) -> SensorRegistrationView {
        SensorRegistrationView {
            sensor_unique_id: self.sensor_unique_id@,
            sensor_name: self.sensor_name@,
            sensor_type: self.sensor_type@,
            sensor_state: self.sensor_state@,
            sensor_device_class: self.sensor_device_class.deep_view(),
            sensor_unit_of_measurement: self.sensor_unit_of_measurement.deep_view(),
            sensor_state_class: self.sensor_state_class.deep_view(),
            sensor_icon: self.sensor_icon.deep_view(),
        }
    }
}

impl DeepView for SensorRegistration {
    type V = SensorRegistrationView;

    open spec fn deep_view(&self) -> SensorRegistrationView {
        self.view()
    }
}

/// One sensor's state entry, as the webhook's `update_sensor_states`
/// command carries it.
#[derive(Debug)]
pub struct SensorStateUpdate {
    pub sensor_unique_id: String,
    pub sensor_state: StateValue,
    pub sensor_attributes: Vec<(String, StateValue)>,
    pub sensor_icon: Option<String>,
}

#[verifier::ext_equal]
pub struct SensorStateUpdateView {
    pub sensor_unique_id: Seq<char>,
    pub sensor_state: StateValueView,
    pub sensor_attributes: Seq<(Seq<char>, StateValueView)>,
    pub sensor_icon: Option<Seq<char>>,
}

impl View for SensorStateUpdate {
    type V = SensorStateUpdateView;

    open spec fn view(&self) -> SensorStateUpdateView {
        SensorStateUpdateView {
            sensor_unique_id: self.sensor_unique_id@,
            sensor_state: self.sensor_state@,
            sensor_attributes: self.sensor_attributes.deep_view(),
            sensor_icon: self.sensor_icon.deep_view(),
        }
    }
}

impl DeepView for SensorStateUpdate {
    type V = SensorStateUpdateView;

    open spec fn deep_view(&self) -> SensorStateUpdateView {
        self.view()
    }
}

/// The declaration payload derived from a collected sensor value.
pub open spec fn spec_to_registration(s: SensorValueView) -> SensorRegistrationView {
    SensorRegistrationView {
        sensor_unique_id: s.unique_id,
        sensor_name: s.name,
        sensor_type: s.sensor_type,
        sensor_state: s.state,
        sensor_device_class: s.device_class,
        sensor_unit_of_measurement: s.unit_of_measurement,
        sensor_state_class: s.state_class,
        sensor_icon: s.icon,
    }
}

/// The state-update entry derived from a collected sensor value.
pub open spec fn spec_to_state_update(s: SensorValueView) -> SensorStateUpdateView {
    SensorStateUpdateView {
        sensor_unique_id: s.unique_id,
        sensor_state: s.state,
        sensor_attributes: s.attributes,
        sensor_icon: s.icon,
    }
}

fn clone_state_value(v: &StateValue) -> (r: StateValue)
    ensures
        r@ == v@,
{
    match v {
        StateValue::Text(s) => StateValue::Text(s.clone()),
        StateValue::Integer(n) => StateValue::Integer(*n),
        StateValue::Flag(b) => StateValue::Flag(*b),
        StateValue::TextList(items) => {
            let mut copy: Vec<String> = Vec::new();
            let n = items.len();
            let mut i: usize = 0;
            while i < n
                invariant
                    n == items.len(),
                    i <= n,
                    copy.deep_view() =~~= items.deep_view().take(i as int),
                decreases n - i,
            {
                let ghost pre = copy.deep_view();
                let element = items[i].clone();
                proof {
                    assert(element@ == items@[i as int]@);
                }
                copy.push(element);
                proof {
                    assert(copy.deep_view() =~~= pre.push(element@));
                    assert(copy.deep_view() =~~= items.deep_view().take(i + 1));
                }
                i = i + 1;
            }
            proof {
                assert(items.deep_view().take(n as int) =~~= items.deep_view());
            }
            StateValue::TextList(copy)
        },
        StateValue::Null => StateValue::Null,
    }
}

fn clone_opt_string(v: &Option<String>) -> (r: Option<String>)
    ensures
        r.deep_view() == v.deep_view(),
{
    match v {
        Some(s) => Some(s.clone()),
        None => None,
    }
}

fn clone_attributes(attrs: &Vec<(String, StateValue)>) -> (r: Vec<(String, StateValue)>)
    ensures
        r.deep_view() == attrs.deep_view(),
{
    let mut copy: Vec<(String, StateValue)> = Vec::new();
    let n = attrs.len();
    let mut i: usize = 0;
    while i < n
        invariant
            n == attrs.len(),
            i <= n,
            copy.deep_view() =~~= attrs.deep_view().take(i as int),
        decreases n - i,
    {
        let entry = &attrs[i];
        copy.push((entry.0.clone(), clone_state_value(&entry.1)));
        proof {
            assert(copy.deep_view() =~~= attrs.deep_view().take(i + 1));
        }
        i = i + 1;
    }
    proof {
        assert(attrs.deep_view().take(n as int) =~~= attrs.deep_view());
    }
    copy
}

/// Builds the declaration payload for one sensor.
pub fn to_registration(s: &SensorValue) -> (r: SensorRegistration)
    ensures
        r@ == spec_to_registration(s@),
{
    let r = SensorRegistration {
        sensor_unique_id: s.unique_id.clone(),
        sensor_name: s.name.clone(),
        sensor_type: s.sensor_type.clone(),
        sensor_state: clone_state_value(&s.state),
        sensor_device_class: clone_opt_string(&s.device_class),
        sensor_unit_of_measurement: clone_opt_string(&s.unit_of_measurement),
        sensor_state_class: clone_opt_string(&s.state_class),
        sensor_icon: clone_opt_string(&s.icon),
    };
    proof {
        assert(r@ =~~= spec_to_registration(s@));
    }
    r
}

/// Builds the state-update entry for one sensor.
pub fn to_state_update(s: &SensorValue) -> (r: SensorStateUpdate)
    ensures
        r@ == spec_to_state_update(s@),
{
    let r = SensorStateUpdate {
        sensor_unique_id: s.unique_id.clone(),
        sensor_state: clone_state_value(&s.state),
        sensor_attributes: clone_attributes(&s.attributes),
        sensor_icon: clone_opt_string(&s.icon),
    };
    proof {
        assert(r@ =~~= spec_to_state_update(s@));
    }
    r
}


/// What a batched state push requires: nothing for an empty batch, a
/// registration first when no webhook identifier is held, otherwise one
/// POST of the mapped entries to the webhook URL.
#[derive(Debug)]
pub enum UpdatePlan {
    Noop,
    NotRegistered,
    Send { url: String, updates: Vec<SensorStateUpdate> },
}

/// The registration and push protocol client: the normalized server
/// base URL, the trimmed access credential, and the webhook identifier
/// once one has been issued.
#[derive(Debug)]
pub struct HaClient {
    pub server_url: String,
    pub access_token: String,
    pub webhook_id: Option<String>,
}

/// The webhook endpoint for identifier `id` under base `base`.
pub open spec fn spec_webhook_url(base: Seq<char>, id: Seq<char>) -> Seq<char> {
    base + "/api/webhook/"@ + id
}

impl HaClient {
    /// A client over the given configuration; the URL is normalized and
    /// the credential trimmed before they are stored.
    pub fn new(server_url: String, access_token: String, webhook_id: Option<String>) -> (r:
        HaClient)
        ensures
            r.server_url@ == spec_normalize_url(server_url@),
            r.access_token@ == spec_trim(access_token@),
            r.webhook_id.deep_view() == webhook_id.deep_view(),
    {
        HaClient {
            server_url: normalize_server_url(server_url.as_str()),
            access_token: trim_ascii(access_token.as_str()),
            webhook_id,
        }
    }

    /// Replaces the URL and credential atomically, re-normalizing both;
    /// the webhook identifier is untouched.
    pub fn update_config(&mut self, server_url: String, access_token: String)
        ensures
            final(self).server_url@ == spec_normalize_url(server_url@),
            final(self).access_token@ == spec_trim(access_token@),
            final(self).webhook_id == old(self).webhook_id,
    {
        self.server_url = normalize_server_url(server_url.as_str());
        self.access_token = trim_ascii(access_token.as_str());
    }

    /// The stored base URL; already normalized, so free of trailing
    /// separators.
    pub fn base_url(&self) -> (r: &str)
        ensures
            r@ == self.server_url@,
    {
        self.server_url.as_str()
    }

    pub fn set_webhook_id(&mut self, webhook_id: String)
        ensures
            final(self).webhook_id == Some(webhook_id),
            final(self).server_url == old(self).server_url,
            final(self).access_token == old(self).access_token,
    {
        self.webhook_id = Some(webhook_id);
    }

    pub fn webhook_id(&self) -> (r: Option<&str>)
        ensures
            r.deep_view() == self.webhook_id.deep_view(),
    {
        match &self.webhook_id {
            Some(id) => Some(id.as_str()),
            None => None,
        }
    }

    /// The unauthenticated reachability endpoint.
    pub fn ping_url(&self) -> (r: String)
        ensures
            r@ == self.server_url@ + "/api/desktop_app/ping"@,
    {
        let mut r = self.server_url.clone();
        r.append("/api/desktop_app/ping");
        r
    }

    /// The authenticated registration endpoint.
    pub fn registration_url(&self) -> (r: String)
        ensures
            r@ == self.server_url@ + "/api/desktop_app/registrations"@,
    {
        let mut r = self.server_url.clone();
        r.append("/api/desktop_app/registrations");
        r
    }

    /// The webhook endpoint, once a webhook identifier is held.
    pub fn webhook_url(&self) -> (r: Option<String>)
        ensures
            match self.webhook_id {
                Some(_) => r matches Some(u) && u@ == spec_webhook_url(
                    self.server_url@,
                    self.webhook_id->0@,
                ),
                None => r is None,
            },
    {
        match &self.webhook_id {
            Some(id) => {
                let mut u = self.server_url.clone();
                u.append("/api/webhook/");
                u.append(id.as_str());
                Some(u)
            },
            None => None,
        }
    }

    /// Classifies the reachability probe's HTTP status: any 2xx is
    /// reachable, 404 means the integration is not installed, anything
    /// else is reported as unreachable with the status in the message.
    pub fn classify_reachability(status: u16) -> (r: Result<(), HaError>)
        ensures
            (r is Ok) <==> (200 <= status < 300),
            status == 404 ==> r == Err::<(), HaError>(HaError::IntegrationNotInstalled),
            !(200 <= status < 300) && status != 404 ==> r is Err && r->Err_0 is Unreachable && (
            r->Err_0->Unreachable_0)@ == "Server returned "@ + crate::numfmt::spec_u64_str(
                status as int,
            ),
    {
        if status == 404 {
            Err(HaError::IntegrationNotInstalled)
        } else if 200 <= status && status < 300 {
            Ok(())
        } else {
            let mut msg = String::from_str("Server returned ");
            let digits = crate::numfmt::u64_to_string(status as u64);
            msg.append(digits.as_str());
            Err(HaError::Unreachable(msg))
        }
    }

    /// Interprets the registration response. The webhook identifier is
    /// returned exactly when the call succeeded at the HTTP level, the
    /// payload parsed, the server reported success, and the identifier
    /// was present; each failure names its cause: 401 is `Unauthorized`,
    /// 404 `IntegrationNotInstalled`, another non-2xx status
    /// `PushFailed` with the body, an unparseable or identifier-less
    /// success payload `MalformedResponse`, and a payload whose success
    /// flag is false `RegistrationRejected` with the server's reason (or
    /// `Unknown error` when it gave none).
    pub fn interpret_registration(status: u16, body: &str, parsed: Option<RegistrationResponse>)
        -> (r: Result<String, HaError>)
        ensures
            status == 401 ==> r == Err::<String, HaError>(HaError::Unauthorized),
            status == 404 ==> r == Err::<String, HaError>(HaError::IntegrationNotInstalled),
            !(200 <= status < 300) && status != 401 && status != 404 ==> r is Err && r->Err_0
                is PushFailed && r->Err_0->PushFailed_0 == status && (r->Err_0->PushFailed_1)@
                == body@,
            200 <= status < 300 && parsed is None ==> r == Err::<String, HaError>(
                HaError::MalformedResponse,
            ),
            200 <= status < 300 && parsed is Some && !parsed->0@.success ==> r is Err && r->Err_0
                is RegistrationRejected && (r->Err_0->RegistrationRejected_0)@ == (
            match parsed->0@.error {
                Some(e) => e,
                None => "Unknown error"@,
            }),
            200 <= status < 300 && parsed is Some && parsed->0@.success
                && parsed->0@.webhook_id is None ==> r == Err::<String, HaError>(
                HaError::MalformedResponse,
            ),
            200 <= status < 300 && parsed is Some && parsed->0@.success
                && parsed->0@.webhook_id is Some ==> r is Ok && (r->Ok_0)@
                == parsed->0@.webhook_id->0,
    {
        if status == 401 {
            return Err(HaError::Unauthorized);
        }
        if status == 404 {
            return Err(HaError::IntegrationNotInstalled);
        }
        if !(200 <= status && status < 300) {
            return Err(HaError::PushFailed(status, String::from_str(body)));
        }
        match parsed {
            None => Err(HaError::MalformedResponse),
            Some(resp) => {
                if !resp.success {
                    let reason = match resp.error {
                        Some(e) => e,
                        None => String::from_str("Unknown error"),
                    };
                    return Err(HaError::RegistrationRejected(reason));
                }
                match resp.webhook_id {
                    Some(id) => Ok(id),
                    None => Err(HaError::MalformedResponse),
                }
            },
        }
    }

    /// Plans a batched state push. An empty batch needs no network call
    /// at all and succeeds immediately; a non-empty batch needs a held
    /// webhook identifier, and is sent as one request.
    pub fn update_plan(&self, sensors: &Vec<SensorValue>) -> (r: UpdatePlan)
        ensures
            sensors@.len() == 0 ==> r is Noop,
            sensors@.len() > 0 && self.webhook_id is None ==> r is NotRegistered,
            sensors@.len() > 0 && self.webhook_id is Some ==> (r matches UpdatePlan::Send {
                url,
                updates,
            } && url@ == spec_webhook_url(self.server_url@, self.webhook_id->0@)
                && updates.deep_view() == sensors.deep_view().map_values(
                |v: SensorValueView| spec_to_state_update(v),
            )),
    {
        if sensors.len() == 0 {
            return UpdatePlan::Noop;
        }
        match self.webhook_url() {
            None => UpdatePlan::NotRegistered,
            Some(url) => {
                let mut updates: Vec<SensorStateUpdate> = Vec::new();
                let n = sensors.len();
                let mut i: usize = 0;
                while i < n
                    invariant
                        n == sensors.len(),
                        i <= n,
                        updates.deep_view() =~~= sensors.deep_view().take(i as int).map_values(
                            |v: SensorValueView| spec_to_state_update(v),
                        ),
                    decreases n - i,
                {
                    let entry = to_state_update(&sensors[i]);
                    updates.push(entry);
                    proof {
                        assert(sensors.deep_view().take(i + 1) =~~= sensors.deep_view().take(
                            i as int,
                        ).push(sensors.deep_view()[i as int]));
                        assert(sensors.deep_view().take(i + 1).map_values(
                            |v: SensorValueView| spec_to_state_update(v),
                        ) =~~= sensors.deep_view().take(i as int).map_values(
                            |v: SensorValueView| spec_to_state_update(v),
                        ).push(spec_to_state_update(sensors.deep_view()[i as int])));
                        assert(updates.deep_view() =~~= sensors.deep_view().take(i + 1).map_values(
                            |v: SensorValueView| spec_to_state_update(v),
                        ));
                    }
                    i = i + 1;
                }
                proof {
                    assert(sensors.deep_view().take(n as int) =~~= sensors.deep_view());
                }
                UpdatePlan::Send { url, updates }
            },
        }
    }

    /// Plans the declaration of a batch of sensors: one payload per
    /// sensor, sent one request each to the webhook URL; declaring an
    /// already-known sensor is idempotent server-side. Fails with
    /// `NotRegistered` when no webhook identifier is held.
    pub fn declare_plan(&self, sensors: &Vec<SensorValue>) -> (r: Result<
        (String, Vec<SensorRegistration>),
        HaError,
    >)
        ensures
            self.webhook_id is None ==> r == Err::<(String, Vec<SensorRegistration>), HaError>(
                HaError::NotRegistered,
            ),
            self.webhook_id is Some ==> r is Ok && (r->Ok_0.0)@ == spec_webhook_url(
                self.server_url@,
                self.webhook_id->0@,
            ) && r->Ok_0.1.deep_view() == sensors.deep_view().map_values(
                |v: SensorValueView| spec_to_registration(v),
            ),
            r is Ok ==> r->Ok_0.1.len() == sensors.len(),
    {
        match self.webhook_url() {
            None => Err(HaError::NotRegistered),
            Some(url) => {
                let mut payloads: Vec<SensorRegistration> = Vec::new();
                let n = sensors.len();
                let mut i: usize = 0;
                while i < n
                    invariant
                        n == sensors.len(),
                        i <= n,
                        payloads.deep_view() =~~= sensors.deep_view().take(i as int).map_values(
                            |v: SensorValueView| spec_to_registration(v),
                        ),
                        payloads.len() == i,
                    decreases n - i,
                {
                    let entry = to_registration(&sensors[i]);
                    payloads.push(entry);
                    proof {
                        assert(sensors.deep_view().take(i + 1) =~~= sensors.deep_view().take(
                            i as int,
                        ).push(sensors.deep_view()[i as int]));
                        assert(sensors.deep_view().take(i + 1).map_values(
                            |v: SensorValueView| spec_to_registration(v),
                        ) =~~= sensors.deep_view().take(i as int).map_values(
                            |v: SensorValueView| spec_to_registration(v),
                        ).push(spec_to_registration(sensors.deep_view()[i as int])));
                        assert(payloads.deep_view() =~~= sensors.deep_view().take(
                            i + 1,
                        ).map_values(|v: SensorValueView| spec_to_registration(v)));
                    }
                    i = i + 1;
                }
                proof {
                    assert(sensors.deep_view().take(n as int) =~~= sensors.deep_view());
                }
                Ok((url, payloads))
            },
        }
    }

    /// Classifies one sensor declaration's HTTP status: 410 means the
    /// webhook has expired; any other non-2xx is an unclassified failure
    /// carrying status and body.
    pub fn classify_declare_status(status: u16, body: &str) -> (r: Result<(), HaError>)
        ensures
            (r is Ok) <==> (200 <= status < 300),
            status == 410 ==> r == Err::<(), HaError>(HaError::WebhookExpired),
            !(200 <= status < 300) && status != 410 ==> r is Err && r->Err_0 is PushFailed
                && r->Err_0->PushFailed_0 == status && (r->Err_0->PushFailed_1)@ == body@,
    {
        if status == 410 {
            Err(HaError::WebhookExpired)
        } else if 200 <= status && status < 300 {
            Ok(())
        } else {
            Err(HaError::PushFailed(status, String::from_str(body)))
        }
    }

    /// Classifies a state push's HTTP status: 410 means the webhook has
    /// expired, 404 that the server no longer hosts it; any other
    /// non-2xx is an unclassified failure carrying status and body.
    pub fn classify_push_status(status: u16, body: &str) -> (r: Result<(), HaError>)
        ensures
            (r is Ok) <==> (200 <= status < 300),
            status == 410 ==> r == Err::<(), HaError>(HaError::WebhookExpired),
            status == 404 ==> r == Err::<(), HaError>(HaError::IntegrationRemoved),
            !(200 <= status < 300) && status != 410 && status != 404 ==> r is Err && r->Err_0
                is PushFailed && r->Err_0->PushFailed_0 == status && (r->Err_0->PushFailed_1)@
                == body@,
    {
        if status == 410 {
            Err(HaError::WebhookExpired)
        } else if status == 404 {
            Err(HaError::IntegrationRemoved)
        } else if 200 <= status && status < 300 {
            Ok(())
        } else {
            Err(HaError::PushFailed(status, String::from_str(body)))
        }
    }

    /// Where the webhook liveness probe (an empty state batch) goes;
    /// `None` when no webhook identifier is held, in which case the
    /// webhook counts as invalid without a network call.
    pub fn check_webhook_plan(&self) -> (r: Option<String>)
        ensures
            match self.webhook_id {
                Some(_) => r matches Some(u) && u@ == spec_webhook_url(
                    self.server_url@,
                    self.webhook_id->0@,
                ),
                None => r is None,
            },
    {
        self.webhook_url()
    }

    /// Whether the liveness probe's outcome shows a valid webhook: only
    /// a received 2xx does; an unsent probe or a connection failure
    /// (`None`) counts as invalid rather than an error.
    pub fn interpret_webhook_check(outcome: Option<u16>) -> (r: bool)
        ensures
            r == (outcome matches Some(status) && 200 <= status < 300),
    {
        match outcome {
            Some(status) => 200 <= status && status < 300,
            None => false,
        }
    }
}

} // verus!
