//! The sensor catalog, per-sensor enablement, and the collector that
//! turns metric readings into wire-ready sensor values.
use vstd::prelude::*;

use crate::numfmt::{spec_hundredths_str, spec_tenths_str, spec_u64_str, spec_zero_padded};
use crate::sensors::battery::{BatteryData, BatteryInfoView};
use crate::sensors::cpu::CpuData;
use crate::sensors::disk::{DiskData, PartitionDataView};
use crate::sensors::gpu::{GpuData, GpuInfoView};
use crate::sensors::memory::MemoryData;
use crate::sensors::network::{NetworkData, NetworkInterface, NetworkInterfaceView};
use crate::sensors::system_info::{
    DisplayInfoView, DynamicSystemInfo, SystemInfoData, SystemInfoDataView,
};
use crate::strutil::str_eq;

verus! {

/// A sensor state or attribute value at the wire boundary: the closed set
/// of shapes the hub's webhook accepts.
#[derive(Debug)]
pub enum StateValue {
    Text(String),
    Integer(u64),
    Flag(bool),
    TextList(Vec<String>),
    Null,
}

/// The mathematical model of a `StateValue`.
#[verifier::ext_equal]
pub enum StateValueView {
    Text(Seq<char>),
    Integer(u64),
    Flag(bool),
    TextList(Seq<Seq<char>>),
    Null,
}

impl View for StateValue {
    type V = StateValueView;

    open spec fn view(&self) -> StateValueView {
        match self {
            StateValue::Text(s) => StateValueView::Text(s@),
            StateValue::Integer(n) => StateValueView::Integer(*n),
            StateValue::Flag(b) => StateValueView::Flag(*b),
            StateValue::TextList(v) => StateValueView::TextList(v.deep_view()),
            StateValue::Null => StateValueView::Null,
        }
    }
}

impl DeepView for StateValue {
    type V = StateValueView;

    open spec fn deep_view(&self) -> StateValueView {
        self.view()
    }
}

/// One sensor value bound for the hub: identifier, display name, state,
/// declaration metadata and free-form attributes.
#[derive(Debug)]
pub struct SensorValue {
    pub unique_id: String,
    pub name: String,
    pub state: StateValue,
    pub sensor_type: String,
    pub device_class: Option<String>,
    pub unit_of_measurement: Option<String>,
    pub state_class: Option<String>,
    pub icon: Option<String>,
    pub attributes: Vec<(String, StateValue)>,
    pub update_at_interval: bool,
}

/// The mathematical model of a `SensorValue`.
#[verifier::ext_equal]
pub struct SensorValueView {
    pub unique_id: Seq<char>,
    pub name: Seq<char>,
    pub state: StateValueView,
    pub sensor_type: Seq<char>,
    pub device_class: Option<Seq<char>>,
    pub unit_of_measurement: Option<Seq<char>>,
    pub state_class: Option<Seq<char>>,
    pub icon: Option<Seq<char>>,
    pub attributes: Seq<(Seq<char>, StateValueView)>,
    pub update_at_interval: bool,
}

impl View for SensorValue {
    type V = SensorValueView;

    open spec fn view(&self) -> SensorValueView {
        SensorValueView {
            unique_id: self.unique_id@,
            name: self.name@,
            state: self.state@,
            sensor_type: self.sensor_type@,
            device_class: self.device_class.deep_view(),
            unit_of_measurement: self.unit_of_measurement.deep_view(),
            state_class: self.state_class.deep_view(),
            icon: self.icon.deep_view(),
            attributes: self.attributes.deep_view(),
            update_at_interval: self.update_at_interval,
        }
    }
}

impl DeepView for SensorValue {
    type V = SensorValueView;

    open spec fn deep_view(&self) -> SensorValueView {
        self.view()
    }
}

/// One catalog row reported to the configuration surface: identifier,
/// display name, current enablement, and whether the sensor re-samples
/// every polling interval.
#[derive(Debug)]
pub struct SensorListItem {
    pub id: String,
    pub name: String,
    pub enabled: bool,
    pub updates_at_interval: bool,
}

#[verifier::ext_equal]
pub struct SensorListItemView {
    pub id: Seq<char>,
    pub name: Seq<char>,
    pub enabled: bool,
    pub updates_at_interval: bool,
}

impl View for SensorListItem {
    type V = SensorListItemView;

    open spec fn view(&self) -> SensorListItemView {
        SensorListItemView {
            id: self.id@,
            name: self.name@,
            enabled: self.enabled,
            updates_at_interval: self.updates_at_interval,
        }
    }
}

impl DeepView for SensorListItem {
    type V = SensorListItemView;

    open spec fn deep_view(&self) -> SensorListItemView {
        self.view()
    }
}

/// The per-sensor enablement map: sensor identifier to on/off. Entries
/// are consulted newest-first, so inserting shadows any older entry for
/// the same identifier; identifiers not present fall back to the
/// catalog's documented default.
#[derive(Debug)]
pub struct EnabledSensors {
    pub entries: Vec<(String, bool)>,
}

/// The first entry for `id`, if any.
pub open spec fn spec_lookup(entries: Seq<(Seq<char>, bool)>, id: Seq<char>) -> Option<bool>
    decreases entries.len(),
{
    if entries.len() == 0 {
        None
    } else if entries[0].0 == id {
        Some(entries[0].1)
    } else {
        spec_lookup(entries.drop_first(), id)
    }
}

impl View for EnabledSensors {
    type V = Seq<(Seq<char>, bool)>;

    open spec fn view(&self) -> Seq<(Seq<char>, bool)> {
        self.entries.deep_view()
    }
}

impl DeepView for EnabledSensors {
    type V = Seq<(Seq<char>, bool)>;

    open spec fn deep_view(&self) -> Seq<(Seq<char>, bool)> {
        self.view()
    }
}

impl EnabledSensors {
    /// An empty map: every sensor at its documented default.
    pub fn new() -> (r: EnabledSensors)
        ensures
            r@ =~= Seq::<(Seq<char>, bool)>::empty(),
    {
        EnabledSensors { entries: Vec::new() }
    }

    /// Sets `id` to `enabled`, shadowing any earlier setting.
    pub fn insert(&mut self, id: String, enabled: bool)
        ensures
            forall|k: Seq<char>|
                #[trigger] spec_lookup(final(self)@, k) == if k == id@ {
                    Some(enabled)
                } else {
                    spec_lookup(old(self)@, k)
                },
    {
        let ghost old_view = self@;
        self.entries.insert(0, (id, enabled));
        proof {
            assert(self@ =~= seq![(id@, enabled)] + old_view);
            assert forall|k: Seq<char>|
                #[trigger] spec_lookup(self@, k) == if k == id@ {
                    Some(enabled)
                } else {
                    spec_lookup(old_view, k)
                } by {
                assert(self@.drop_first() =~= old_view);
            }
        }
    }

    /// The explicit setting for `id`, if one exists.
    pub fn get(&self, id: &str) -> (r: Option<bool>)
        ensures
            r == spec_lookup(self@, id@),
    {
        let n = self.entries.len();
        let mut i: usize = 0;
        proof {
            assert(self@.skip(0) =~= self@);
        }
        while i < n
            invariant
                n == self.entries.len(),
                i <= n,
                self@.len() == n,
                spec_lookup(self@, id@) == spec_lookup(self@.skip(i as int), id@),
            decreases n - i,
        {
            let entry = &self.entries[i];
            if crate::strutil::str_eq(entry.0.as_str(), id) {
                proof {
                    assert(self@.skip(i as int)[0] == (entry.0@, entry.1));
                }
                return Some(entry.1);
            }
            proof {
                assert(self@.skip(i as int)[0] == (entry.0@, entry.1));
                assert(self@.skip(i as int).drop_first() =~= self@.skip(i + 1));
            }
            i = i + 1;
        }
        proof {
            assert(self@.skip(n as int) =~= Seq::<(Seq<char>, bool)>::empty());
        }
        None
    }

    /// A copy of the map with the same entries.
    pub fn duplicate(&self) -> (r: EnabledSensors)
        ensures
            r@ == self@,
    {
        let n = self.entries.len();
        let mut entries: Vec<(String, bool)> = Vec::new();
        let mut i: usize = 0;
        while i < n
            invariant
                n == self.entries.len(),
                i <= n,
                entries.deep_view() =~~= self@.take(i as int),
            decreases n - i,
        {
            let entry = &self.entries[i];
            entries.push((entry.0.clone(), entry.1));
            proof {
                assert(entries.deep_view() =~~= self@.take(i + 1));
            }
            i = i + 1;
        }
        proof {
            assert(self@.take(n as int) =~~= self@);
        }
        EnabledSensors { entries }
    }
}

/// The fixed sensor catalog: identifier, display name, and whether the
/// sensor re-samples every polling interval (`true`) or is collected once
/// as a static identity fact (`false`).
pub open spec fn spec_catalog() -> Seq<(Seq<char>, Seq<char>, bool)> {
    seq![
        ("cpu_usage"@, "CPU Usage"@, true),
        ("cpu_frequency"@, "CPU Frequency"@, true),
        ("cpu_temperature"@, "CPU Temperature"@, true),
        ("cpu_model"@, "CPU Model"@, false),
        ("memory_usage"@, "Memory Usage"@, true),
        ("memory_used"@, "Memory Used"@, true),
        ("memory_total"@, "Memory Total"@, false),
        ("swap_usage"@, "Swap Usage"@, true),
        ("disk_usage"@, "Disk Usage"@, true),
        ("gpu"@, "GPU Sensors"@, true),
        ("network"@, "Network Sensors"@, true),
        ("battery"@, "Battery Sensors"@, true),
        ("os_version"@, "OS Version"@, false),
        ("hostname"@, "Hostname"@, false),
        ("motherboard"@, "Motherboard"@, false),
        ("bios_version"@, "BIOS Version"@, false),
        ("bios_vendor"@, "BIOS Vendor"@, false),
        ("bios_date"@, "BIOS Date"@, false),
        ("system_uptime"@, "System Uptime"@, true),
        ("process_count"@, "Process Count"@, true),
        ("last_boot"@, "Last Boot Time"@, false),
        ("logged_in_user"@, "Logged In User"@, false),
        ("display"@, "Display Resolution"@, false),
    ]
}

/// The documented default enablement for a sensor identifier that has no
/// explicit entry: static identity facts are off, interval-updating
/// metrics are on.
pub open spec fn spec_default_enabled(id: Seq<char>) -> bool {
    !(id == "cpu_model"@ || id == "memory_total"@ || id == "os_version"@ || id == "hostname"@
        || id == "motherboard"@ || id == "bios_version"@ || id == "bios_vendor"@ || id
        == "bios_date"@ || id == "last_boot"@ || id == "logged_in_user"@ || id == "display"@)
}

/// Whether a sensor is emitted: its explicit setting if present, its
/// documented default otherwise.
pub open spec fn spec_is_enabled(m: Seq<(Seq<char>, bool)>, id: Seq<char>) -> bool {
    match spec_lookup(m, id) {
        Some(b) => b,
        None => spec_default_enabled(id),
    }
}

/// Default enablement matches the catalog: every catalog row's interval
/// flag is exactly its default enablement.
pub proof fn lemma_defaults_match_catalog()
    ensures
        forall|k: int|
            0 <= k < spec_catalog().len() ==> #[trigger] spec_default_enabled(
                spec_catalog()[k].0,
            ) == spec_catalog()[k].2,
{
    reveal_strlit("cpu_usage");
    reveal_strlit("cpu_frequency");
    reveal_strlit("cpu_temperature");
    reveal_strlit("cpu_model");
    reveal_strlit("memory_usage");
    reveal_strlit("memory_used");
    reveal_strlit("memory_total");
    reveal_strlit("swap_usage");
    reveal_strlit("disk_usage");
    reveal_strlit("gpu");
    reveal_strlit("network");
    reveal_strlit("battery");
    reveal_strlit("os_version");
    reveal_strlit("hostname");
    reveal_strlit("motherboard");
    reveal_strlit("bios_version");
    reveal_strlit("bios_vendor");
    reveal_strlit("bios_date");
    reveal_strlit("system_uptime");
    reveal_strlit("process_count");
    reveal_strlit("last_boot");
    reveal_strlit("logged_in_user");
    reveal_strlit("display");
    assert forall|k: int|
        0 <= k < spec_catalog().len() implies #[trigger] spec_default_enabled(
        spec_catalog()[k].0,
    ) == spec_catalog()[k].2 by {
        // Spell each identifier out character by character: the solver can
        // then tell any two of the literals apart.
        assert("cpu_usage"@[0] == 'c' && "cpu_usage"@[1] == 'p' && "cpu_usage"@[2] == 'u' && "cpu_usage"@[3] == '_' && "cpu_usage"@[4] == 'u' && "cpu_usage"@[5] == 's' && "cpu_usage"@[6] == 'a' && "cpu_usage"@[7] == 'g' && "cpu_usage"@[8] == 'e');
        assert("cpu_frequency"@[0] == 'c' && "cpu_frequency"@[1] == 'p' && "cpu_frequency"@[2] == 'u' && "cpu_frequency"@[3] == '_' && "cpu_frequency"@[4] == 'f' && "cpu_frequency"@[5] == 'r' && "cpu_frequency"@[6] == 'e' && "cpu_frequency"@[7] == 'q' && "cpu_frequency"@[8] == 'u' && "cpu_frequency"@[9] == 'e' && "cpu_frequency"@[10] == 'n' && "cpu_frequency"@[11] == 'c' && "cpu_frequency"@[12] == 'y');
        assert("cpu_temperature"@[0] == 'c' && "cpu_temperature"@[1] == 'p' && "cpu_temperature"@[2] == 'u' && "cpu_temperature"@[3] == '_' && "cpu_temperature"@[4] == 't' && "cpu_temperature"@[5] == 'e' && "cpu_temperature"@[6] == 'm' && "cpu_temperature"@[7] == 'p' && "cpu_temperature"@[8] == 'e' && "cpu_temperature"@[9] == 'r' && "cpu_temperature"@[10] == 'a' && "cpu_temperature"@[11] == 't' && "cpu_temperature"@[12] == 'u' && "cpu_temperature"@[13] == 'r' && "cpu_temperature"@[14] == 'e');
        assert("cpu_model"@[0] == 'c' && "cpu_model"@[1] == 'p' && "cpu_model"@[2] == 'u' && "cpu_model"@[3] == '_' && "cpu_model"@[4] == 'm' && "cpu_model"@[5] == 'o' && "cpu_model"@[6] == 'd' && "cpu_model"@[7] == 'e' && "cpu_model"@[8] == 'l');
        assert("memory_usage"@[0] == 'm' && "memory_usage"@[1] == 'e' && "memory_usage"@[2] == 'm' && "memory_usage"@[3] == 'o' && "memory_usage"@[4] == 'r' && "memory_usage"@[5] == 'y' && "memory_usage"@[6] == '_' && "memory_usage"@[7] == 'u' && "memory_usage"@[8] == 's' && "memory_usage"@[9] == 'a' && "memory_usage"@[10] == 'g' && "memory_usage"@[11] == 'e');
        assert("memory_used"@[0] == 'm' && "memory_used"@[1] == 'e' && "memory_used"@[2] == 'm' && "memory_used"@[3] == 'o' && "memory_used"@[4] == 'r' && "memory_used"@[5] == 'y' && "memory_used"@[6] == '_' && "memory_used"@[7] == 'u' && "memory_used"@[8] == 's' && "memory_used"@[9] == 'e' && "memory_used"@[10] == 'd');
        assert("memory_total"@[0] == 'm' && "memory_total"@[1] == 'e' && "memory_total"@[2] == 'm' && "memory_total"@[3] == 'o' && "memory_total"@[4] == 'r' && "memory_total"@[5] == 'y' && "memory_total"@[6] == '_' && "memory_total"@[7] == 't' && "memory_total"@[8] == 'o' && "memory_total"@[9] == 't' && "memory_total"@[10] == 'a' && "memory_total"@[11] == 'l');
        assert("swap_usage"@[0] == 's' && "swap_usage"@[1] == 'w' && "swap_usage"@[2] == 'a' && "swap_usage"@[3] == 'p' && "swap_usage"@[4] == '_' && "swap_usage"@[5] == 'u' && "swap_usage"@[6] == 's' && "swap_usage"@[7] == 'a' && "swap_usage"@[8] == 'g' && "swap_usage"@[9] == 'e');
        assert("disk_usage"@[0] == 'd' && "disk_usage"@[1] == 'i' && "disk_usage"@[2] == 's' && "disk_usage"@[3] == 'k' && "disk_usage"@[4] == '_' && "disk_usage"@[5] == 'u' && "disk_usage"@[6] == 's' && "disk_usage"@[7] == 'a' && "disk_usage"@[8] == 'g' && "disk_usage"@[9] == 'e');
        assert("gpu"@[0] == 'g' && "gpu"@[1] == 'p' && "gpu"@[2] == 'u');
        assert("network"@[0] == 'n' && "network"@[1] == 'e' && "network"@[2] == 't' && "network"@[3] == 'w' && "network"@[4] == 'o' && "network"@[5] == 'r' && "network"@[6] == 'k');
        assert("battery"@[0] == 'b' && "battery"@[1] == 'a' && "battery"@[2] == 't' && "battery"@[3] == 't' && "battery"@[4] == 'e' && "battery"@[5] == 'r' && "battery"@[6] == 'y');
        assert("os_version"@[0] == 'o' && "os_version"@[1] == 's' && "os_version"@[2] == '_' && "os_version"@[3] == 'v' && "os_version"@[4] == 'e' && "os_version"@[5] == 'r' && "os_version"@[6] == 's' && "os_version"@[7] == 'i' && "os_version"@[8] == 'o' && "os_version"@[9] == 'n');
        assert("hostname"@[0] == 'h' && "hostname"@[1] == 'o' && "hostname"@[2] == 's' && "hostname"@[3] == 't' && "hostname"@[4] == 'n' && "hostname"@[5] == 'a' && "hostname"@[6] == 'm' && "hostname"@[7] == 'e');
        assert("motherboard"@[0] == 'm' && "motherboard"@[1] == 'o' && "motherboard"@[2] == 't' && "motherboard"@[3] == 'h' && "motherboard"@[4] == 'e' && "motherboard"@[5] == 'r' && "motherboard"@[6] == 'b' && "motherboard"@[7] == 'o' && "motherboard"@[8] == 'a' && "motherboard"@[9] == 'r' && "motherboard"@[10] == 'd');
        assert("bios_version"@[0] == 'b' && "bios_version"@[1] == 'i' && "bios_version"@[2] == 'o' && "bios_version"@[3] == 's' && "bios_version"@[4] == '_' && "bios_version"@[5] == 'v' && "bios_version"@[6] == 'e' && "bios_version"@[7] == 'r' && "bios_version"@[8] == 's' && "bios_version"@[9] == 'i' && "bios_version"@[10] == 'o' && "bios_version"@[11] == 'n');
        assert("bios_vendor"@[0] == 'b' && "bios_vendor"@[1] == 'i' && "bios_vendor"@[2] == 'o' && "bios_vendor"@[3] == 's' && "bios_vendor"@[4] == '_' && "bios_vendor"@[5] == 'v' && "bios_vendor"@[6] == 'e' && "bios_vendor"@[7] == 'n' && "bios_vendor"@[8] == 'd' && "bios_vendor"@[9] == 'o' && "bios_vendor"@[10] == 'r');
        assert("bios_date"@[0] == 'b' && "bios_date"@[1] == 'i' && "bios_date"@[2] == 'o' && "bios_date"@[3] == 's' && "bios_date"@[4] == '_' && "bios_date"@[5] == 'd' && "bios_date"@[6] == 'a' && "bios_date"@[7] == 't' && "bios_date"@[8] == 'e');
        assert("system_uptime"@[0] == 's' && "system_uptime"@[1] == 'y' && "system_uptime"@[2] == 's' && "system_uptime"@[3] == 't' && "system_uptime"@[4] == 'e' && "system_uptime"@[5] == 'm' && "system_uptime"@[6] == '_' && "system_uptime"@[7] == 'u' && "system_uptime"@[8] == 'p' && "system_uptime"@[9] == 't' && "system_uptime"@[10] == 'i' && "system_uptime"@[11] == 'm' && "system_uptime"@[12] == 'e');
        assert("process_count"@[0] == 'p' && "process_count"@[1] == 'r' && "process_count"@[2] == 'o' && "process_count"@[3] == 'c' && "process_count"@[4] == 'e' && "process_count"@[5] == 's' && "process_count"@[6] == 's' && "process_count"@[7] == '_' && "process_count"@[8] == 'c' && "process_count"@[9] == 'o' && "process_count"@[10] == 'u' && "process_count"@[11] == 'n' && "process_count"@[12] == 't');
        assert("last_boot"@[0] == 'l' && "last_boot"@[1] == 'a' && "last_boot"@[2] == 's' && "last_boot"@[3] == 't' && "last_boot"@[4] == '_' && "last_boot"@[5] == 'b' && "last_boot"@[6] == 'o' && "last_boot"@[7] == 'o' && "last_boot"@[8] == 't');
        assert("logged_in_user"@[0] == 'l' && "logged_in_user"@[1] == 'o' && "logged_in_user"@[2] == 'g' && "logged_in_user"@[3] == 'g' && "logged_in_user"@[4] == 'e' && "logged_in_user"@[5] == 'd' && "logged_in_user"@[6] == '_' && "logged_in_user"@[7] == 'i' && "logged_in_user"@[8] == 'n' && "logged_in_user"@[9] == '_' && "logged_in_user"@[10] == 'u' && "logged_in_user"@[11] == 's' && "logged_in_user"@[12] == 'e' && "logged_in_user"@[13] == 'r');
        assert("display"@[0] == 'd' && "display"@[1] == 'i' && "display"@[2] == 's' && "display"@[3] == 'p' && "display"@[4] == 'l' && "display"@[5] == 'a' && "display"@[6] == 'y');
        if k == 0 {
            assert(spec_catalog()[0].0 == "cpu_usage"@);
            assert(spec_default_enabled("cpu_usage"@) == true);
        } else if k == 1 {
            assert(spec_catalog()[1].0 == "cpu_frequency"@);
            assert(spec_default_enabled("cpu_frequency"@) == true);
        } else if k == 2 {
            assert(spec_catalog()[2].0 == "cpu_temperature"@);
            assert(spec_default_enabled("cpu_temperature"@) == true);
        } else if k == 3 {
            assert(spec_catalog()[3].0 == "cpu_model"@);
            assert(spec_default_enabled("cpu_model"@) == false);
        } else if k == 4 {
            assert(spec_catalog()[4].0 == "memory_usage"@);
            assert(spec_default_enabled("memory_usage"@) == true);
        } else if k == 5 {
            assert(spec_catalog()[5].0 == "memory_used"@);
            assert(spec_default_enabled("memory_used"@) == true);
        } else if k == 6 {
            assert(spec_catalog()[6].0 == "memory_total"@);
            assert(spec_default_enabled("memory_total"@) == false);
        } else if k == 7 {
            assert(spec_catalog()[7].0 == "swap_usage"@);
            assert(spec_default_enabled("swap_usage"@) == true);
        } else if k == 8 {
            assert(spec_catalog()[8].0 == "disk_usage"@);
            assert(spec_default_enabled("disk_usage"@) == true);
        } else if k == 9 {
            assert(spec_catalog()[9].0 == "gpu"@);
            assert(spec_default_enabled("gpu"@) == true);
        } else if k == 10 {
            assert(spec_catalog()[10].0 == "network"@);
            assert(spec_default_enabled("network"@) == true);
        } else if k == 11 {
            assert(spec_catalog()[11].0 == "battery"@);
            assert(spec_default_enabled("battery"@) == true);
        } else if k == 12 {
            assert(spec_catalog()[12].0 == "os_version"@);
            assert(spec_default_enabled("os_version"@) == false);
        } else if k == 13 {
            assert(spec_catalog()[13].0 == "hostname"@);
            assert(spec_default_enabled("hostname"@) == false);
        } else if k == 14 {
            assert(spec_catalog()[14].0 == "motherboard"@);
            assert(spec_default_enabled("motherboard"@) == false);
        } else if k == 15 {
            assert(spec_catalog()[15].0 == "bios_version"@);
            assert(spec_default_enabled("bios_version"@) == false);
        } else if k == 16 {
            assert(spec_catalog()[16].0 == "bios_vendor"@);
            assert(spec_default_enabled("bios_vendor"@) == false);
        } else if k == 17 {
            assert(spec_catalog()[17].0 == "bios_date"@);
            assert(spec_default_enabled("bios_date"@) == false);
        } else if k == 18 {
            assert(spec_catalog()[18].0 == "system_uptime"@);
            assert(spec_default_enabled("system_uptime"@) == true);
        } else if k == 19 {
            assert(spec_catalog()[19].0 == "process_count"@);
            assert(spec_default_enabled("process_count"@) == true);
        } else if k == 20 {
            assert(spec_catalog()[20].0 == "last_boot"@);
            assert(spec_default_enabled("last_boot"@) == false);
        } else if k == 21 {
            assert(spec_catalog()[21].0 == "logged_in_user"@);
            assert(spec_default_enabled("logged_in_user"@) == false);
        } else if k == 22 {
            assert(spec_catalog()[22].0 == "display"@);
            assert(spec_default_enabled("display"@) == false);
        }
    }
}

fn default_enabled(id: &str) -> (r: bool)
    ensures
        r == spec_default_enabled(id@),
{
    !(str_eq(id, "cpu_model") || str_eq(id, "memory_total") || str_eq(id, "os_version") || str_eq(
        id,
        "hostname",
    ) || str_eq(id, "motherboard") || str_eq(id, "bios_version") || str_eq(id, "bios_vendor")
        || str_eq(id, "bios_date") || str_eq(id, "last_boot") || str_eq(id, "logged_in_user")
        || str_eq(id, "display"))
}

/// The rows `get_sensor_list` reports for enablement map `m`: one per
/// catalog entry, whatever `m` holds.
pub open spec fn spec_sensor_list(m: Seq<(Seq<char>, bool)>) -> Seq<SensorListItemView> {
    spec_catalog().map_values(
        |e: (Seq<char>, Seq<char>, bool)|
            SensorListItemView {
                id: e.0,
                name: e.1,
                enabled: spec_is_enabled(m, e.0),
                updates_at_interval: e.2,
            },
    )
}

/// Catalog completeness: the reported list always has exactly one row per
/// catalog entry, for every enablement map.
pub proof fn lemma_sensor_list_covers_catalog(m: Seq<(Seq<char>, bool)>)
    ensures
        spec_sensor_list(m).len() == spec_catalog().len(),
{
}

/// A mount-point character made identifier-safe: path separators,
/// colons and backslashes become underscores.
pub open spec fn spec_mount_char(c: char) -> char {
    if c == '/' || c == '\\' || c == ':' {
        '_'
    } else {
        c
    }
}

/// An interface-name character made identifier-safe: spaces and path
/// separators become underscores.
pub open spec fn spec_iface_char(c: char) -> char {
    if c == ' ' || c == '/' || c == '\\' {
        '_'
    } else {
        c
    }
}

pub open spec fn spec_strip_underscore_start(s: Seq<char>) -> Seq<char>
    decreases s.len(),
{
    if s.len() > 0 && s[0] == '_' {
        spec_strip_underscore_start(s.drop_first())
    } else {
        s
    }
}

pub open spec fn spec_strip_underscore_end(s: Seq<char>) -> Seq<char>
    decreases s.len(),
{
    if s.len() > 0 && s[s.len() - 1] == '_' {
        spec_strip_underscore_end(s.drop_last())
    } else {
        s
    }
}

/// A mount point as it appears inside a sensor identifier: separator
/// characters replaced by underscores, then redundant underscores
/// trimmed from both ends.
pub open spec fn spec_sanitize_mount(s: Seq<char>) -> Seq<char> {
    spec_strip_underscore_end(
        spec_strip_underscore_start(s.map_values(|c: char| spec_mount_char(c))),
    )
}

/// An interface name as it appears inside a sensor identifier.
pub open spec fn spec_sanitize_iface(s: Seq<char>) -> Seq<char> {
    s.map_values(|c: char| spec_iface_char(c))
}

/// Replaces separator characters of a mount point and trims redundant
/// underscores, yielding the identifier-safe form.
pub fn sanitize_mount(s: &str) -> (r: String)
    ensures
        r@ == spec_sanitize_mount(s@),
{
    let n = s.unicode_len();
    let mut mapped = String::new();
    let mut i: usize = 0;
    while i < n
        invariant
            n == s@.len(),
            i <= n,
            mapped@ =~= s@.subrange(0, i as int).map_values(|c: char| spec_mount_char(c)),
        decreases n - i,
    {
        let c = s.get_char(i);
        let mc = if c == '/' || c == '\\' || c == ':' {
            '_'
        } else {
            c
        };
        crate::strutil::push_char(&mut mapped, mc);
        proof {
            assert(s@.subrange(0, i + 1).map_values(|c: char| spec_mount_char(c)) =~= s@.subrange(
                0,
                i as int,
            ).map_values(|c: char| spec_mount_char(c)).push(spec_mount_char(s@[i as int])));
        }
        i = i + 1;
    }
    proof {
        assert(s@.subrange(0, n as int) =~= s@);
    }
    let m = mapped.as_str();
    let mn = m.unicode_len();
    let mut lo: usize = 0;
    proof {
        assert(m@.subrange(0, mn as int) =~= m@);
    }
    while lo < mn && m.get_char(lo) == '_'
        invariant
            mn == m@.len(),
            lo <= mn,
            spec_strip_underscore_start(m@) == spec_strip_underscore_start(
                m@.subrange(lo as int, mn as int),
            ),
        decreases mn - lo,
    {
        proof {
            assert(m@.subrange(lo as int, mn as int).drop_first() =~= m@.subrange(
                lo + 1 as int,
                mn as int,
            ));
        }
        lo = lo + 1;
    }
    proof {
        let tail = m@.subrange(lo as int, mn as int);
        if lo < mn {
            assert(tail[0] != '_');
        }
        assert(spec_strip_underscore_start(tail) == tail);
    }
    let mut hi: usize = mn;
    while hi > lo && m.get_char(hi - 1) == '_'
        invariant
            mn == m@.len(),
            lo <= hi <= mn,
            spec_strip_underscore_end(m@.subrange(lo as int, mn as int))
                == spec_strip_underscore_end(m@.subrange(lo as int, hi as int)),
        decreases hi,
    {
        proof {
            assert(m@.subrange(lo as int, hi as int).drop_last() =~= m@.subrange(
                lo as int,
                hi - 1 as int,
            ));
        }
        hi = hi - 1;
    }
    proof {
        let win = m@.subrange(lo as int, hi as int);
        if hi > lo {
            assert(win[win.len() - 1] != '_');
        }
        assert(spec_strip_underscore_end(win) == win);
    }
    String::from_str(m.substring_char(lo, hi))
}

/// Replaces spaces and path separators of an interface name.
pub fn sanitize_iface(s: &str) -> (r: String)
    ensures
        r@ == spec_sanitize_iface(s@),
{
    let n = s.unicode_len();
    let mut mapped = String::new();
    let mut i: usize = 0;
    while i < n
        invariant
            n == s@.len(),
            i <= n,
            mapped@ =~= s@.subrange(0, i as int).map_values(|c: char| spec_iface_char(c)),
        decreases n - i,
    {
        let c = s.get_char(i);
        let mc = if c == ' ' || c == '/' || c == '\\' {
            '_'
        } else {
            c
        };
        crate::strutil::push_char(&mut mapped, mc);
        proof {
            assert(s@.subrange(0, i + 1).map_values(|c: char| spec_iface_char(c)) =~= s@.subrange(
                0,
                i as int,
            ).map_values(|c: char| spec_iface_char(c)).push(spec_iface_char(s@[i as int])));
        }
        i = i + 1;
    }
    proof {
        assert(s@.subrange(0, n as int) =~= s@);
    }
    mapped
}


/// A plain mount point: a root slash followed by characters that the
/// sanitizer leaves alone (no separators, colons, backslashes or
/// underscores past the first character).
pub open spec fn spec_plain_mount(mount: Seq<char>) -> bool {
    mount.len() >= 1 && mount[0] == '/' && (forall|i: int|
        1 <= i < mount.len() ==> !(mount[i] == '/' || mount[i] == '\\' || mount[i] == ':'
            || mount[i] == '_'))
}

/// Sanitizing a plain mount point just drops the root slash.
pub proof fn lemma_sanitize_plain_mount(mount: Seq<char>)
    requires
        spec_plain_mount(mount),
    ensures
        spec_sanitize_mount(mount) == mount.drop_first(),
{
    let mapped = mount.map_values(|c: char| spec_mount_char(c));
    let rest = mount.drop_first();
    assert(mapped =~= seq!['_'] + rest);
    assert(mapped.drop_first() =~= rest);
    assert(spec_strip_underscore_start(mapped) == spec_strip_underscore_start(rest));
    if rest.len() == 0 {
        assert(spec_strip_underscore_start(rest) == rest);
        assert(spec_strip_underscore_end(rest) == rest);
    } else {
        assert(rest[0] == mount[1]);
        assert(rest[0] != '_');
        assert(spec_strip_underscore_start(rest) == rest);
        assert(rest[rest.len() - 1] == mount[mount.len() - 1]);
        assert(rest[rest.len() - 1] != '_');
        assert(spec_strip_underscore_end(rest) == rest);
    }
}

/// Distinct plain mount points never collide: the disk usage sensors of
/// two partitions with different plain mount points carry different
/// identifiers.
pub proof fn lemma_disk_ids_distinct(p1: PartitionDataView, p2: PartitionDataView)
    requires
        spec_plain_mount(p1.mount_point),
        spec_plain_mount(p2.mount_point),
        p1.mount_point != p2.mount_point,
    ensures
        spec_disk_sensor(p1).unique_id != spec_disk_sensor(p2).unique_id,
{
    lemma_sanitize_plain_mount(p1.mount_point);
    lemma_sanitize_plain_mount(p2.mount_point);
    let prefix = "disk_usage_"@;
    let r1 = p1.mount_point.drop_first();
    let r2 = p2.mount_point.drop_first();
    if prefix + r1 == prefix + r2 {
        assert((prefix + r1).len() == (prefix + r2).len());
        assert(r1.len() == r2.len());
        assert forall|i: int| 0 <= i < r1.len() implies r1[i] == r2[i] by {
            assert((prefix + r1)[prefix.len() + i] == r1[i]);
            assert((prefix + r2)[prefix.len() + i] == r2[i]);
        }
        assert(r1 =~= r2);
        assert(p1.mount_point.len() == p2.mount_point.len());
        assert forall|i: int| 0 <= i < p1.mount_point.len() implies p1.mount_point[i]
            == p2.mount_point[i] by {
            if i > 0 {
                assert(r1[i - 1] == p1.mount_point[i]);
                assert(r2[i - 1] == p2.mount_point[i]);
            }
        }
        assert(p1.mount_point =~= p2.mount_point);
    }
}

/// The positional identifier suffix of a multi-instance sensor: `_i`
/// when more than one instance exists, empty otherwise.
pub open spec fn spec_id_suffix(i: int, multi: bool) -> Seq<char> {
    if multi {
        seq!['_'] + spec_u64_str(i)
    } else {
        Seq::<char>::empty()
    }
}

/// The positional display-name suffix of a multi-instance sensor: ` i`
/// when more than one instance exists, empty otherwise.
pub open spec fn spec_name_suffix(i: int, multi: bool) -> Seq<char> {
    if multi {
        seq![' '] + spec_u64_str(i)
    } else {
        Seq::<char>::empty()
    }
}

fn id_suffix(i: u64, multi: bool) -> (r: String)
    ensures
        r@ == spec_id_suffix(i as int, multi),
{
    if multi {
        let mut r = String::new();
        crate::strutil::push_char(&mut r, '_');
        let digits = crate::numfmt::u64_to_string(i);
        r.append(digits.as_str());
        proof {
            assert(r@ =~= seq!['_'] + spec_u64_str(i as int));
        }
        r
    } else {
        String::new()
    }
}

fn name_suffix(i: u64, multi: bool) -> (r: String)
    ensures
        r@ == spec_name_suffix(i as int, multi),
{
    if multi {
        let mut r = String::new();
        crate::strutil::push_char(&mut r, ' ');
        let digits = crate::numfmt::u64_to_string(i);
        r.append(digits.as_str());
        proof {
            assert(r@ =~= seq![' '] + spec_u64_str(i as int));
        }
        r
    } else {
        String::new()
    }
}

/// An uptime of `up` whole seconds as `<hours>h <minutes>m`.
pub open spec fn spec_uptime_str(up: int) -> Seq<char> {
    spec_u64_str(up / 3600).push('h').push(' ') + spec_u64_str((up % 3600) / 60).push('m')
}

fn uptime_string(up: u64) -> (r: String)
    ensures
        r@ == spec_uptime_str(up as int),
{
    let mut r = crate::numfmt::u64_to_string(up / 3600);
    crate::strutil::push_char(&mut r, 'h');
    crate::strutil::push_char(&mut r, ' ');
    let minutes = crate::numfmt::u64_to_string((up % 3600) / 60);
    r.append(minutes.as_str());
    crate::strutil::push_char(&mut r, 'm');
    proof {
        assert(r@ =~= spec_uptime_str(up as int));
    }
    r
}

/// Whether `y` is a leap year in the proleptic Gregorian calendar.
pub open spec fn spec_is_leap(y: int) -> bool {
    y % 4 == 0 && (y % 100 != 0 || y % 400 == 0)
}

pub open spec fn spec_days_in_year(y: int) -> int {
    if spec_is_leap(y) {
        366
    } else {
        365
    }
}

/// Days in zero-based month `m` of a year with leapness `leap`.
pub open spec fn spec_days_in_month(m: int, leap: bool) -> int {
    if m == 1 {
        if leap {
            29
        } else {
            28
        }
    } else if m == 3 || m == 5 || m == 8 || m == 10 {
        30
    } else {
        31
    }
}

/// Walks whole years forward from `y` until fewer than a year of days
/// remains; yields the year reached and the days left in it.
pub open spec fn spec_year_from_days(y: int, days: int) -> (int, int)
    decreases days,
{
    if days < spec_days_in_year(y) || days < 365 {
        (y, days)
    } else {
        spec_year_from_days(y + 1, days - spec_days_in_year(y))
    }
}

/// Walks whole months forward from zero-based month `m`; yields the
/// month reached and the zero-based day left in it.
pub open spec fn spec_month_from_days(m: int, days: int, leap: bool) -> (int, int)
    decreases 12 - m,
{
    if m >= 11 || days < spec_days_in_month(m, leap) {
        (m, days)
    } else {
        spec_month_from_days(m + 1, days - spec_days_in_month(m, leap), leap)
    }
}

/// The ISO 8601 rendering of a UNIX timestamp, at UTC.
pub open spec fn spec_format_timestamp(ts: int) -> Seq<char> {
    let days = ts / 86400;
    let tod = ts % 86400;
    let yr = spec_year_from_days(1970, days);
    let mr = spec_month_from_days(0, yr.1, spec_is_leap(yr.0));
    spec_zero_padded(yr.0, 4) + seq!['-'] + spec_zero_padded(mr.0 + 1, 2) + seq!['-']
        + spec_zero_padded(mr.1 + 1, 2) + seq!['T'] + spec_zero_padded(tod / 3600, 2) + seq![':']
        + spec_zero_padded((tod % 3600) / 60, 2) + seq![':'] + spec_zero_padded(tod % 60, 2)
        + "+00:00"@
}

fn is_leap_year(y: u64) -> (r: bool)
    ensures
        r == spec_is_leap(y as int),
{
    y % 4 == 0 && (y % 100 != 0 || y % 400 == 0)
}

fn days_in_year(y: u64) -> (r: u64)
    ensures
        r == spec_days_in_year(y as int),
{
    if is_leap_year(y) {
        366
    } else {
        365
    }
}

fn days_in_month(m: u64, leap: bool) -> (r: u64)
    ensures
        r == spec_days_in_month(m as int, leap),
{
    if m == 1 {
        if leap {
            29
        } else {
            28
        }
    } else if m == 3 || m == 5 || m == 8 || m == 10 {
        30
    } else {
        31
    }
}

/// Converts a UNIX timestamp to an ISO 8601 string, for states carrying
/// the timestamp classification.
pub fn chrono_from_timestamp(timestamp: u64) -> (r: String)
    ensures
        r@ == spec_format_timestamp(timestamp as int),
{
    let days: u64 = timestamp / 86400;
    let tod: u64 = timestamp % 86400;
    let hours: u64 = tod / 3600;
    let minutes: u64 = (tod % 3600) / 60;
    let seconds: u64 = tod % 60;

    let mut y: u64 = 1970;
    let mut remaining: u64 = days;
    while remaining >= days_in_year(y)
        invariant
            days <= 300000000000000,
            1970 <= y,
            y <= 1970 + days - remaining,
            remaining <= days,
            spec_year_from_days(1970, days as int) == spec_year_from_days(
                y as int,
                remaining as int,
            ),
        decreases remaining,
    {
        let diy = days_in_year(y);
        remaining = remaining - diy;
        y = y + 1;
    }
    proof {
        assert(spec_year_from_days(y as int, remaining as int) == (y as int, remaining as int));
    }

    let leap = is_leap_year(y);
    let mut m: u64 = 0;
    let ghost year_days = remaining;
    while m < 11 && remaining >= days_in_month(m, leap)
        invariant
            m <= 11,
            remaining <= year_days,
            spec_month_from_days(0, year_days as int, leap) == spec_month_from_days(
                m as int,
                remaining as int,
                leap,
            ),
        decreases 11 - m,
    {
        let dim = days_in_month(m, leap);
        remaining = remaining - dim;
        m = m + 1;
    }
    proof {
        assert(spec_month_from_days(m as int, remaining as int, leap) == (
            m as int,
            remaining as int,
        ));
    }

    let mut r = crate::numfmt::zero_padded(y, 4);
    crate::strutil::push_char(&mut r, '-');
    let part = crate::numfmt::zero_padded(m + 1, 2);
    r.append(part.as_str());
    crate::strutil::push_char(&mut r, '-');
    let part = crate::numfmt::zero_padded(remaining + 1, 2);
    r.append(part.as_str());
    crate::strutil::push_char(&mut r, 'T');
    let part = crate::numfmt::zero_padded(hours, 2);
    r.append(part.as_str());
    crate::strutil::push_char(&mut r, ':');
    let part = crate::numfmt::zero_padded(minutes, 2);
    r.append(part.as_str());
    crate::strutil::push_char(&mut r, ':');
    let part = crate::numfmt::zero_padded(seconds, 2);
    r.append(part.as_str());
    r.append("+00:00");
    proof {
        assert(r@ =~= spec_format_timestamp(timestamp as int));
    }
    r
}

/// One poll's worth of dynamic readings, sampled once per collection
/// call and fanned out to the sensors they serve. A reading left absent
/// silently omits its sensors.
#[derive(Debug)]
pub struct DynamicReadings {
    pub cpu: Option<CpuData>,
    pub memory: Option<MemoryData>,
    pub disk: Option<DiskData>,
    pub gpu: Option<GpuData>,
    pub network: Option<NetworkData>,
    pub battery: Option<BatteryData>,
    pub system: Option<DynamicSystemInfo>,
}

#[verifier::ext_equal]
pub struct DynamicReadingsView {
    pub cpu: Option<crate::sensors::cpu::CpuDataView>,
    pub memory: Option<crate::sensors::memory::MemoryDataView>,
    pub disk: Option<crate::sensors::disk::DiskDataView>,
    pub gpu: Option<crate::sensors::gpu::GpuDataView>,
    pub network: Option<crate::sensors::network::NetworkDataView>,
    pub battery: Option<crate::sensors::battery::BatteryDataView>,
    pub system: Option<crate::sensors::system_info::DynamicSystemInfoView>,
}

impl View for DynamicReadings {
    type V = DynamicReadingsView;

    open spec fn view(&self) -> DynamicReadingsView {
        DynamicReadingsView {
            cpu: self.cpu.deep_view(),
            memory: self.memory.deep_view(),
            disk: self.disk.deep_view(),
            gpu: self.gpu.deep_view(),
            network: self.network.deep_view(),
            battery: self.battery.deep_view(),
            system: self.system.deep_view(),
        }
    }
}

impl DeepView for DynamicReadings {
    type V = DynamicReadingsView;

    open spec fn deep_view(&self) -> DynamicReadingsView {
        self.view()
    }
}

/// The once-per-registration static readings: identity facts, plus the
/// samples that static sensors derive from.
#[derive(Debug)]
pub struct StaticReadings {
    pub cpu: Option<CpuData>,
    pub system: SystemInfoData,
    pub gpu: Option<GpuData>,
    pub memory: Option<MemoryData>,
}

#[verifier::ext_equal]
pub struct StaticReadingsView {
    pub cpu: Option<crate::sensors::cpu::CpuDataView>,
    pub system: SystemInfoDataView,
    pub gpu: Option<crate::sensors::gpu::GpuDataView>,
    pub memory: Option<crate::sensors::memory::MemoryDataView>,
}

impl View for StaticReadings {
    type V = StaticReadingsView;

    open spec fn view(&self) -> StaticReadingsView {
        StaticReadingsView {
            cpu: self.cpu.deep_view(),
            system: self.system.view(),
            gpu: self.gpu.deep_view(),
            memory: self.memory.deep_view(),
        }
    }
}

impl DeepView for StaticReadings {
    type V = StaticReadingsView;

    open spec fn deep_view(&self) -> StaticReadingsView {
        self.view()
    }
}


/// The CPU usage sensor: overall usage with one decimal place.
pub open spec fn spec_cpu_usage_sensor(c: crate::sensors::cpu::CpuDataView) -> SensorValueView {
    SensorValueView {
        unique_id: "cpu_usage"@,
        name: "CPU Usage"@,
        state: StateValueView::Text(spec_tenths_str(c.usage_tenths as int)),
        sensor_type: "sensor"@,
        device_class: None,
        unit_of_measurement: Some("%"@),
        state_class: Some("measurement"@),
        icon: Some("mdi:cpu-64-bit"@),
        attributes: Seq::empty(),
        update_at_interval: true,
    }
}

/// The CPU frequency sensor: megahertz as a raw integer.
pub open spec fn spec_cpu_frequency_sensor(
    c: crate::sensors::cpu::CpuDataView,
) -> SensorValueView {
    SensorValueView {
        unique_id: "cpu_frequency"@,
        name: "CPU Frequency"@,
        state: StateValueView::Integer(c.frequency_mhz),
        sensor_type: "sensor"@,
        device_class: Some("frequency"@),
        unit_of_measurement: Some("MHz"@),
        state_class: Some("measurement"@),
        icon: Some("mdi:speedometer"@),
        attributes: Seq::empty(),
        update_at_interval: true,
    }
}

/// A temperature in tenths of a degree, rendered with one decimal place
/// and a sign when below zero.
pub open spec fn spec_temperature_str(t: int) -> Seq<char> {
    if t >= 0 {
        spec_tenths_str(t)
    } else {
        seq!['-'] + spec_tenths_str(-t)
    }
}

/// The CPU temperature sensor; a missing thermal reading is reported as
/// an explicit null state rather than omitting the sensor.
pub open spec fn spec_cpu_temperature_sensor(
    c: crate::sensors::cpu::CpuDataView,
) -> SensorValueView {
    SensorValueView {
        unique_id: "cpu_temperature"@,
        name: "CPU Temperature"@,
        state: match c.temperature_tenths {
            Some(t) => StateValueView::Text(spec_temperature_str(t as int)),
            None => StateValueView::Null,
        },
        sensor_type: "sensor"@,
        device_class: Some("temperature"@),
        unit_of_measurement: Some("°C"@),
        state_class: Some("measurement"@),
        icon: Some("mdi:thermometer"@),
        attributes: Seq::empty(),
        update_at_interval: true,
    }
}

/// The memory usage sensor: used share of total with one decimal place.
pub open spec fn spec_memory_usage_sensor(
    mm: crate::sensors::memory::MemoryDataView,
) -> SensorValueView {
    SensorValueView {
        unique_id: "memory_usage"@,
        name: "Memory Usage"@,
        state: StateValueView::Text(
            spec_tenths_str(
                crate::numfmt::spec_percent_tenths(mm.used_bytes as int, mm.total_bytes as int),
            ),
        ),
        sensor_type: "sensor"@,
        device_class: None,
        unit_of_measurement: Some("%"@),
        state_class: Some("measurement"@),
        icon: Some("mdi:memory"@),
        attributes: Seq::empty(),
        update_at_interval: true,
    }
}

/// The memory used sensor: gibibytes with two decimal places.
pub open spec fn spec_memory_used_sensor(
    mm: crate::sensors::memory::MemoryDataView,
) -> SensorValueView {
    SensorValueView {
        unique_id: "memory_used"@,
        name: "Memory Used"@,
        state: StateValueView::Text(
            spec_hundredths_str(crate::numfmt::spec_gib_hundredths(mm.used_bytes as int)),
        ),
        sensor_type: "sensor"@,
        device_class: Some("data_size"@),
        unit_of_measurement: Some("GB"@),
        state_class: Some("measurement"@),
        icon: Some("mdi:memory"@),
        attributes: Seq::empty(),
        update_at_interval: true,
    }
}

/// The swap usage sensor, with the used and total swap sizes carried as
/// attributes; only emitted when the machine has swap at all.
pub open spec fn spec_swap_usage_sensor(
    mm: crate::sensors::memory::MemoryDataView,
) -> SensorValueView {
    SensorValueView {
        unique_id: "swap_usage"@,
        name: "Swap Usage"@,
        state: StateValueView::Text(
            spec_tenths_str(
                crate::numfmt::spec_percent_tenths(
                    mm.swap_used_bytes as int,
                    mm.swap_total_bytes as int,
                ),
            ),
        ),
        sensor_type: "sensor"@,
        device_class: None,
        unit_of_measurement: Some("%"@),
        state_class: Some("measurement"@),
        icon: Some("mdi:swap-horizontal"@),
        attributes: seq![
            (
                "swap_used_gb"@,
                StateValueView::Text(
                    spec_hundredths_str(
                        crate::numfmt::spec_gib_hundredths(mm.swap_used_bytes as int),
                    ),
                ),
            ),
            (
                "swap_total_gb"@,
                StateValueView::Text(
                    spec_tenths_str(crate::numfmt::spec_gib_tenths(mm.swap_total_bytes as int)),
                ),
            ),
        ],
        update_at_interval: true,
    }
}

/// The per-partition disk usage sensor, identified by the sanitized
/// mount point, with sizes and filesystem facts as attributes.
pub open spec fn spec_disk_sensor(p: PartitionDataView) -> SensorValueView {
    SensorValueView {
        unique_id: "disk_usage_"@ + spec_sanitize_mount(p.mount_point),
        name: "Disk Usage "@ + p.mount_point,
        state: StateValueView::Text(
            spec_tenths_str(
                crate::numfmt::spec_percent_tenths(p.used_bytes as int, p.total_bytes as int),
            ),
        ),
        sensor_type: "sensor"@,
        device_class: None,
        unit_of_measurement: Some("%"@),
        state_class: Some("measurement"@),
        icon: Some("mdi:harddisk"@),
        attributes: seq![
            (
                "total_gb"@,
                StateValueView::Text(
                    spec_tenths_str(crate::numfmt::spec_gib_tenths(p.total_bytes as int)),
                ),
            ),
            (
                "used_gb"@,
                StateValueView::Text(
                    spec_tenths_str(crate::numfmt::spec_gib_tenths(p.used_bytes as int)),
                ),
            ),
            ("filesystem"@, StateValueView::Text(p.filesystem)),
            ("disk_type"@, StateValueView::Text(p.disk_type)),
        ],
        update_at_interval: true,
    }
}

/// The GPU usage sensor of adapter `i`.
pub open spec fn spec_gpu_usage_sensor(u: u32, i: int, multi: bool) -> SensorValueView {
    SensorValueView {
        unique_id: "gpu_usage"@ + spec_id_suffix(i, multi),
        name: "GPU Usage"@ + spec_name_suffix(i, multi),
        state: StateValueView::Text(spec_tenths_str(u as int)),
        sensor_type: "sensor"@,
        device_class: None,
        unit_of_measurement: Some("%"@),
        state_class: Some("measurement"@),
        icon: Some("mdi:expansion-card"@),
        attributes: Seq::empty(),
        update_at_interval: true,
    }
}

/// The GPU temperature sensor of adapter `i`.
pub open spec fn spec_gpu_temperature_sensor(t: i32, i: int, multi: bool) -> SensorValueView {
    SensorValueView {
        unique_id: "gpu_temperature"@ + spec_id_suffix(i, multi),
        name: "GPU Temperature"@ + spec_name_suffix(i, multi),
        state: StateValueView::Text(spec_temperature_str(t as int)),
        sensor_type: "sensor"@,
        device_class: Some("temperature"@),
        unit_of_measurement: Some("°C"@),
        state_class: Some("measurement"@),
        icon: Some("mdi:thermometer"@),
        attributes: Seq::empty(),
        update_at_interval: true,
    }
}

/// The GPU video-memory sensor of adapter `i`: used megabytes.
pub open spec fn spec_gpu_vram_sensor(v: u64, i: int, multi: bool) -> SensorValueView {
    SensorValueView {
        unique_id: "gpu_vram_used"@ + spec_id_suffix(i, multi),
        name: "GPU VRAM Used"@ + spec_name_suffix(i, multi),
        state: StateValueView::Text(spec_u64_str(v as int)),
        sensor_type: "sensor"@,
        device_class: Some("data_size"@),
        unit_of_measurement: Some("MB"@),
        state_class: Some("measurement"@),
        icon: Some("mdi:expansion-card-variant"@),
        attributes: Seq::empty(),
        update_at_interval: true,
    }
}

/// The received-bytes counter of one interface, with its hardware
/// address and IP addresses as attributes.
pub open spec fn spec_network_rx_sensor(f: NetworkInterfaceView) -> SensorValueView {
    SensorValueView {
        unique_id: "network_rx_"@ + spec_sanitize_iface(f.name),
        name: "Network RX "@ + f.name,
        state: StateValueView::Integer(f.received_bytes),
        sensor_type: "sensor"@,
        device_class: Some("data_size"@),
        unit_of_measurement: Some("B"@),
        state_class: Some("total_increasing"@),
        icon: Some("mdi:download-network"@),
        attributes: seq![
            ("mac_address"@, StateValueView::Text(f.mac_address)),
            ("ip_addresses"@, StateValueView::TextList(f.ip_addresses)),
        ],
        update_at_interval: true,
    }
}

/// The transmitted-bytes counter of one interface.
pub open spec fn spec_network_tx_sensor(f: NetworkInterfaceView) -> SensorValueView {
    SensorValueView {
        unique_id: "network_tx_"@ + spec_sanitize_iface(f.name),
        name: "Network TX "@ + f.name,
        state: StateValueView::Integer(f.transmitted_bytes),
        sensor_type: "sensor"@,
        device_class: Some("data_size"@),
        unit_of_measurement: Some("B"@),
        state_class: Some("total_increasing"@),
        icon: Some("mdi:upload-network"@),
        attributes: Seq::empty(),
        update_at_interval: true,
    }
}

/// The attributes of the battery level sensor: charging state always,
/// health and cycle count when known.
pub open spec fn spec_battery_attributes(
    b: BatteryInfoView,
) -> Seq<(Seq<char>, StateValueView)> {
    let base = seq![("state"@, StateValueView::Text(b.state))];
    let with_health = match b.state_of_health {
        Some(h) => base.push(
            ("state_of_health"@, StateValueView::Text(spec_u64_str(h as int).push('%'))),
        ),
        None => base,
    };
    match b.cycle_count {
        Some(c) => with_health.push(("cycle_count"@, StateValueView::Integer(c as u64))),
        None => with_health,
    }
}

/// The battery level sensor of battery `i`: whole percent.
pub open spec fn spec_battery_level_sensor(
    b: BatteryInfoView,
    i: int,
    multi: bool,
) -> SensorValueView {
    SensorValueView {
        unique_id: "battery_level"@ + spec_id_suffix(i, multi),
        name: "Battery Level"@ + spec_name_suffix(i, multi),
        state: StateValueView::Text(spec_u64_str(b.percentage as int)),
        sensor_type: "sensor"@,
        device_class: Some("battery"@),
        unit_of_measurement: Some("%"@),
        state_class: Some("measurement"@),
        icon: Some("mdi:battery"@),
        attributes: spec_battery_attributes(b),
        update_at_interval: true,
    }
}

/// The binary charging sensor of battery `i`.
pub open spec fn spec_battery_charging_sensor(
    b: BatteryInfoView,
    i: int,
    multi: bool,
) -> SensorValueView {
    SensorValueView {
        unique_id: "battery_charging"@ + spec_id_suffix(i, multi),
        name: "Battery Charging"@ + spec_name_suffix(i, multi),
        state: StateValueView::Flag(b.is_charging),
        sensor_type: "binary_sensor"@,
        device_class: Some("battery_charging"@),
        unit_of_measurement: None,
        state_class: None,
        icon: Some("mdi:battery-charging"@),
        attributes: Seq::empty(),
        update_at_interval: true,
    }
}

/// The uptime sensor: hours and minutes as text, the exact figures as
/// attributes.
pub open spec fn spec_uptime_sensor(
    d: crate::sensors::system_info::DynamicSystemInfoView,
) -> SensorValueView {
    SensorValueView {
        unique_id: "system_uptime"@,
        name: "System Uptime"@,
        state: StateValueView::Text(spec_uptime_str(d.uptime_seconds as int)),
        sensor_type: "sensor"@,
        device_class: Some("duration"@),
        unit_of_measurement: Some("s"@),
        state_class: Some("total_increasing"@),
        icon: Some("mdi:clock-outline"@),
        attributes: seq![
            ("uptime_seconds"@, StateValueView::Integer(d.uptime_seconds)),
            (
                "days"@,
                StateValueView::Integer((d.uptime_seconds / 86400) as u64),
            ),
            (
                "hours"@,
                StateValueView::Integer((d.uptime_seconds / 3600) as u64),
            ),
            (
                "minutes"@,
                StateValueView::Integer(((d.uptime_seconds % 3600) / 60) as u64),
            ),
        ],
        update_at_interval: true,
    }
}

/// The process count sensor.
pub open spec fn spec_process_count_sensor(
    d: crate::sensors::system_info::DynamicSystemInfoView,
) -> SensorValueView {
    SensorValueView {
        unique_id: "process_count"@,
        name: "Process Count"@,
        state: StateValueView::Integer(d.process_count as u64),
        sensor_type: "sensor"@,
        device_class: None,
        unit_of_measurement: Some("processes"@),
        state_class: Some("measurement"@),
        icon: Some("mdi:format-list-numbered"@),
        attributes: Seq::empty(),
        update_at_interval: true,
    }
}


/// Assembles one sensor value; the metadata literals arrive as string
/// slices and are owned here.
#[verifier::rlimit(30)]
fn make_sensor(
    unique_id: String,
    name: String,
    state: StateValue,
    sensor_type: &str,
    device_class: Option<&str>,
    unit_of_measurement: Option<&str>,
    state_class: Option<&str>,
    icon: Option<&str>,
    attributes: Vec<(String, StateValue)>,
    update_at_interval: bool,
) -> (r: SensorValue)
    ensures
        r@ == (SensorValueView {
            unique_id: unique_id@,
            name: name@,
            state: state@,
            sensor_type: sensor_type@,
            device_class: device_class.deep_view(),
            unit_of_measurement: unit_of_measurement.deep_view(),
            state_class: state_class.deep_view(),
            icon: icon.deep_view(),
            attributes: attributes.deep_view(),
            update_at_interval: update_at_interval,
        }),
{
    let r = SensorValue {
        unique_id,
        name,
        state,
        sensor_type: String::from_str(sensor_type),
        device_class: match device_class {
            Some(x) => Some(String::from_str(x)),
            None => None,
        },
        unit_of_measurement: match unit_of_measurement {
            Some(x) => Some(String::from_str(x)),
            None => None,
        },
        state_class: match state_class {
            Some(x) => Some(String::from_str(x)),
            None => None,
        },
        icon: match icon {
            Some(x) => Some(String::from_str(x)),
            None => None,
        },
        attributes,
        update_at_interval,
    };
    proof {
        assert(r@ =~~= (SensorValueView {
            unique_id: r.unique_id@,
            name: r.name@,
            state: r.state@,
            sensor_type: sensor_type@,
            device_class: device_class.deep_view(),
            unit_of_measurement: unit_of_measurement.deep_view(),
            state_class: state_class.deep_view(),
            icon: icon.deep_view(),
            attributes: r.attributes.deep_view(),
            update_at_interval: r.update_at_interval,
        }));
    }
    r
}

fn cpu_usage_sensor(c: &CpuData) -> (r: SensorValue)
    ensures
        r@ == spec_cpu_usage_sensor(c@),
{
    let r = make_sensor(
        String::from_str("cpu_usage"),
        String::from_str("CPU Usage"),
        StateValue::Text(crate::numfmt::format_tenths(c.usage_tenths as u64)),
        "sensor",
        None,
        Some("%"),
        Some("measurement"),
        Some("mdi:cpu-64-bit"),
        Vec::new(),
        true,
    );
    proof {
        assert(r@ =~~= spec_cpu_usage_sensor(c@));
    }
    r
}

fn cpu_frequency_sensor(c: &CpuData) -> (r: SensorValue)
    ensures
        r@ == spec_cpu_frequency_sensor(c@),
{
    let r = make_sensor(
        String::from_str("cpu_frequency"),
        String::from_str("CPU Frequency"),
        StateValue::Integer(c.frequency_mhz),
        "sensor",
        Some("frequency"),
        Some("MHz"),
        Some("measurement"),
        Some("mdi:speedometer"),
        Vec::new(),
        true,
    );
    proof {
        assert(r@ =~~= spec_cpu_frequency_sensor(c@));
    }
    r
}

/// Renders a temperature in tenths of a degree.
fn temperature_string(t: i32) -> (r: String)
    ensures
        r@ == spec_temperature_str(t as int),
{
    crate::numfmt::format_tenths_signed(t as i64)
}

fn cpu_temperature_sensor(c: &CpuData) -> (r: SensorValue)
    ensures
        r@ == spec_cpu_temperature_sensor(c@),
{
    let state = match c.temperature_tenths {
        Some(t) => StateValue::Text(temperature_string(t)),
        None => StateValue::Null,
    };
    let r = make_sensor(
        String::from_str("cpu_temperature"),
        String::from_str("CPU Temperature"),
        state,
        "sensor",
        Some("temperature"),
        Some("°C"),
        Some("measurement"),
        Some("mdi:thermometer"),
        Vec::new(),
        true,
    );
    proof {
        assert(r@ =~~= spec_cpu_temperature_sensor(c@));
    }
    r
}

fn memory_usage_sensor(mm: &MemoryData) -> (r: SensorValue)
    ensures
        r@ == spec_memory_usage_sensor(mm@),
{
    let tenths = crate::numfmt::percent_tenths(mm.used_bytes, mm.total_bytes);
    let r = make_sensor(
        String::from_str("memory_usage"),
        String::from_str("Memory Usage"),
        StateValue::Text(crate::numfmt::format_tenths(tenths as u64)),
        "sensor",
        None,
        Some("%"),
        Some("measurement"),
        Some("mdi:memory"),
        Vec::new(),
        true,
    );
    proof {
        assert(r@ =~~= spec_memory_usage_sensor(mm@));
    }
    r
}

fn memory_used_sensor(mm: &MemoryData) -> (r: SensorValue)
    ensures
        r@ == spec_memory_used_sensor(mm@),
{
    let hundredths = crate::numfmt::gib_hundredths(mm.used_bytes);
    let r = make_sensor(
        String::from_str("memory_used"),
        String::from_str("Memory Used"),
        StateValue::Text(crate::numfmt::format_hundredths(hundredths)),
        "sensor",
        Some("data_size"),
        Some("GB"),
        Some("measurement"),
        Some("mdi:memory"),
        Vec::new(),
        true,
    );
    proof {
        assert(r@ =~~= spec_memory_used_sensor(mm@));
    }
    r
}

fn swap_usage_sensor(mm: &MemoryData) -> (r: SensorValue)
    ensures
        r@ == spec_swap_usage_sensor(mm@),
{
    let tenths = crate::numfmt::percent_tenths(mm.swap_used_bytes, mm.swap_total_bytes);
    let mut attrs: Vec<(String, StateValue)> = Vec::new();
    attrs.push(
        (
            String::from_str("swap_used_gb"),
            StateValue::Text(
                crate::numfmt::format_hundredths(crate::numfmt::gib_hundredths(mm.swap_used_bytes)),
            ),
        ),
    );
    attrs.push(
        (
            String::from_str("swap_total_gb"),
            StateValue::Text(
                crate::numfmt::format_tenths(crate::numfmt::gib_tenths(mm.swap_total_bytes)),
            ),
        ),
    );
    let r = make_sensor(
        String::from_str("swap_usage"),
        String::from_str("Swap Usage"),
        StateValue::Text(crate::numfmt::format_tenths(tenths as u64)),
        "sensor",
        None,
        Some("%"),
        Some("measurement"),
        Some("mdi:swap-horizontal"),
        attrs,
        true,
    );
    proof {
        assert(r@ =~~= spec_swap_usage_sensor(mm@));
    }
    r
}

fn disk_sensor(p: &crate::sensors::disk::PartitionData) -> (r: SensorValue)
    ensures
        r@ == spec_disk_sensor(p@),
{
    let mut unique_id = String::from_str("disk_usage_");
    let safe = sanitize_mount(p.mount_point.as_str());
    unique_id.append(safe.as_str());
    let mut name = String::from_str("Disk Usage ");
    name.append(p.mount_point.as_str());
    let tenths = crate::numfmt::percent_tenths(p.used_bytes, p.total_bytes);
    let mut attrs: Vec<(String, StateValue)> = Vec::new();
    attrs.push(
        (
            String::from_str("total_gb"),
            StateValue::Text(
                crate::numfmt::format_tenths(crate::numfmt::gib_tenths(p.total_bytes)),
            ),
        ),
    );
    attrs.push(
        (
            String::from_str("used_gb"),
            StateValue::Text(crate::numfmt::format_tenths(crate::numfmt::gib_tenths(p.used_bytes))),
        ),
    );
    attrs.push((String::from_str("filesystem"), StateValue::Text(p.filesystem.clone())));
    attrs.push((String::from_str("disk_type"), StateValue::Text(p.disk_type.clone())));
    let r = make_sensor(
        unique_id,
        name,
        StateValue::Text(crate::numfmt::format_tenths(tenths as u64)),
        "sensor",
        None,
        Some("%"),
        Some("measurement"),
        Some("mdi:harddisk"),
        attrs,
        true,
    );
    proof {
        assert(r@ =~~= spec_disk_sensor(p@));
    }
    r
}

fn gpu_usage_sensor(u: u32, i: u64, multi: bool) -> (r: SensorValue)
    ensures
        r@ == spec_gpu_usage_sensor(u, i as int, multi),
{
    let mut unique_id = String::from_str("gpu_usage");
    let suffix = id_suffix(i, multi);
    unique_id.append(suffix.as_str());
    let mut name = String::from_str("GPU Usage");
    let nsuffix = name_suffix(i, multi);
    name.append(nsuffix.as_str());
    let r = make_sensor(
        unique_id,
        name,
        StateValue::Text(crate::numfmt::format_tenths(u as u64)),
        "sensor",
        None,
        Some("%"),
        Some("measurement"),
        Some("mdi:expansion-card"),
        Vec::new(),
        true,
    );
    proof {
        assert(r@ =~~= spec_gpu_usage_sensor(u, i as int, multi));
    }
    r
}

fn gpu_temperature_sensor(t: i32, i: u64, multi: bool) -> (r: SensorValue)
    ensures
        r@ == spec_gpu_temperature_sensor(t, i as int, multi),
{
    let mut unique_id = String::from_str("gpu_temperature");
    let suffix = id_suffix(i, multi);
    unique_id.append(suffix.as_str());
    let mut name = String::from_str("GPU Temperature");
    let nsuffix = name_suffix(i, multi);
    name.append(nsuffix.as_str());
    let r = make_sensor(
        unique_id,
        name,
        StateValue::Text(temperature_string(t)),
        "sensor",
        Some("temperature"),
        Some("°C"),
        Some("measurement"),
        Some("mdi:thermometer"),
        Vec::new(),
        true,
    );
    proof {
        assert(r@ =~~= spec_gpu_temperature_sensor(t, i as int, multi));
    }
    r
}

fn gpu_vram_sensor(v: u64, i: u64, multi: bool) -> (r: SensorValue)
    ensures
        r@ == spec_gpu_vram_sensor(v, i as int, multi),
{
    let mut unique_id = String::from_str("gpu_vram_used");
    let suffix = id_suffix(i, multi);
    unique_id.append(suffix.as_str());
    let mut name = String::from_str("GPU VRAM Used");
    let nsuffix = name_suffix(i, multi);
    name.append(nsuffix.as_str());
    let r = make_sensor(
        unique_id,
        name,
        StateValue::Text(crate::numfmt::u64_to_string(v)),
        "sensor",
        Some("data_size"),
        Some("MB"),
        Some("measurement"),
        Some("mdi:expansion-card-variant"),
        Vec::new(),
        true,
    );
    proof {
        assert(r@ =~~= spec_gpu_vram_sensor(v, i as int, multi));
    }
    r
}

fn network_rx_sensor(f: &NetworkInterface) -> (r: SensorValue)
    ensures
        r@ == spec_network_rx_sensor(f@),
{
    let mut unique_id = String::from_str("network_rx_");
    let safe = sanitize_iface(f.name.as_str());
    unique_id.append(safe.as_str());
    let mut name = String::from_str("Network RX ");
    name.append(f.name.as_str());
    let mut ips: Vec<String> = Vec::new();
    let k = f.ip_addresses.len();
    let mut i: usize = 0;
    while i < k
        invariant
            k == f.ip_addresses.len(),
            i <= k,
            ips.deep_view() =~~= f.ip_addresses.deep_view().take(i as int),
        decreases k - i,
    {
        let ghost pre = ips.deep_view();
        let element = f.ip_addresses[i].clone();
        proof {
            assert(element@ == f.ip_addresses@[i as int]@);
        }
        ips.push(element);
        proof {
            assert(ips.deep_view() =~~= pre.push(element@));
            assert(ips.deep_view() =~~= f.ip_addresses.deep_view().take(i + 1));
        }
        i = i + 1;
    }
    proof {
        assert(f.ip_addresses.deep_view().take(k as int) =~~= f.ip_addresses.deep_view());
    }
    let mut attrs: Vec<(String, StateValue)> = Vec::new();
    attrs.push((String::from_str("mac_address"), StateValue::Text(f.mac_address.clone())));
    attrs.push((String::from_str("ip_addresses"), StateValue::TextList(ips)));
    let r = make_sensor(
        unique_id,
        name,
        StateValue::Integer(f.received_bytes),
        "sensor",
        Some("data_size"),
        Some("B"),
        Some("total_increasing"),
        Some("mdi:download-network"),
        attrs,
        true,
    );
    proof {
        assert(r@ =~~= spec_network_rx_sensor(f@));
    }
    r
}

fn network_tx_sensor(f: &NetworkInterface) -> (r: SensorValue)
    ensures
        r@ == spec_network_tx_sensor(f@),
{
    let mut unique_id = String::from_str("network_tx_");
    let safe = sanitize_iface(f.name.as_str());
    unique_id.append(safe.as_str());
    let mut name = String::from_str("Network TX ");
    name.append(f.name.as_str());
    let r = make_sensor(
        unique_id,
        name,
        StateValue::Integer(f.transmitted_bytes),
        "sensor",
        Some("data_size"),
        Some("B"),
        Some("total_increasing"),
        Some("mdi:upload-network"),
        Vec::new(),
        true,
    );
    proof {
        assert(r@ =~~= spec_network_tx_sensor(f@));
    }
    r
}

fn battery_level_sensor(b: &crate::sensors::battery::BatteryInfo, i: u64, multi: bool) -> (r:
    SensorValue)
    ensures
        r@ == spec_battery_level_sensor(b@, i as int, multi),
{
    let mut unique_id = String::from_str("battery_level");
    let suffix = id_suffix(i, multi);
    unique_id.append(suffix.as_str());
    let mut name = String::from_str("Battery Level");
    let nsuffix = name_suffix(i, multi);
    name.append(nsuffix.as_str());
    let mut attrs: Vec<(String, StateValue)> = Vec::new();
    attrs.push((String::from_str("state"), StateValue::Text(b.state.clone())));
    if let Some(h) = b.state_of_health {
        let mut health = crate::numfmt::u64_to_string(h as u64);
        crate::strutil::push_char(&mut health, '%');
        attrs.push((String::from_str("state_of_health"), StateValue::Text(health)));
    }
    if let Some(c) = b.cycle_count {
        attrs.push((String::from_str("cycle_count"), StateValue::Integer(c as u64)));
    }
    proof {
        assert(attrs.deep_view() =~~= spec_battery_attributes(b@));
    }
    let r = make_sensor(
        unique_id,
        name,
        StateValue::Text(crate::numfmt::u64_to_string(b.percentage as u64)),
        "sensor",
        Some("battery"),
        Some("%"),
        Some("measurement"),
        Some("mdi:battery"),
        attrs,
        true,
    );
    proof {
        assert(r@ =~~= spec_battery_level_sensor(b@, i as int, multi));
    }
    r
}

fn battery_charging_sensor(b: &crate::sensors::battery::BatteryInfo, i: u64, multi: bool) -> (r:
    SensorValue)
    ensures
        r@ == spec_battery_charging_sensor(b@, i as int, multi),
{
    let mut unique_id = String::from_str("battery_charging");
    let suffix = id_suffix(i, multi);
    unique_id.append(suffix.as_str());
    let mut name = String::from_str("Battery Charging");
    let nsuffix = name_suffix(i, multi);
    name.append(nsuffix.as_str());
    let r = make_sensor(
        unique_id,
        name,
        StateValue::Flag(b.is_charging),
        "binary_sensor",
        Some("battery_charging"),
        None,
        None,
        Some("mdi:battery-charging"),
        Vec::new(),
        true,
    );
    proof {
        assert(r@ =~~= spec_battery_charging_sensor(b@, i as int, multi));
    }
    r
}

fn uptime_sensor(d: &DynamicSystemInfo) -> (r: SensorValue)
    ensures
        r@ == spec_uptime_sensor(d@),
{
    let mut attrs: Vec<(String, StateValue)> = Vec::new();
    attrs.push((String::from_str("uptime_seconds"), StateValue::Integer(d.uptime_seconds)));
    attrs.push((String::from_str("days"), StateValue::Integer(d.uptime_seconds / 86400)));
    attrs.push((String::from_str("hours"), StateValue::Integer(d.uptime_seconds / 3600)));
    attrs.push(
        (String::from_str("minutes"), StateValue::Integer((d.uptime_seconds % 3600) / 60)),
    );
    let r = make_sensor(
        String::from_str("system_uptime"),
        String::from_str("System Uptime"),
        StateValue::Text(uptime_string(d.uptime_seconds)),
        "sensor",
        Some("duration"),
        Some("s"),
        Some("total_increasing"),
        Some("mdi:clock-outline"),
        attrs,
        true,
    );
    proof {
        assert(r@ =~~= spec_uptime_sensor(d@));
    }
    r
}

fn process_count_sensor(d: &DynamicSystemInfo) -> (r: SensorValue)
    ensures
        r@ == spec_process_count_sensor(d@),
{
    let r = make_sensor(
        String::from_str("process_count"),
        String::from_str("Process Count"),
        StateValue::Integer(d.process_count as u64),
        "sensor",
        None,
        Some("processes"),
        Some("measurement"),
        Some("mdi:format-list-numbered"),
        Vec::new(),
        true,
    );
    proof {
        assert(r@ =~~= spec_process_count_sensor(d@));
    }
    r
}


/// The CPU sensors of one poll, in catalog order, honouring enablement;
/// nothing when no CPU reading was sampled.
pub open spec fn spec_cpu_sensors(
    m: Seq<(Seq<char>, bool)>,
    c: Option<crate::sensors::cpu::CpuDataView>,
) -> Seq<SensorValueView> {
    match c {
        None => Seq::empty(),
        Some(c) => (if spec_is_enabled(m, "cpu_usage"@) {
            seq![spec_cpu_usage_sensor(c)]
        } else {
            Seq::empty()
        }) + (if spec_is_enabled(m, "cpu_frequency"@) {
            seq![spec_cpu_frequency_sensor(c)]
        } else {
            Seq::empty()
        }) + (if spec_is_enabled(m, "cpu_temperature"@) {
            seq![spec_cpu_temperature_sensor(c)]
        } else {
            Seq::empty()
        }),
    }
}

/// The memory sensors of one poll; the swap sensor only exists on
/// machines with swap configured.
pub open spec fn spec_memory_sensors(
    m: Seq<(Seq<char>, bool)>,
    mem: Option<crate::sensors::memory::MemoryDataView>,
) -> Seq<SensorValueView> {
    match mem {
        None => Seq::empty(),
        Some(mm) => (if spec_is_enabled(m, "memory_usage"@) {
            seq![spec_memory_usage_sensor(mm)]
        } else {
            Seq::empty()
        }) + (if spec_is_enabled(m, "memory_used"@) {
            seq![spec_memory_used_sensor(mm)]
        } else {
            Seq::empty()
        }) + (if spec_is_enabled(m, "swap_usage"@) && mm.swap_total_bytes > 0 {
            seq![spec_swap_usage_sensor(mm)]
        } else {
            Seq::empty()
        }),
    }
}

/// One disk usage sensor per partition.
pub open spec fn spec_disk_sensors(
    m: Seq<(Seq<char>, bool)>,
    d: Option<crate::sensors::disk::DiskDataView>,
) -> Seq<SensorValueView> {
    match d {
        None => Seq::empty(),
        Some(dd) => if spec_is_enabled(m, "disk_usage"@) {
            dd.partitions.map_values(|p: PartitionDataView| spec_disk_sensor(p))
        } else {
            Seq::empty()
        },
    }
}

/// The dynamic sensors of adapter `i`: one per figure the platform
/// source could report.
pub open spec fn spec_gpu_dyn_one(g: GpuInfoView, i: int, multi: bool) -> Seq<SensorValueView> {
    (match g.usage_tenths {
        Some(u) => seq![spec_gpu_usage_sensor(u, i, multi)],
        None => Seq::empty(),
    }) + (match g.temperature_tenths {
        Some(t) => seq![spec_gpu_temperature_sensor(t, i, multi)],
        None => Seq::empty(),
    }) + (match g.vram_used_mb {
        Some(v) => seq![spec_gpu_vram_sensor(v, i, multi)],
        None => Seq::empty(),
    })
}

pub open spec fn spec_gpu_dyn_list(gpus: Seq<GpuInfoView>, i: int) -> Seq<SensorValueView>
    decreases gpus.len() - i,
{
    if i < 0 || i >= gpus.len() {
        Seq::empty()
    } else {
        spec_gpu_dyn_one(gpus[i], i, gpus.len() > 1) + spec_gpu_dyn_list(gpus, i + 1)
    }
}

pub open spec fn spec_gpu_dynamic_sensors(
    m: Seq<(Seq<char>, bool)>,
    g: Option<crate::sensors::gpu::GpuDataView>,
) -> Seq<SensorValueView> {
    match g {
        None => Seq::empty(),
        Some(gd) => if spec_is_enabled(m, "gpu"@) {
            spec_gpu_dyn_list(gd.gpus, 0)
        } else {
            Seq::empty()
        },
    }
}

pub open spec fn spec_network_list(
    ifaces: Seq<NetworkInterfaceView>,
    i: int,
) -> Seq<SensorValueView>
    decreases ifaces.len() - i,
{
    if i < 0 || i >= ifaces.len() {
        Seq::empty()
    } else {
        seq![spec_network_rx_sensor(ifaces[i]), spec_network_tx_sensor(ifaces[i])]
            + spec_network_list(ifaces, i + 1)
    }
}

/// Two counters per interface: received and transmitted bytes.
pub open spec fn spec_network_sensors(
    m: Seq<(Seq<char>, bool)>,
    n: Option<crate::sensors::network::NetworkDataView>,
) -> Seq<SensorValueView> {
    match n {
        None => Seq::empty(),
        Some(nd) => if spec_is_enabled(m, "network"@) {
            spec_network_list(nd.interfaces, 0)
        } else {
            Seq::empty()
        },
    }
}

pub open spec fn spec_battery_list(bats: Seq<BatteryInfoView>, i: int) -> Seq<SensorValueView>
    decreases bats.len() - i,
{
    if i < 0 || i >= bats.len() {
        Seq::empty()
    } else {
        seq![
            spec_battery_level_sensor(bats[i], i, bats.len() > 1),
            spec_battery_charging_sensor(bats[i], i, bats.len() > 1),
        ] + spec_battery_list(bats, i + 1)
    }
}

/// A level sensor and a binary charging sensor per battery.
pub open spec fn spec_battery_sensors(
    m: Seq<(Seq<char>, bool)>,
    b: Option<crate::sensors::battery::BatteryDataView>,
) -> Seq<SensorValueView> {
    match b {
        None => Seq::empty(),
        Some(bd) => if spec_is_enabled(m, "battery"@) {
            spec_battery_list(bd.batteries, 0)
        } else {
            Seq::empty()
        },
    }
}

/// The uptime and process-count sensors of one poll.
pub open spec fn spec_system_dynamic_sensors(
    m: Seq<(Seq<char>, bool)>,
    d: Option<crate::sensors::system_info::DynamicSystemInfoView>,
) -> Seq<SensorValueView> {
    match d {
        None => Seq::empty(),
        Some(dd) => (if spec_is_enabled(m, "system_uptime"@) {
            seq![spec_uptime_sensor(dd)]
        } else {
            Seq::empty()
        }) + (if spec_is_enabled(m, "process_count"@) {
            seq![spec_process_count_sensor(dd)]
        } else {
            Seq::empty()
        }),
    }
}

/// Everything one dynamic collection cycle emits, in collection order.
pub open spec fn spec_collect_dynamic(
    m: Seq<(Seq<char>, bool)>,
    r: DynamicReadingsView,
) -> Seq<SensorValueView> {
    spec_cpu_sensors(m, r.cpu) + spec_memory_sensors(m, r.memory) + spec_disk_sensors(m, r.disk)
        + spec_gpu_dynamic_sensors(m, r.gpu) + spec_network_sensors(m, r.network)
        + spec_battery_sensors(m, r.battery) + spec_system_dynamic_sensors(m, r.system)
}


/// The CPU model identity sensor.
pub open spec fn spec_cpu_model_sensor(c: crate::sensors::cpu::CpuDataView) -> SensorValueView {
    SensorValueView {
        unique_id: "cpu_model"@,
        name: "CPU Model"@,
        state: StateValueView::Text(c.model),
        sensor_type: "sensor"@,
        device_class: None,
        unit_of_measurement: None,
        state_class: None,
        icon: Some("mdi:cpu-64-bit"@),
        attributes: seq![
            ("core_count"@, StateValueView::Integer(c.core_count)),
            ("logical_core_count"@, StateValueView::Integer(c.logical_core_count)),
        ],
        update_at_interval: false,
    }
}

/// The operating-system identity sensor: name and version joined.
pub open spec fn spec_os_version_sensor(sys: SystemInfoDataView) -> SensorValueView {
    SensorValueView {
        unique_id: "os_version"@,
        name: "OS Version"@,
        state: StateValueView::Text(sys.os_name + seq![' '] + sys.os_version),
        sensor_type: "sensor"@,
        device_class: None,
        unit_of_measurement: None,
        state_class: None,
        icon: Some("mdi:monitor"@),
        attributes: seq![
            ("os_name"@, StateValueView::Text(sys.os_name)),
            ("os_version"@, StateValueView::Text(sys.os_version)),
        ],
        update_at_interval: false,
    }
}

pub open spec fn spec_hostname_sensor(sys: SystemInfoDataView) -> SensorValueView {
    SensorValueView {
        unique_id: "hostname"@,
        name: "Hostname"@,
        state: StateValueView::Text(sys.hostname),
        sensor_type: "sensor"@,
        device_class: None,
        unit_of_measurement: None,
        state_class: None,
        icon: Some("mdi:desktop-tower"@),
        attributes: Seq::empty(),
        update_at_interval: false,
    }
}

/// The motherboard identity sensor; only exists when the platform
/// reports both manufacturer and model.
pub open spec fn spec_motherboard_sensor(mfr: Seq<char>, model: Seq<char>) -> SensorValueView {
    SensorValueView {
        unique_id: "motherboard"@,
        name: "Motherboard"@,
        state: StateValueView::Text(mfr + seq![' '] + model),
        sensor_type: "sensor"@,
        device_class: None,
        unit_of_measurement: None,
        state_class: None,
        icon: Some("mdi:expansion-card"@),
        attributes: seq![
            ("manufacturer"@, StateValueView::Text(mfr)),
            ("model"@, StateValueView::Text(model)),
        ],
        update_at_interval: false,
    }
}

/// The firmware-version attributes: vendor and release date when known.
pub open spec fn spec_bios_version_attributes(
    vendor: Option<Seq<char>>,
    date: Option<Seq<char>>,
) -> Seq<(Seq<char>, StateValueView)> {
    (match vendor {
        Some(v) => seq![("vendor"@, StateValueView::Text(v))],
        None => Seq::empty(),
    }) + (match date {
        Some(d) => seq![("release_date"@, StateValueView::Text(d))],
        None => Seq::empty(),
    })
}

pub open spec fn spec_bios_version_sensor(
    bios: Seq<char>,
    vendor: Option<Seq<char>>,
    date: Option<Seq<char>>,
) -> SensorValueView {
    SensorValueView {
        unique_id: "bios_version"@,
        name: "BIOS Version"@,
        state: StateValueView::Text(bios),
        sensor_type: "sensor"@,
        device_class: None,
        unit_of_measurement: None,
        state_class: None,
        icon: Some("mdi:chip"@),
        attributes: spec_bios_version_attributes(vendor, date),
        update_at_interval: false,
    }
}

pub open spec fn spec_bios_vendor_sensor(vendor: Seq<char>) -> SensorValueView {
    SensorValueView {
        unique_id: "bios_vendor"@,
        name: "BIOS Vendor"@,
        state: StateValueView::Text(vendor),
        sensor_type: "sensor"@,
        device_class: None,
        unit_of_measurement: None,
        state_class: None,
        icon: Some("mdi:chip"@),
        attributes: Seq::empty(),
        update_at_interval: false,
    }
}

pub open spec fn spec_bios_date_sensor(date: Seq<char>) -> SensorValueView {
    SensorValueView {
        unique_id: "bios_date"@,
        name: "BIOS Date"@,
        state: StateValueView::Text(date),
        sensor_type: "sensor"@,
        device_class: None,
        unit_of_measurement: None,
        state_class: None,
        icon: Some("mdi:calendar"@),
        attributes: Seq::empty(),
        update_at_interval: false,
    }
}

/// The last-boot sensor: the boot instant as an ISO 8601 timestamp.
pub open spec fn spec_last_boot_sensor(boot_time: u64) -> SensorValueView {
    SensorValueView {
        unique_id: "last_boot"@,
        name: "Last Boot"@,
        state: StateValueView::Text(spec_format_timestamp(boot_time as int)),
        sensor_type: "sensor"@,
        device_class: Some("timestamp"@),
        unit_of_measurement: None,
        state_class: None,
        icon: Some("mdi:restart"@),
        attributes: seq![("boot_timestamp"@, StateValueView::Integer(boot_time))],
        update_at_interval: false,
    }
}

pub open spec fn spec_logged_in_user_sensor(user: Seq<char>) -> SensorValueView {
    SensorValueView {
        unique_id: "logged_in_user"@,
        name: "Logged In User"@,
        state: StateValueView::Text(user),
        sensor_type: "sensor"@,
        device_class: None,
        unit_of_measurement: None,
        state_class: None,
        icon: Some("mdi:account"@),
        attributes: Seq::empty(),
        update_at_interval: false,
    }
}

/// The resolution sensor of display `i`; display suffixes are
/// one-based.
pub open spec fn spec_display_sensor(d: DisplayInfoView, i: int, multi: bool) -> SensorValueView {
    SensorValueView {
        unique_id: "display_resolution"@ + spec_id_suffix(i + 1, multi),
        name: "Display Resolution"@ + spec_name_suffix(i + 1, multi),
        state: StateValueView::Text(d.resolution),
        sensor_type: "sensor"@,
        device_class: None,
        unit_of_measurement: None,
        state_class: None,
        icon: Some("mdi:monitor"@),
        attributes: (seq![("adapter"@, StateValueView::Text(d.name))] + (match d.refresh_rate_hz {
            Some(hz) => seq![("refresh_rate_hz"@, StateValueView::Integer(hz as u64))],
            None => Seq::empty(),
        })),
        update_at_interval: false,
    }
}

/// The model identity sensor of adapter `i`, with vendor, driver and
/// video-memory facts as attributes when known.
pub open spec fn spec_gpu_model_sensor(g: GpuInfoView, i: int, multi: bool) -> SensorValueView {
    SensorValueView {
        unique_id: "gpu_model"@ + spec_id_suffix(i, multi),
        name: "GPU Model"@ + spec_name_suffix(i, multi),
        state: StateValueView::Text(g.name),
        sensor_type: "sensor"@,
        device_class: None,
        unit_of_measurement: None,
        state_class: None,
        icon: Some("mdi:expansion-card"@),
        attributes: (seq![("vendor"@, StateValueView::Text(g.vendor))] + (match g.driver_version {
            Some(d) => seq![("driver_version"@, StateValueView::Text(d))],
            None => Seq::empty(),
        }) + (match g.vram_total_mb {
            Some(v) => seq![("vram_total_mb"@, StateValueView::Integer(v))],
            None => Seq::empty(),
        })),
        update_at_interval: false,
    }
}

/// The installed-memory sensor: total gibibytes with one decimal place.
pub open spec fn spec_memory_total_sensor(
    mm: crate::sensors::memory::MemoryDataView,
) -> SensorValueView {
    SensorValueView {
        unique_id: "memory_total"@,
        name: "Memory Total"@,
        state: StateValueView::Text(
            spec_tenths_str(crate::numfmt::spec_gib_tenths(mm.total_bytes as int)),
        ),
        sensor_type: "sensor"@,
        device_class: Some("data_size"@),
        unit_of_measurement: Some("GB"@),
        state_class: None,
        icon: Some("mdi:memory"@),
        attributes: Seq::empty(),
        update_at_interval: false,
    }
}

pub open spec fn spec_display_list(ds: Seq<DisplayInfoView>, i: int) -> Seq<SensorValueView>
    decreases ds.len() - i,
{
    if i < 0 || i >= ds.len() {
        Seq::empty()
    } else {
        seq![spec_display_sensor(ds[i], i, ds.len() > 1)] + spec_display_list(ds, i + 1)
    }
}

pub open spec fn spec_gpu_model_list(gpus: Seq<GpuInfoView>, i: int) -> Seq<SensorValueView>
    decreases gpus.len() - i,
{
    if i < 0 || i >= gpus.len() {
        Seq::empty()
    } else {
        seq![spec_gpu_model_sensor(gpus[i], i, gpus.len() > 1)] + spec_gpu_model_list(gpus, i + 1)
    }
}


/// The identity sensors drawn from the CPU model and the board facts.
pub open spec fn spec_static_front_a(
    m: Seq<(Seq<char>, bool)>,
    r: StaticReadingsView,
) -> Seq<SensorValueView> {
    (match r.cpu {
        Some(c) => if spec_is_enabled(m, "cpu_model"@) {
            seq![spec_cpu_model_sensor(c)]
        } else {
            Seq::empty()
        },
        None => Seq::empty(),
    }) + (if spec_is_enabled(m, "os_version"@) {
        seq![spec_os_version_sensor(r.system)]
    } else {
        Seq::empty()
    }) + (if spec_is_enabled(m, "hostname"@) {
        seq![spec_hostname_sensor(r.system)]
    } else {
        Seq::empty()
    }) + (if spec_is_enabled(m, "motherboard"@) && r.system.motherboard_manufacturer is Some
        && r.system.motherboard_model is Some {
        seq![
            spec_motherboard_sensor(
                r.system.motherboard_manufacturer->0,
                r.system.motherboard_model->0,
            ),
        ]
    } else {
        Seq::empty()
    })
}

/// The identity sensors drawn from the firmware facts and boot time.
pub open spec fn spec_static_front_b(
    m: Seq<(Seq<char>, bool)>,
    r: StaticReadingsView,
) -> Seq<SensorValueView> {
    (match r.system.bios_version {
        Some(b) => if spec_is_enabled(m, "bios_version"@) {
            seq![spec_bios_version_sensor(b, r.system.bios_vendor, r.system.bios_release_date)]
        } else {
            Seq::empty()
        },
        None => Seq::empty(),
    }) + (match r.system.bios_vendor {
        Some(v) => if spec_is_enabled(m, "bios_vendor"@) {
            seq![spec_bios_vendor_sensor(v)]
        } else {
            Seq::empty()
        },
        None => Seq::empty(),
    }) + (match r.system.bios_release_date {
        Some(d) => if spec_is_enabled(m, "bios_date"@) {
            seq![spec_bios_date_sensor(d)]
        } else {
            Seq::empty()
        },
        None => Seq::empty(),
    }) + (if spec_is_enabled(m, "last_boot"@) {
        seq![spec_last_boot_sensor(r.system.boot_time)]
    } else {
        Seq::empty()
    }) + (match r.system.logged_in_user {
        Some(u) => if spec_is_enabled(m, "logged_in_user"@) {
            seq![spec_logged_in_user_sensor(u)]
        } else {
            Seq::empty()
        },
        None => Seq::empty(),
    })
}

/// The front of the static collection: the single-instance identity
/// sensors, in collection order.
pub open spec fn spec_static_front(
    m: Seq<(Seq<char>, bool)>,
    r: StaticReadingsView,
) -> Seq<SensorValueView> {
    spec_static_front_a(m, r) + spec_static_front_b(m, r)
}

/// The tail of the static collection: the multi-instance display and
/// adapter sensors, then installed memory.
pub open spec fn spec_static_tail(
    m: Seq<(Seq<char>, bool)>,
    r: StaticReadingsView,
) -> Seq<SensorValueView> {
    (if spec_is_enabled(m, "display"@) {
        spec_display_list(r.system.displays, 0)
    } else {
        Seq::<SensorValueView>::empty()
    }) + (match r.gpu {
        Some(gd) => if spec_is_enabled(m, "gpu"@) {
            spec_gpu_model_list(gd.gpus, 0)
        } else {
            Seq::empty()
        },
        None => Seq::<SensorValueView>::empty(),
    }) + (match r.memory {
        Some(mm) => if spec_is_enabled(m, "memory_total"@) {
            seq![spec_memory_total_sensor(mm)]
        } else {
            Seq::empty()
        },
        None => Seq::<SensorValueView>::empty(),
    })
}

/// Everything one static collection emits, in collection order: the
/// identity facts, each gated by enablement and by whether the platform
/// reported it.
pub open spec fn spec_collect_static(
    m: Seq<(Seq<char>, bool)>,
    r: StaticReadingsView,
) -> Seq<SensorValueView> {
    spec_static_front(m, r) + spec_static_tail(m, r)
}


fn cpu_model_sensor(c: &CpuData) -> (r: SensorValue)
    ensures
        r@ == spec_cpu_model_sensor(c@),
{
    let mut attrs: Vec<(String, StateValue)> = Vec::new();
    attrs.push((String::from_str("core_count"), StateValue::Integer(c.core_count)));
    attrs.push(
        (String::from_str("logical_core_count"), StateValue::Integer(c.logical_core_count)),
    );
    let r = make_sensor(
        String::from_str("cpu_model"),
        String::from_str("CPU Model"),
        StateValue::Text(c.model.clone()),
        "sensor",
        None,
        None,
        None,
        Some("mdi:cpu-64-bit"),
        attrs,
        false,
    );
    proof {
        assert(r@ =~~= spec_cpu_model_sensor(c@));
    }
    r
}

fn os_version_sensor(sys: &SystemInfoData) -> (r: SensorValue)
    ensures
        r@ == spec_os_version_sensor(sys@),
{
    let mut joined = sys.os_name.clone();
    crate::strutil::push_char(&mut joined, ' ');
    joined.append(sys.os_version.as_str());
    let mut attrs: Vec<(String, StateValue)> = Vec::new();
    attrs.push((String::from_str("os_name"), StateValue::Text(sys.os_name.clone())));
    attrs.push((String::from_str("os_version"), StateValue::Text(sys.os_version.clone())));
    proof {
        assert(joined@ =~= sys@.os_name + seq![' '] + sys@.os_version);
    }
    let r = make_sensor(
        String::from_str("os_version"),
        String::from_str("OS Version"),
        StateValue::Text(joined),
        "sensor",
        None,
        None,
        None,
        Some("mdi:monitor"),
        attrs,
        false,
    );
    proof {
        assert(r@ =~~= spec_os_version_sensor(sys@));
    }
    r
}

fn hostname_sensor(sys: &SystemInfoData) -> (r: SensorValue)
    ensures
        r@ == spec_hostname_sensor(sys@),
{
    let r = make_sensor(
        String::from_str("hostname"),
        String::from_str("Hostname"),
        StateValue::Text(sys.hostname.clone()),
        "sensor",
        None,
        None,
        None,
        Some("mdi:desktop-tower"),
        Vec::new(),
        false,
    );
    proof {
        assert(r@ =~~= spec_hostname_sensor(sys@));
    }
    r
}

fn motherboard_sensor(mfr: &String, model: &String) -> (r: SensorValue)
    ensures
        r@ == spec_motherboard_sensor(mfr@, model@),
{
    let mut joined = mfr.clone();
    crate::strutil::push_char(&mut joined, ' ');
    joined.append(model.as_str());
    let mut attrs: Vec<(String, StateValue)> = Vec::new();
    attrs.push((String::from_str("manufacturer"), StateValue::Text(mfr.clone())));
    attrs.push((String::from_str("model"), StateValue::Text(model.clone())));
    proof {
        assert(joined@ =~= mfr@ + seq![' '] + model@);
    }
    let r = make_sensor(
        String::from_str("motherboard"),
        String::from_str("Motherboard"),
        StateValue::Text(joined),
        "sensor",
        None,
        None,
        None,
        Some("mdi:expansion-card"),
        attrs,
        false,
    );
    proof {
        assert(r@ =~~= spec_motherboard_sensor(mfr@, model@));
    }
    r
}

fn bios_version_sensor(bios: &String, vendor: &Option<String>, date: &Option<String>) -> (r:
    SensorValue)
    ensures
        r@ == spec_bios_version_sensor(bios@, vendor.deep_view(), date.deep_view()),
{
    let mut attrs: Vec<(String, StateValue)> = Vec::new();
    if let Some(v) = vendor {
        attrs.push((String::from_str("vendor"), StateValue::Text(v.clone())));
    }
    if let Some(d) = date {
        attrs.push((String::from_str("release_date"), StateValue::Text(d.clone())));
    }
    proof {
        assert(attrs.deep_view() =~~= spec_bios_version_attributes(
            vendor.deep_view(),
            date.deep_view(),
        ));
    }
    let r = make_sensor(
        String::from_str("bios_version"),
        String::from_str("BIOS Version"),
        StateValue::Text(bios.clone()),
        "sensor",
        None,
        None,
        None,
        Some("mdi:chip"),
        attrs,
        false,
    );
    proof {
        assert(r@ =~~= spec_bios_version_sensor(bios@, vendor.deep_view(), date.deep_view()));
    }
    r
}

fn bios_vendor_sensor(vendor: &String) -> (r: SensorValue)
    ensures
        r@ == spec_bios_vendor_sensor(vendor@),
{
    let r = make_sensor(
        String::from_str("bios_vendor"),
        String::from_str("BIOS Vendor"),
        StateValue::Text(vendor.clone()),
        "sensor",
        None,
        None,
        None,
        Some("mdi:chip"),
        Vec::new(),
        false,
    );
    proof {
        assert(r@ =~~= spec_bios_vendor_sensor(vendor@));
    }
    r
}

fn bios_date_sensor(date: &String) -> (r: SensorValue)
    ensures
        r@ == spec_bios_date_sensor(date@),
{
    let r = make_sensor(
        String::from_str("bios_date"),
        String::from_str("BIOS Date"),
        StateValue::Text(date.clone()),
        "sensor",
        None,
        None,
        None,
        Some("mdi:calendar"),
        Vec::new(),
        false,
    );
    proof {
        assert(r@ =~~= spec_bios_date_sensor(date@));
    }
    r
}

fn last_boot_sensor(boot_time: u64) -> (r: SensorValue)
    ensures
        r@ == spec_last_boot_sensor(boot_time),
{
    let mut attrs: Vec<(String, StateValue)> = Vec::new();
    attrs.push((String::from_str("boot_timestamp"), StateValue::Integer(boot_time)));
    let r = make_sensor(
        String::from_str("last_boot"),
        String::from_str("Last Boot"),
        StateValue::Text(chrono_from_timestamp(boot_time)),
        "sensor",
        Some("timestamp"),
        None,
        None,
        Some("mdi:restart"),
        attrs,
        false,
    );
    proof {
        assert(r@ =~~= spec_last_boot_sensor(boot_time));
    }
    r
}

fn logged_in_user_sensor(user: &String) -> (r: SensorValue)
    ensures
        r@ == spec_logged_in_user_sensor(user@),
{
    let r = make_sensor(
        String::from_str("logged_in_user"),
        String::from_str("Logged In User"),
        StateValue::Text(user.clone()),
        "sensor",
        None,
        None,
        None,
        Some("mdi:account"),
        Vec::new(),
        false,
    );
    proof {
        assert(r@ =~~= spec_logged_in_user_sensor(user@));
    }
    r
}

fn display_sensor(d: &crate::sensors::system_info::DisplayInfo, i: u64, multi: bool) -> (r:
    SensorValue)
    requires
        i < u64::MAX,
    ensures
        r@ == spec_display_sensor(d@, i as int, multi),
{
    let mut unique_id = String::from_str("display_resolution");
    let suffix = id_suffix(i + 1, multi);
    unique_id.append(suffix.as_str());
    let mut name = String::from_str("Display Resolution");
    let nsuffix = name_suffix(i + 1, multi);
    name.append(nsuffix.as_str());
    let mut attrs: Vec<(String, StateValue)> = Vec::new();
    attrs.push((String::from_str("adapter"), StateValue::Text(d.name.clone())));
    if let Some(hz) = d.refresh_rate_hz {
        attrs.push((String::from_str("refresh_rate_hz"), StateValue::Integer(hz as u64)));
    }
    let r = make_sensor(
        unique_id,
        name,
        StateValue::Text(d.resolution.clone()),
        "sensor",
        None,
        None,
        None,
        Some("mdi:monitor"),
        attrs,
        false,
    );
    proof {
        assert(r@ =~~= spec_display_sensor(d@, i as int, multi));
    }
    r
}

fn gpu_model_sensor(g: &crate::sensors::gpu::GpuInfo, i: u64, multi: bool) -> (r: SensorValue)
    ensures
        r@ == spec_gpu_model_sensor(g@, i as int, multi),
{
    let mut unique_id = String::from_str("gpu_model");
    let suffix = id_suffix(i, multi);
    unique_id.append(suffix.as_str());
    let mut name = String::from_str("GPU Model");
    let nsuffix = name_suffix(i, multi);
    name.append(nsuffix.as_str());
    let mut attrs: Vec<(String, StateValue)> = Vec::new();
    attrs.push((String::from_str("vendor"), StateValue::Text(g.vendor.clone())));
    if let Some(d) = &g.driver_version {
        attrs.push((String::from_str("driver_version"), StateValue::Text(d.clone())));
    }
    if let Some(v) = g.vram_total_mb {
        attrs.push((String::from_str("vram_total_mb"), StateValue::Integer(v)));
    }
    let r = make_sensor(
        unique_id,
        name,
        StateValue::Text(g.name.clone()),
        "sensor",
        None,
        None,
        None,
        Some("mdi:expansion-card"),
        attrs,
        false,
    );
    proof {
        assert(r@ =~~= spec_gpu_model_sensor(g@, i as int, multi));
    }
    r
}

fn memory_total_sensor(mm: &MemoryData) -> (r: SensorValue)
    ensures
        r@ == spec_memory_total_sensor(mm@),
{
    let r = make_sensor(
        String::from_str("memory_total"),
        String::from_str("Memory Total"),
        StateValue::Text(crate::numfmt::format_tenths(crate::numfmt::gib_tenths(mm.total_bytes))),
        "sensor",
        Some("data_size"),
        Some("GB"),
        None,
        Some("mdi:memory"),
        Vec::new(),
        false,
    );
    proof {
        assert(r@ =~~= spec_memory_total_sensor(mm@));
    }
    r
}


proof fn lemma_gpu_dyn_list_interval(gpus: Seq<GpuInfoView>, i: int)
    ensures
        forall|k: int|
            0 <= k < spec_gpu_dyn_list(gpus, i).len() ==> (#[trigger] spec_gpu_dyn_list(
                gpus,
                i,
            )[k]).update_at_interval,
    decreases gpus.len() - i,
{
    if 0 <= i < gpus.len() {
        lemma_gpu_dyn_list_interval(gpus, i + 1);
    }
}

proof fn lemma_network_list_interval(ifaces: Seq<NetworkInterfaceView>, i: int)
    ensures
        forall|k: int|
            0 <= k < spec_network_list(ifaces, i).len() ==> (#[trigger] spec_network_list(
                ifaces,
                i,
            )[k]).update_at_interval,
    decreases ifaces.len() - i,
{
    if 0 <= i < ifaces.len() {
        lemma_network_list_interval(ifaces, i + 1);
    }
}

proof fn lemma_battery_list_interval(bats: Seq<BatteryInfoView>, i: int)
    ensures
        forall|k: int|
            0 <= k < spec_battery_list(bats, i).len() ==> (#[trigger] spec_battery_list(
                bats,
                i,
            )[k]).update_at_interval,
    decreases bats.len() - i,
{
    if 0 <= i < bats.len() {
        lemma_battery_list_interval(bats, i + 1);
    }
}

/// Every sensor a dynamic collection emits is marked as re-sampling at
/// every interval, whatever the enablement map and readings hold.
pub proof fn lemma_dynamic_sensors_update_at_interval(
    m: Seq<(Seq<char>, bool)>,
    r: DynamicReadingsView,
)
    ensures
        forall|i: int|
            0 <= i < spec_collect_dynamic(m, r).len() ==> (#[trigger] spec_collect_dynamic(
                m,
                r,
            )[i]).update_at_interval,
{
    if let Some(gd) = r.gpu {
        lemma_gpu_dyn_list_interval(gd.gpus, 0);
    }
    if let Some(nd) = r.network {
        lemma_network_list_interval(nd.interfaces, 0);
    }
    if let Some(bd) = r.battery {
        lemma_battery_list_interval(bd.batteries, 0);
    }
}

proof fn lemma_display_list_static(ds: Seq<DisplayInfoView>, i: int)
    ensures
        forall|k: int|
            0 <= k < spec_display_list(ds, i).len() ==> !(#[trigger] spec_display_list(
                ds,
                i,
            )[k]).update_at_interval,
    decreases ds.len() - i,
{
    if 0 <= i < ds.len() {
        lemma_display_list_static(ds, i + 1);
    }
}

proof fn lemma_gpu_model_list_static(gpus: Seq<GpuInfoView>, i: int)
    ensures
        forall|k: int|
            0 <= k < spec_gpu_model_list(gpus, i).len() ==> !(#[trigger] spec_gpu_model_list(
                gpus,
                i,
            )[k]).update_at_interval,
    decreases gpus.len() - i,
{
    if 0 <= i < gpus.len() {
        lemma_gpu_model_list_static(gpus, i + 1);
    }
}

/// Every sensor a static collection emits is an identity fact, collected
/// once and not re-sampled on the polling cadence.
#[verifier::spinoff_prover]
#[verifier::rlimit(100)]
pub proof fn lemma_static_sensors_collected_once(
    m: Seq<(Seq<char>, bool)>,
    r: StaticReadingsView,
)
    ensures
        forall|i: int|
            0 <= i < spec_collect_static(m, r).len() ==> !(#[trigger] spec_collect_static(
                m,
                r,
            )[i]).update_at_interval,
{
    lemma_display_list_static(r.system.displays, 0);
    if let Some(gd) = r.gpu {
        lemma_gpu_model_list_static(gd.gpus, 0);
    }
    assert forall|i: int|
        0 <= i < spec_static_front_a(m, r).len() implies !(#[trigger] spec_static_front_a(
        m,
        r,
    )[i]).update_at_interval by {}
    assert forall|i: int|
        0 <= i < spec_static_front_b(m, r).len() implies !(#[trigger] spec_static_front_b(
        m,
        r,
    )[i]).update_at_interval by {}
    assert forall|i: int|
        0 <= i < spec_static_tail(m, r).len() implies !(#[trigger] spec_static_tail(
        m,
        r,
    )[i]).update_at_interval by {}
}

/// Collecting dynamic sensors is a pure function of the enablement map
/// and the readings: it has no failure outcome at all, and repeating a
/// collection over the same readings yields the same values, so calling
/// it again immediately can never fail merely from repetition (a second
/// poll may of course sample different readings and so differ in
/// values).
pub proof fn lemma_collect_dynamic_repeatable(
    m: Seq<(Seq<char>, bool)>,
    r1: DynamicReadingsView,
    r2: DynamicReadingsView,
)
    ensures
        r1 == r2 ==> spec_collect_dynamic(m, r1) == spec_collect_dynamic(m, r2),
{
}

/// Collects sensor readings into the uniform wire-ready value model,
/// honouring the per-sensor enablement map.
#[derive(Debug)]
pub struct SensorCollector {
    pub enabled_sensors: EnabledSensors,
}

impl SensorCollector {
    pub fn new(enabled_sensors: &EnabledSensors) -> (r: SensorCollector)
        ensures
            r.enabled_sensors@ == enabled_sensors@,
    {
        SensorCollector { enabled_sensors: enabled_sensors.duplicate() }
    }

    /// Whether the sensor `id` is currently emitted.
    pub fn is_enabled(&self, id: &str) -> (r: bool)
        ensures
            r == spec_is_enabled(self.enabled_sensors@, id@),
    {
        match self.enabled_sensors.get(id) {
            Some(b) => b,
            None => default_enabled(id),
        }
    }

    /// Replaces the enablement map atomically.
    pub fn set_enabled_sensors(&mut self, enabled: EnabledSensors)
        ensures
            final(self).enabled_sensors@ == enabled@,
    {
        self.enabled_sensors = enabled;
    }

    /// Reports every catalog entry with its current enablement,
    /// regardless of whether it is enabled.
    #[verifier::rlimit(100)]
    pub fn get_sensor_list(&self) -> (r: Vec<SensorListItem>)
        ensures
            r.deep_view() == spec_sensor_list(self.enabled_sensors@),
            r.len() == spec_catalog().len(),
    {
        let ghost m = self.enabled_sensors@;
        let mut r: Vec<SensorListItem> = Vec::new();
        proof {
            assert(r.deep_view() =~= spec_sensor_list(m).take(0));
        }
        self.push_list_item(&mut r, "cpu_usage", "CPU Usage", true);
        proof {
            assert(spec_sensor_list(m).take(1) =~= spec_sensor_list(m).take(0).push(spec_sensor_list(m)[0]));
            assert(r.deep_view() =~= spec_sensor_list(m).take(1));
        }
        self.push_list_item(&mut r, "cpu_frequency", "CPU Frequency", true);
        proof {
            assert(spec_sensor_list(m).take(2) =~= spec_sensor_list(m).take(1).push(spec_sensor_list(m)[1]));
            assert(r.deep_view() =~= spec_sensor_list(m).take(2));
        }
        self.push_list_item(&mut r, "cpu_temperature", "CPU Temperature", true);
        proof {
            assert(spec_sensor_list(m).take(3) =~= spec_sensor_list(m).take(2).push(spec_sensor_list(m)[2]));
            assert(r.deep_view() =~= spec_sensor_list(m).take(3));
        }
        self.push_list_item(&mut r, "cpu_model", "CPU Model", false);
        proof {
            assert(spec_sensor_list(m).take(4) =~= spec_sensor_list(m).take(3).push(spec_sensor_list(m)[3]));
            assert(r.deep_view() =~= spec_sensor_list(m).take(4));
        }
        self.push_list_item(&mut r, "memory_usage", "Memory Usage", true);
        proof {
            assert(spec_sensor_list(m).take(5) =~= spec_sensor_list(m).take(4).push(spec_sensor_list(m)[4]));
            assert(r.deep_view() =~= spec_sensor_list(m).take(5));
        }
        self.push_list_item(&mut r, "memory_used", "Memory Used", true);
        proof {
            assert(spec_sensor_list(m).take(6) =~= spec_sensor_list(m).take(5).push(spec_sensor_list(m)[5]));
            assert(r.deep_view() =~= spec_sensor_list(m).take(6));
        }
        self.push_list_item(&mut r, "memory_total", "Memory Total", false);
        proof {
            assert(spec_sensor_list(m).take(7) =~= spec_sensor_list(m).take(6).push(spec_sensor_list(m)[6]));
            assert(r.deep_view() =~= spec_sensor_list(m).take(7));
        }
        self.push_list_item(&mut r, "swap_usage", "Swap Usage", true);
        proof {
            assert(spec_sensor_list(m).take(8) =~= spec_sensor_list(m).take(7).push(spec_sensor_list(m)[7]));
            assert(r.deep_view() =~= spec_sensor_list(m).take(8));
        }
        self.push_list_item(&mut r, "disk_usage", "Disk Usage", true);
        proof {
            assert(spec_sensor_list(m).take(9) =~= spec_sensor_list(m).take(8).push(spec_sensor_list(m)[8]));
            assert(r.deep_view() =~= spec_sensor_list(m).take(9));
        }
        self.push_list_item(&mut r, "gpu", "GPU Sensors", true);
        proof {
            assert(spec_sensor_list(m).take(10) =~= spec_sensor_list(m).take(9).push(spec_sensor_list(m)[9]));
            assert(r.deep_view() =~= spec_sensor_list(m).take(10));
        }
        self.push_list_item(&mut r, "network", "Network Sensors", true);
        proof {
            assert(spec_sensor_list(m).take(11) =~= spec_sensor_list(m).take(10).push(spec_sensor_list(m)[10]));
            assert(r.deep_view() =~= spec_sensor_list(m).take(11));
        }
        self.push_list_item(&mut r, "battery", "Battery Sensors", true);
        proof {
            assert(spec_sensor_list(m).take(12) =~= spec_sensor_list(m).take(11).push(spec_sensor_list(m)[11]));
            assert(r.deep_view() =~= spec_sensor_list(m).take(12));
        }
        self.push_list_item(&mut r, "os_version", "OS Version", false);
        proof {
            assert(spec_sensor_list(m).take(13) =~= spec_sensor_list(m).take(12).push(spec_sensor_list(m)[12]));
            assert(r.deep_view() =~= spec_sensor_list(m).take(13));
        }
        self.push_list_item(&mut r, "hostname", "Hostname", false);
        proof {
            assert(spec_sensor_list(m).take(14) =~= spec_sensor_list(m).take(13).push(spec_sensor_list(m)[13]));
            assert(r.deep_view() =~= spec_sensor_list(m).take(14));
        }
        self.push_list_item(&mut r, "motherboard", "Motherboard", false);
        proof {
            assert(spec_sensor_list(m).take(15) =~= spec_sensor_list(m).take(14).push(spec_sensor_list(m)[14]));
            assert(r.deep_view() =~= spec_sensor_list(m).take(15));
        }
        self.push_list_item(&mut r, "bios_version", "BIOS Version", false);
        proof {
            assert(spec_sensor_list(m).take(16) =~= spec_sensor_list(m).take(15).push(spec_sensor_list(m)[15]));
            assert(r.deep_view() =~= spec_sensor_list(m).take(16));
        }
        self.push_list_item(&mut r, "bios_vendor", "BIOS Vendor", false);
        proof {
            assert(spec_sensor_list(m).take(17) =~= spec_sensor_list(m).take(16).push(spec_sensor_list(m)[16]));
            assert(r.deep_view() =~= spec_sensor_list(m).take(17));
        }
        self.push_list_item(&mut r, "bios_date", "BIOS Date", false);
        proof {
            assert(spec_sensor_list(m).take(18) =~= spec_sensor_list(m).take(17).push(spec_sensor_list(m)[17]));
            assert(r.deep_view() =~= spec_sensor_list(m).take(18));
        }
        self.push_list_item(&mut r, "system_uptime", "System Uptime", true);
        proof {
            assert(spec_sensor_list(m).take(19) =~= spec_sensor_list(m).take(18).push(spec_sensor_list(m)[18]));
            assert(r.deep_view() =~= spec_sensor_list(m).take(19));
        }
        self.push_list_item(&mut r, "process_count", "Process Count", true);
        proof {
            assert(spec_sensor_list(m).take(20) =~= spec_sensor_list(m).take(19).push(spec_sensor_list(m)[19]));
            assert(r.deep_view() =~= spec_sensor_list(m).take(20));
        }
        self.push_list_item(&mut r, "last_boot", "Last Boot Time", false);
        proof {
            assert(spec_sensor_list(m).take(21) =~= spec_sensor_list(m).take(20).push(spec_sensor_list(m)[20]));
            assert(r.deep_view() =~= spec_sensor_list(m).take(21));
        }
        self.push_list_item(&mut r, "logged_in_user", "Logged In User", false);
        proof {
            assert(spec_sensor_list(m).take(22) =~= spec_sensor_list(m).take(21).push(spec_sensor_list(m)[21]));
            assert(r.deep_view() =~= spec_sensor_list(m).take(22));
        }
        self.push_list_item(&mut r, "display", "Display Resolution", false);
        proof {
            assert(spec_sensor_list(m).take(23) =~= spec_sensor_list(m).take(22).push(spec_sensor_list(m)[22]));
            assert(r.deep_view() =~= spec_sensor_list(m).take(23));
        }
        proof {
            assert(spec_sensor_list(m).take(23) =~= spec_sensor_list(m));
        }
        r
    }


    fn cpu_group(&self, cpu: &Option<CpuData>, out: &mut Vec<SensorValue>)
        ensures
            final(out).deep_view() == old(out).deep_view() + spec_cpu_sensors(
                self.enabled_sensors@,
                cpu.deep_view(),
            ),
    {
        let ghost base = out.deep_view();
        if let Some(c) = cpu {
            if self.is_enabled("cpu_usage") {
                out.push(cpu_usage_sensor(c));
            }
            if self.is_enabled("cpu_frequency") {
                out.push(cpu_frequency_sensor(c));
            }
            if self.is_enabled("cpu_temperature") {
                out.push(cpu_temperature_sensor(c));
            }
        }
        proof {
            assert(out.deep_view() =~~= base + spec_cpu_sensors(
                self.enabled_sensors@,
                cpu.deep_view(),
            ));
        }
    }

    fn memory_group(&self, mem: &Option<MemoryData>, out: &mut Vec<SensorValue>)
        ensures
            final(out).deep_view() == old(out).deep_view() + spec_memory_sensors(
                self.enabled_sensors@,
                mem.deep_view(),
            ),
    {
        let ghost base = out.deep_view();
        if let Some(mm) = mem {
            if self.is_enabled("memory_usage") {
                out.push(memory_usage_sensor(mm));
            }
            if self.is_enabled("memory_used") {
                out.push(memory_used_sensor(mm));
            }
            if self.is_enabled("swap_usage") && mm.swap_total_bytes > 0 {
                out.push(swap_usage_sensor(mm));
            }
        }
        proof {
            assert(out.deep_view() =~~= base + spec_memory_sensors(
                self.enabled_sensors@,
                mem.deep_view(),
            ));
        }
    }

    fn disk_group(&self, disk: &Option<DiskData>, out: &mut Vec<SensorValue>)
        ensures
            final(out).deep_view() == old(out).deep_view() + spec_disk_sensors(
                self.enabled_sensors@,
                disk.deep_view(),
            ),
    {
        let ghost base = out.deep_view();
        if let Some(dd) = disk {
            if self.is_enabled("disk_usage") {
                let n = dd.partitions.len();
                let mut i: usize = 0;
                while i < n
                    invariant
                        n == dd.partitions.len(),
                        i <= n,
                        out.deep_view() =~~= base + dd.partitions.deep_view().take(
                            i as int,
                        ).map_values(|p: PartitionDataView| spec_disk_sensor(p)),
                    decreases n - i,
                {
                    let ghost pre = out.deep_view();
                    let sv = disk_sensor(&dd.partitions[i]);
                    proof {
                        assert(dd.partitions.deep_view()[i as int] == dd.partitions@[i as int]@);
                        assert(sv@ == spec_disk_sensor(dd.partitions.deep_view()[i as int]));
                    }
                    out.push(sv);
                    proof {
                        assert(out.deep_view() =~~= pre.push(sv@));
                        assert(dd.partitions.deep_view().take(i + 1) =~~= dd.partitions.deep_view()
                            .take(i as int).push(dd.partitions.deep_view()[i as int]));
                        assert(dd.partitions.deep_view().take(i + 1).map_values(
                            |p: PartitionDataView| spec_disk_sensor(p),
                        ) =~~= dd.partitions.deep_view().take(i as int).map_values(
                            |p: PartitionDataView| spec_disk_sensor(p),
                        ).push(spec_disk_sensor(dd.partitions.deep_view()[i as int])));
                        assert(out.deep_view() =~~= base + dd.partitions.deep_view().take(
                            i + 1,
                        ).map_values(|p: PartitionDataView| spec_disk_sensor(p)));
                    }
                    i = i + 1;
                }
                proof {
                    assert(dd.partitions.deep_view().take(n as int) =~~= dd.partitions.deep_view());
                }
            }
        }
        proof {
            assert(out.deep_view() =~~= base + spec_disk_sensors(
                self.enabled_sensors@,
                disk.deep_view(),
            ));
        }
    }

    fn gpu_group(&self, gpu: &Option<GpuData>, out: &mut Vec<SensorValue>)
        ensures
            final(out).deep_view() == old(out).deep_view() + spec_gpu_dynamic_sensors(
                self.enabled_sensors@,
                gpu.deep_view(),
            ),
    {
        let ghost base = out.deep_view();
        if let Some(gd) = gpu {
            if self.is_enabled("gpu") {
                let n = gd.gpus.len();
                let multi = n > 1;
                let ghost gv = gd.gpus.deep_view();
                let mut i: usize = 0;
                while i < n
                    invariant
                        n == gd.gpus.len(),
                        gv == gd.gpus.deep_view(),
                        multi == (n > 1),
                        i <= n,
                        out.deep_view() + spec_gpu_dyn_list(gv, i as int) =~~= base
                            + spec_gpu_dyn_list(gv, 0),
                    decreases n - i,
                {
                    let ghost before = out.deep_view();
                    let g = &gd.gpus[i];
                    if let Some(u) = g.usage_tenths {
                        out.push(gpu_usage_sensor(u, i as u64, multi));
                    }
                    if let Some(t) = g.temperature_tenths {
                        out.push(gpu_temperature_sensor(t, i as u64, multi));
                    }
                    if let Some(v) = g.vram_used_mb {
                        out.push(gpu_vram_sensor(v, i as u64, multi));
                    }
                    proof {
                        assert(out.deep_view() =~~= before + spec_gpu_dyn_one(
                            gv[i as int],
                            i as int,
                            multi,
                        ));
                        assert(out.deep_view() + spec_gpu_dyn_list(gv, i + 1) =~~= base
                            + spec_gpu_dyn_list(gv, 0));
                    }
                    i = i + 1;
                }
            }
        }
        proof {
            assert(out.deep_view() =~~= base + spec_gpu_dynamic_sensors(
                self.enabled_sensors@,
                gpu.deep_view(),
            ));
        }
    }

    fn network_group(&self, network: &Option<NetworkData>, out: &mut Vec<SensorValue>)
        ensures
            final(out).deep_view() == old(out).deep_view() + spec_network_sensors(
                self.enabled_sensors@,
                network.deep_view(),
            ),
    {
        let ghost base = out.deep_view();
        if let Some(nd) = network {
            if self.is_enabled("network") {
                let n = nd.interfaces.len();
                let ghost nv = nd.interfaces.deep_view();
                let mut i: usize = 0;
                while i < n
                    invariant
                        n == nd.interfaces.len(),
                        nv == nd.interfaces.deep_view(),
                        i <= n,
                        out.deep_view() + spec_network_list(nv, i as int) =~~= base
                            + spec_network_list(nv, 0),
                    decreases n - i,
                {
                    let ghost before = out.deep_view();
                    let f = &nd.interfaces[i];
                    out.push(network_rx_sensor(f));
                    out.push(network_tx_sensor(f));
                    proof {
                        assert(out.deep_view() =~~= before + seq![
                            spec_network_rx_sensor(nv[i as int]),
                            spec_network_tx_sensor(nv[i as int]),
                        ]);
                        assert(out.deep_view() + spec_network_list(nv, i + 1) =~~= base
                            + spec_network_list(nv, 0));
                    }
                    i = i + 1;
                }
            }
        }
        proof {
            assert(out.deep_view() =~~= base + spec_network_sensors(
                self.enabled_sensors@,
                network.deep_view(),
            ));
        }
    }

    fn battery_group(&self, battery: &Option<BatteryData>, out: &mut Vec<SensorValue>)
        ensures
            final(out).deep_view() == old(out).deep_view() + spec_battery_sensors(
                self.enabled_sensors@,
                battery.deep_view(),
            ),
    {
        let ghost base = out.deep_view();
        if let Some(bd) = battery {
            if self.is_enabled("battery") {
                let n = bd.batteries.len();
                let multi = n > 1;
                let ghost bv = bd.batteries.deep_view();
                let mut i: usize = 0;
                while i < n
                    invariant
                        n == bd.batteries.len(),
                        bv == bd.batteries.deep_view(),
                        multi == (n > 1),
                        i <= n,
                        out.deep_view() + spec_battery_list(bv, i as int) =~~= base
                            + spec_battery_list(bv, 0),
                    decreases n - i,
                {
                    let ghost before = out.deep_view();
                    let b = &bd.batteries[i];
                    out.push(battery_level_sensor(b, i as u64, multi));
                    out.push(battery_charging_sensor(b, i as u64, multi));
                    proof {
                        assert(out.deep_view() =~~= before + seq![
                            spec_battery_level_sensor(bv[i as int], i as int, multi),
                            spec_battery_charging_sensor(bv[i as int], i as int, multi),
                        ]);
                        assert(out.deep_view() + spec_battery_list(bv, i + 1) =~~= base
                            + spec_battery_list(bv, 0));
                    }
                    i = i + 1;
                }
            }
        }
        proof {
            assert(out.deep_view() =~~= base + spec_battery_sensors(
                self.enabled_sensors@,
                battery.deep_view(),
            ));
        }
    }

    fn system_dynamic_group(&self, system: &Option<DynamicSystemInfo>, out: &mut Vec<SensorValue>)
        ensures
            final(out).deep_view() == old(out).deep_view() + spec_system_dynamic_sensors(
                self.enabled_sensors@,
                system.deep_view(),
            ),
    {
        let ghost base = out.deep_view();
        if let Some(dd) = system {
            if self.is_enabled("system_uptime") {
                out.push(uptime_sensor(dd));
            }
            if self.is_enabled("process_count") {
                out.push(process_count_sensor(dd));
            }
        }
        proof {
            assert(out.deep_view() =~~= base + spec_system_dynamic_sensors(
                self.enabled_sensors@,
                system.deep_view(),
            ));
        }
    }

    /// Collects every enabled dynamic sensor from one poll's readings.
    /// Pure in the readings: repeating the call with the same readings
    /// yields the same values, so repetition can never fail.
    pub fn collect_dynamic(&self, readings: &DynamicReadings) -> (r: Vec<SensorValue>)
        ensures
            r.deep_view() == spec_collect_dynamic(self.enabled_sensors@, readings@),
    {
        let mut out: Vec<SensorValue> = Vec::new();
        self.cpu_group(&readings.cpu, &mut out);
        self.memory_group(&readings.memory, &mut out);
        self.disk_group(&readings.disk, &mut out);
        self.gpu_group(&readings.gpu, &mut out);
        self.network_group(&readings.network, &mut out);
        self.battery_group(&readings.battery, &mut out);
        self.system_dynamic_group(&readings.system, &mut out);
        proof {
            assert(out.deep_view() =~~= spec_collect_dynamic(self.enabled_sensors@, readings@));
        }
        out
    }


    fn static_front_a_group(&self, readings: &StaticReadings, out: &mut Vec<SensorValue>)
        ensures
            final(out).deep_view() == old(out).deep_view() + spec_static_front_a(
                self.enabled_sensors@,
                readings@,
            ),
    {
        let ghost m = self.enabled_sensors@;
        let ghost rv = readings@;
        let ghost base = out.deep_view();
        let ghost g1 = (match rv.cpu {
            Some(c) => if spec_is_enabled(m, "cpu_model"@) {
                seq![spec_cpu_model_sensor(c)]
            } else {
                Seq::empty()
            },
            None => Seq::<SensorValueView>::empty(),
        });
        let ghost g2 = (if spec_is_enabled(m, "os_version"@) {
            seq![spec_os_version_sensor(rv.system)]
        } else {
            Seq::<SensorValueView>::empty()
        });
        let ghost g3 = (if spec_is_enabled(m, "hostname"@) {
            seq![spec_hostname_sensor(rv.system)]
        } else {
            Seq::<SensorValueView>::empty()
        });
        if let Some(c) = &readings.cpu {
            if self.is_enabled("cpu_model") {
                out.push(cpu_model_sensor(c));
            }
        }
        proof {
            assert(out.deep_view() =~~= base + g1);
        }
        if self.is_enabled("os_version") {
            out.push(os_version_sensor(&readings.system));
        }
        proof {
            assert(out.deep_view() =~~= base + g1 + g2);
        }
        if self.is_enabled("hostname") {
            out.push(hostname_sensor(&readings.system));
        }
        proof {
            assert(out.deep_view() =~~= base + g1 + g2 + g3);
        }
        if self.is_enabled("motherboard") {
            if let (Some(mfr), Some(model)) = (
                &readings.system.motherboard_manufacturer,
                &readings.system.motherboard_model,
            ) {
                out.push(motherboard_sensor(mfr, model));
            }
        }
        proof {
            assert(out.deep_view() =~~= base + spec_static_front_a(m, rv));
        }
    }

    fn static_front_b_group(&self, readings: &StaticReadings, out: &mut Vec<SensorValue>)
        ensures
            final(out).deep_view() == old(out).deep_view() + spec_static_front_b(
                self.enabled_sensors@,
                readings@,
            ),
    {
        let ghost m = self.enabled_sensors@;
        let ghost rv = readings@;
        let ghost base = out.deep_view();
        let ghost g5 = (match rv.system.bios_version {
            Some(b) => if spec_is_enabled(m, "bios_version"@) {
                seq![spec_bios_version_sensor(b, rv.system.bios_vendor, rv.system.bios_release_date)]
            } else {
                Seq::empty()
            },
            None => Seq::<SensorValueView>::empty(),
        });
        let ghost g6 = (match rv.system.bios_vendor {
            Some(v) => if spec_is_enabled(m, "bios_vendor"@) {
                seq![spec_bios_vendor_sensor(v)]
            } else {
                Seq::empty()
            },
            None => Seq::<SensorValueView>::empty(),
        });
        let ghost g7 = (match rv.system.bios_release_date {
            Some(d) => if spec_is_enabled(m, "bios_date"@) {
                seq![spec_bios_date_sensor(d)]
            } else {
                Seq::empty()
            },
            None => Seq::<SensorValueView>::empty(),
        });
        let ghost g8 = (if spec_is_enabled(m, "last_boot"@) {
            seq![spec_last_boot_sensor(rv.system.boot_time)]
        } else {
            Seq::<SensorValueView>::empty()
        });
        if self.is_enabled("bios_version") {
            if let Some(bios) = &readings.system.bios_version {
                out.push(
                    bios_version_sensor(
                        bios,
                        &readings.system.bios_vendor,
                        &readings.system.bios_release_date,
                    ),
                );
            }
        }
        proof {
            assert(out.deep_view() =~~= base + g5);
        }
        if self.is_enabled("bios_vendor") {
            if let Some(vendor) = &readings.system.bios_vendor {
                out.push(bios_vendor_sensor(vendor));
            }
        }
        proof {
            assert(out.deep_view() =~~= base + g5 + g6);
        }
        if self.is_enabled("bios_date") {
            if let Some(date) = &readings.system.bios_release_date {
                out.push(bios_date_sensor(date));
            }
        }
        proof {
            assert(out.deep_view() =~~= base + g5 + g6 + g7);
        }
        if self.is_enabled("last_boot") {
            out.push(last_boot_sensor(readings.system.boot_time));
        }
        proof {
            assert(out.deep_view() =~~= base + g5 + g6 + g7 + g8);
        }
        if self.is_enabled("logged_in_user") {
            if let Some(user) = &readings.system.logged_in_user {
                out.push(logged_in_user_sensor(user));
            }
        }
        proof {
            assert(out.deep_view() =~~= base + spec_static_front_b(m, rv));
        }
    }

    fn display_group(&self, readings: &StaticReadings, out: &mut Vec<SensorValue>)
        ensures
            final(out).deep_view() == old(out).deep_view() + (if spec_is_enabled(
                self.enabled_sensors@,
                "display"@,
            ) {
                spec_display_list(readings@.system.displays, 0)
            } else {
                Seq::<SensorValueView>::empty()
            }),
    {
        let ghost base = out.deep_view();
        if self.is_enabled("display") {
            let n = readings.system.displays.len();
            let multi = n > 1;
            let ghost dv = readings.system.displays.deep_view();
            let mut i: usize = 0;
            while i < n
                invariant
                    n == readings.system.displays.len(),
                    dv == readings.system.displays.deep_view(),
                    multi == (n > 1),
                    i <= n,
                    out.deep_view() + spec_display_list(dv, i as int) =~~= base
                        + spec_display_list(dv, 0),
                decreases n - i,
            {
                let ghost before = out.deep_view();
                out.push(display_sensor(&readings.system.displays[i], i as u64, multi));
                proof {
                    assert(out.deep_view() =~~= before + seq![
                        spec_display_sensor(dv[i as int], i as int, multi),
                    ]);
                    assert(out.deep_view() + spec_display_list(dv, i + 1) =~~= base
                        + spec_display_list(dv, 0));
                }
                i = i + 1;
            }
        }
        proof {
            assert(out.deep_view() =~~= base + (if spec_is_enabled(
                self.enabled_sensors@,
                "display"@,
            ) {
                spec_display_list(readings@.system.displays, 0)
            } else {
                Seq::<SensorValueView>::empty()
            }));
        }
    }

    fn gpu_model_group(&self, gpu: &Option<GpuData>, out: &mut Vec<SensorValue>)
        ensures
            final(out).deep_view() == old(out).deep_view() + (match gpu.deep_view() {
                Some(gd) => if spec_is_enabled(self.enabled_sensors@, "gpu"@) {
                    spec_gpu_model_list(gd.gpus, 0)
                } else {
                    Seq::empty()
                },
                None => Seq::<SensorValueView>::empty(),
            }),
    {
        let ghost base = out.deep_view();
        if let Some(gd) = gpu {
            if self.is_enabled("gpu") {
                let n = gd.gpus.len();
                let multi = n > 1;
                let ghost gv = gd.gpus.deep_view();
                let mut i: usize = 0;
                while i < n
                    invariant
                        n == gd.gpus.len(),
                        gv == gd.gpus.deep_view(),
                        multi == (n > 1),
                        i <= n,
                        out.deep_view() + spec_gpu_model_list(gv, i as int) =~~= base
                            + spec_gpu_model_list(gv, 0),
                    decreases n - i,
                {
                    let ghost before = out.deep_view();
                    out.push(gpu_model_sensor(&gd.gpus[i], i as u64, multi));
                    proof {
                        assert(out.deep_view() =~~= before + seq![
                            spec_gpu_model_sensor(gv[i as int], i as int, multi),
                        ]);
                        assert(out.deep_view() + spec_gpu_model_list(gv, i + 1) =~~= base
                            + spec_gpu_model_list(gv, 0));
                    }
                    i = i + 1;
                }
            }
        }
        proof {
            assert(out.deep_view() =~~= base + (match gpu.deep_view() {
                Some(gd) => if spec_is_enabled(self.enabled_sensors@, "gpu"@) {
                    spec_gpu_model_list(gd.gpus, 0)
                } else {
                    Seq::empty()
                },
                None => Seq::<SensorValueView>::empty(),
            }));
        }
    }

    /// Collects every enabled static identity sensor from the
    /// once-per-registration readings.
    #[verifier::rlimit(100)]
    pub fn collect_static(&self, readings: &StaticReadings) -> (r: Vec<SensorValue>)
        ensures
            r.deep_view() == spec_collect_static(self.enabled_sensors@, readings@),
    {
        let ghost m = self.enabled_sensors@;
        let ghost rv = readings@;
        let mut out: Vec<SensorValue> = Vec::new();
        self.static_front_a_group(readings, &mut out);
        self.static_front_b_group(readings, &mut out);
        self.display_group(readings, &mut out);
        self.gpu_model_group(&readings.gpu, &mut out);
        let ghost before_mem = out.deep_view();
        if let Some(mm) = &readings.memory {
            if self.is_enabled("memory_total") {
                out.push(memory_total_sensor(mm));
            }
        }
        proof {
            assert(out.deep_view() =~~= before_mem + (match rv.memory {
                Some(mm) => if spec_is_enabled(m, "memory_total"@) {
                    seq![spec_memory_total_sensor(mm)]
                } else {
                    Seq::empty()
                },
                None => Seq::<SensorValueView>::empty(),
            }));
            assert(out.deep_view() =~~= spec_collect_static(m, rv));
        }
        out
    }

    /// Collects the full sensor set, static identity facts first, then
    /// the dynamic sensors, as pushed at registration time.
    pub fn collect_all(&self, statics: &StaticReadings, dynamics: &DynamicReadings) -> (r: Vec<
        SensorValue,
    >)
        ensures
            r.deep_view() == spec_collect_static(self.enabled_sensors@, statics@)
                + spec_collect_dynamic(self.enabled_sensors@, dynamics@),
    {
        let mut out = self.collect_static(statics);
        let mut tail = self.collect_dynamic(dynamics);
        let ghost head_view = out.deep_view();
        let ghost tail_view = tail.deep_view();
        out.append(&mut tail);
        proof {
            assert(out.deep_view() =~~= head_view + tail_view);
        }
        out
    }

    fn push_list_item(&self, r: &mut Vec<SensorListItem>, id: &str, name: &str, interval: bool)
        ensures
            final(r).deep_view() =~= old(r).deep_view().push(
                SensorListItemView {
                    id: id@,
                    name: name@,
                    enabled: spec_is_enabled(self.enabled_sensors@, id@),
                    updates_at_interval: interval,
                },
            ),
    {
        let enabled = self.is_enabled(id);
        r.push(
            SensorListItem {
                id: String::from_str(id),
                name: String::from_str(name),
                enabled,
                updates_at_interval: interval,
            },
        );
    }
}

} // verus!
