use ha_companion::sensors::battery::{BatteryData, BatteryInfo};
use ha_companion::sensors::collector::{
    DynamicReadings, EnabledSensors, SensorCollector, StateValue, StaticReadings,
};
use ha_companion::sensors::cpu::CpuData;
use ha_companion::sensors::disk::{DiskData, PartitionData};
use ha_companion::sensors::gpu::{GpuData, GpuInfo};
use ha_companion::sensors::memory::MemoryData;
use ha_companion::sensors::network::{NetworkData, NetworkInterface};
use ha_companion::sensors::system_info::{DisplayInfo, DynamicSystemInfo, SystemInfoData};

fn cpu_reading() -> CpuData {
    CpuData {
        model: "TestCPU 3000".to_string(),
        usage_tenths: 427,
        frequency_mhz: 3600,
        temperature_tenths: Some(515),
        core_count: 8,
        logical_core_count: 16,
    }
}

fn memory_reading() -> MemoryData {
    MemoryData {
        total_bytes: 16 * 1073741824,
        used_bytes: 8 * 1073741824,
        available_bytes: 8 * 1073741824,
        swap_total_bytes: 0,
        swap_used_bytes: 0,
    }
}

fn empty_dynamic() -> DynamicReadings {
    DynamicReadings {
        cpu: None,
        memory: None,
        disk: None,
        gpu: None,
        network: None,
        battery: None,
        system: None,
    }
}

fn system_reading() -> SystemInfoData {
    SystemInfoData {
        os_name: "TestOS".to_string(),
        os_version: "1.2".to_string(),
        hostname: "box".to_string(),
        motherboard_manufacturer: Some("Maker".to_string()),
        motherboard_model: Some("Board".to_string()),
        bios_version: Some("F.42".to_string()),
        bios_vendor: Some("Firm".to_string()),
        bios_release_date: Some("2021-01-01".to_string()),
        uptime_seconds: 7265,
        boot_time: 1700000000,
        logged_in_user: Some("user".to_string()),
        process_count: 321,
        displays: vec![DisplayInfo {
            name: "GPU A".to_string(),
            resolution: "1920x1080".to_string(),
            refresh_rate_hz: Some(60),
        }],
    }
}

fn ids(sensors: &[ha_companion::sensors::collector::SensorValue]) -> Vec<String> {
    sensors.iter().map(|s| s.unique_id.clone()).collect()
}

#[test]
fn sensor_list_covers_catalog_regardless_of_enablement() {
    let empty = SensorCollector::new(&EnabledSensors::new());
    let list = empty.get_sensor_list();
    assert_eq!(list.len(), 23);

    let mut map = EnabledSensors::new();
    map.insert("cpu_usage".to_string(), false);
    map.insert("hostname".to_string(), true);
    map.insert("unknown_sensor".to_string(), true);
    let toggled = SensorCollector::new(&map);
    let list2 = toggled.get_sensor_list();
    assert_eq!(list2.len(), 23);
    let cpu_row = list2.iter().find(|r| r.id == "cpu_usage").unwrap();
    assert!(!cpu_row.enabled);
    let host_row = list2.iter().find(|r| r.id == "hostname").unwrap();
    assert!(host_row.enabled);
}

#[test]
fn defaults_follow_the_documented_per_sensor_default() {
    let collector = SensorCollector::new(&EnabledSensors::new());
    assert!(collector.is_enabled("cpu_usage"));
    assert!(collector.is_enabled("disk_usage"));
    assert!(collector.is_enabled("battery"));
    assert!(!collector.is_enabled("hostname"));
    assert!(!collector.is_enabled("bios_version"));
    assert!(!collector.is_enabled("display"));
    let list = collector.get_sensor_list();
    for row in &list {
        assert_eq!(row.enabled, row.updates_at_interval);
    }
}

#[test]
fn explicit_settings_shadow_defaults() {
    let mut map = EnabledSensors::new();
    map.insert("cpu_usage".to_string(), false);
    map.insert("cpu_usage".to_string(), true);
    assert_eq!(map.get("cpu_usage"), Some(true));
    assert_eq!(map.get("never_set"), None);
    let mut collector = SensorCollector::new(&map);
    assert!(collector.is_enabled("cpu_usage"));
    let mut off = EnabledSensors::new();
    off.insert("cpu_usage".to_string(), false);
    collector.set_enabled_sensors(off);
    assert!(!collector.is_enabled("cpu_usage"));
}

#[test]
fn cpu_sensors_format_their_states() {
    let collector = SensorCollector::new(&EnabledSensors::new());
    let readings = DynamicReadings {
        cpu: Some(cpu_reading()),
        ..empty_dynamic()
    };
    let sensors = collector.collect_dynamic(&readings);
    assert_eq!(
        ids(&sensors),
        vec!["cpu_usage", "cpu_frequency", "cpu_temperature"]
    );
    match &sensors[0].state {
        StateValue::Text(s) => assert_eq!(s, "42.7"),
        _ => panic!("cpu usage should be text"),
    }
    match &sensors[1].state {
        StateValue::Integer(n) => assert_eq!(*n, 3600),
        _ => panic!("cpu frequency should be an integer"),
    }
    match &sensors[2].state {
        StateValue::Text(s) => assert_eq!(s, "51.5"),
        _ => panic!("cpu temperature should be text"),
    }
    assert!(sensors.iter().all(|s| s.update_at_interval));
}

#[test]
fn missing_cpu_temperature_is_an_explicit_null() {
    let collector = SensorCollector::new(&EnabledSensors::new());
    let mut cpu = cpu_reading();
    cpu.temperature_tenths = None;
    let readings = DynamicReadings {
        cpu: Some(cpu),
        ..empty_dynamic()
    };
    let sensors = collector.collect_dynamic(&readings);
    assert!(matches!(sensors[2].state, StateValue::Null));
}

#[test]
fn swap_sensor_only_exists_with_swap() {
    let collector = SensorCollector::new(&EnabledSensors::new());
    let without_swap = DynamicReadings {
        memory: Some(memory_reading()),
        ..empty_dynamic()
    };
    let sensors = collector.collect_dynamic(&without_swap);
    assert_eq!(ids(&sensors), vec!["memory_usage", "memory_used"]);
    match &sensors[0].state {
        StateValue::Text(s) => assert_eq!(s, "50.0"),
        _ => panic!(),
    }
    match &sensors[1].state {
        StateValue::Text(s) => assert_eq!(s, "8.00"),
        _ => panic!(),
    }

    let mut with_swap = memory_reading();
    with_swap.swap_total_bytes = 2 * 1073741824;
    with_swap.swap_used_bytes = 1073741824;
    let readings = DynamicReadings {
        memory: Some(with_swap),
        ..empty_dynamic()
    };
    let sensors = collector.collect_dynamic(&readings);
    assert_eq!(ids(&sensors), vec!["memory_usage", "memory_used", "swap_usage"]);
    match &sensors[2].state {
        StateValue::Text(s) => assert_eq!(s, "50.0"),
        _ => panic!(),
    }
    let attrs = &sensors[2].attributes;
    assert_eq!(attrs[0].0, "swap_used_gb");
    match &attrs[0].1 {
        StateValue::Text(s) => assert_eq!(s, "1.00"),
        _ => panic!(),
    }
    assert_eq!(attrs[1].0, "swap_total_gb");
    match &attrs[1].1 {
        StateValue::Text(s) => assert_eq!(s, "2.0"),
        _ => panic!(),
    }
}

#[test]
fn distinct_mount_points_give_distinct_identifiers() {
    let collector = SensorCollector::new(&EnabledSensors::new());
    let disk = DiskData {
        partitions: vec![
            PartitionData::from_space(
                "root".to_string(),
                "/".to_string(),
                1000,
                250,
                "ext4".to_string(),
                "SSD".to_string(),
            ),
            PartitionData::from_space(
                "data".to_string(),
                "/data".to_string(),
                2000,
                1000,
                "ext4".to_string(),
                "HDD".to_string(),
            ),
        ],
    };
    let readings = DynamicReadings {
        disk: Some(disk),
        ..empty_dynamic()
    };
    let sensors = collector.collect_dynamic(&readings);
    assert_eq!(ids(&sensors), vec!["disk_usage_", "disk_usage_data"]);
    assert_ne!(sensors[0].unique_id, sensors[1].unique_id);
    assert_eq!(sensors[0].name, "Disk Usage /");
    assert_eq!(sensors[1].name, "Disk Usage /data");
    match &sensors[0].state {
        StateValue::Text(s) => assert_eq!(s, "75.0"),
        _ => panic!(),
    }
    let attrs = &sensors[0].attributes;
    assert_eq!(attrs[2].0, "filesystem");
    assert_eq!(attrs[3].0, "disk_type");
}

#[test]
fn single_instances_carry_no_suffix_and_pairs_do() {
    let collector = SensorCollector::new(&EnabledSensors::new());
    let one_gpu = GpuData {
        gpus: vec![GpuInfo {
            name: "Card".to_string(),
            vendor: "Vendor".to_string(),
            usage_tenths: Some(300),
            temperature_tenths: Some(700),
            vram_total_mb: Some(8192),
            vram_used_mb: Some(2048),
            driver_version: Some("1.0".to_string()),
        }],
    };
    let readings = DynamicReadings {
        gpu: Some(one_gpu),
        ..empty_dynamic()
    };
    let sensors = collector.collect_dynamic(&readings);
    assert_eq!(
        ids(&sensors),
        vec!["gpu_usage", "gpu_temperature", "gpu_vram_used"]
    );

    let two_gpus = GpuData {
        gpus: vec![
            GpuInfo {
                name: "A".to_string(),
                vendor: "V".to_string(),
                usage_tenths: Some(100),
                temperature_tenths: None,
                vram_total_mb: None,
                vram_used_mb: None,
                driver_version: None,
            },
            GpuInfo {
                name: "B".to_string(),
                vendor: "V".to_string(),
                usage_tenths: None,
                temperature_tenths: None,
                vram_total_mb: None,
                vram_used_mb: Some(512),
                driver_version: None,
            },
        ],
    };
    let readings = DynamicReadings {
        gpu: Some(two_gpus),
        ..empty_dynamic()
    };
    let sensors = collector.collect_dynamic(&readings);
    assert_eq!(ids(&sensors), vec!["gpu_usage_0", "gpu_vram_used_1"]);
    assert_eq!(sensors[0].name, "GPU Usage 0");
}

#[test]
fn network_counters_are_raw_integers() {
    let collector = SensorCollector::new(&EnabledSensors::new());
    let net = NetworkData {
        interfaces: vec![NetworkInterface {
            name: "wlan 0".to_string(),
            mac_address: "aa:bb".to_string(),
            received_bytes: 123456789,
            transmitted_bytes: 987,
            ip_addresses: vec!["10.0.0.2".to_string()],
        }],
    };
    let readings = DynamicReadings {
        network: Some(net),
        ..empty_dynamic()
    };
    let sensors = collector.collect_dynamic(&readings);
    assert_eq!(ids(&sensors), vec!["network_rx_wlan_0", "network_tx_wlan_0"]);
    match &sensors[0].state {
        StateValue::Integer(n) => assert_eq!(*n, 123456789),
        _ => panic!("counters must stay raw integers"),
    }
    assert_eq!(sensors[0].attributes[0].0, "mac_address");
    match &sensors[0].attributes[1].1 {
        StateValue::TextList(v) => assert_eq!(v, &vec!["10.0.0.2".to_string()]),
        _ => panic!(),
    }
    assert_eq!(sensors[0].state_class.as_deref(), Some("total_increasing"));
}

#[test]
fn battery_sensors_pair_level_and_charging() {
    let collector = SensorCollector::new(&EnabledSensors::new());
    let battery = BatteryData {
        batteries: vec![BatteryInfo {
            percentage: 88,
            state: "Discharging".to_string(),
            state_of_health: Some(97),
            cycle_count: Some(412),
            is_charging: false,
        }],
    };
    let readings = DynamicReadings {
        battery: Some(battery),
        ..empty_dynamic()
    };
    let sensors = collector.collect_dynamic(&readings);
    assert_eq!(ids(&sensors), vec!["battery_level", "battery_charging"]);
    match &sensors[0].state {
        StateValue::Text(s) => assert_eq!(s, "88"),
        _ => panic!(),
    }
    let attrs = &sensors[0].attributes;
    assert_eq!(attrs[0].0, "state");
    match &attrs[1].1 {
        StateValue::Text(s) => assert_eq!(s, "97%"),
        _ => panic!(),
    }
    match &attrs[2].1 {
        StateValue::Integer(n) => assert_eq!(*n, 412),
        _ => panic!(),
    }
    assert!(matches!(sensors[1].state, StateValue::Flag(false)));
    assert_eq!(sensors[1].sensor_type, "binary_sensor");
}

#[test]
fn uptime_renders_hours_and_minutes() {
    let collector = SensorCollector::new(&EnabledSensors::new());
    let readings = DynamicReadings {
        system: Some(DynamicSystemInfo {
            uptime_seconds: 7265,
            process_count: 321,
        }),
        ..empty_dynamic()
    };
    let sensors = collector.collect_dynamic(&readings);
    assert_eq!(ids(&sensors), vec!["system_uptime", "process_count"]);
    match &sensors[0].state {
        StateValue::Text(s) => assert_eq!(s, "2h 1m"),
        _ => panic!(),
    }
    match &sensors[1].state {
        StateValue::Integer(n) => assert_eq!(*n, 321),
        _ => panic!(),
    }
}

#[test]
fn repeating_a_collection_never_fails_and_repeats_itself() {
    let collector = SensorCollector::new(&EnabledSensors::new());
    let make = || DynamicReadings {
        cpu: Some(cpu_reading()),
        memory: Some(memory_reading()),
        ..empty_dynamic()
    };
    let first = collector.collect_dynamic(&make());
    let second = collector.collect_dynamic(&make());
    assert_eq!(ids(&first), ids(&second));
    assert_eq!(first.len(), second.len());
}

#[test]
fn disabled_sensors_are_omitted() {
    let mut map = EnabledSensors::new();
    map.insert("cpu_usage".to_string(), false);
    map.insert("cpu_temperature".to_string(), false);
    let collector = SensorCollector::new(&map);
    let readings = DynamicReadings {
        cpu: Some(cpu_reading()),
        ..empty_dynamic()
    };
    let sensors = collector.collect_dynamic(&readings);
    assert_eq!(ids(&sensors), vec!["cpu_frequency"]);
}

#[test]
fn static_collection_honours_defaults_and_enablement() {
    let nothing_on = SensorCollector::new(&EnabledSensors::new());
    let statics = StaticReadings {
        cpu: Some(cpu_reading()),
        system: system_reading(),
        gpu: None,
        memory: Some(memory_reading()),
    };
    assert_eq!(nothing_on.collect_static(&statics).len(), 0);

    let mut map = EnabledSensors::new();
    for id in [
        "cpu_model",
        "os_version",
        "hostname",
        "motherboard",
        "bios_version",
        "bios_vendor",
        "bios_date",
        "last_boot",
        "logged_in_user",
        "display",
        "memory_total",
    ] {
        map.insert(id.to_string(), true);
    }
    let everything_on = SensorCollector::new(&map);
    let statics = StaticReadings {
        cpu: Some(cpu_reading()),
        system: system_reading(),
        gpu: None,
        memory: Some(memory_reading()),
    };
    let sensors = everything_on.collect_static(&statics);
    assert_eq!(
        ids(&sensors),
        vec![
            "cpu_model",
            "os_version",
            "hostname",
            "motherboard",
            "bios_version",
            "bios_vendor",
            "bios_date",
            "last_boot",
            "logged_in_user",
            "display_resolution",
            "memory_total",
        ]
    );
    match &sensors[1].state {
        StateValue::Text(s) => assert_eq!(s, "TestOS 1.2"),
        _ => panic!(),
    }
    match &sensors[7].state {
        StateValue::Text(s) => assert_eq!(s, "2023-11-14T22:13:20+00:00"),
        _ => panic!(),
    }
    match &sensors[10].state {
        StateValue::Text(s) => assert_eq!(s, "16.0"),
        _ => panic!(),
    }
    assert!(sensors.iter().all(|s| !s.update_at_interval));
}

#[test]
fn collect_all_puts_static_first() {
    let mut map = EnabledSensors::new();
    map.insert("hostname".to_string(), true);
    let collector = SensorCollector::new(&map);
    let statics = StaticReadings {
        cpu: None,
        system: system_reading(),
        gpu: None,
        memory: None,
    };
    let dynamics = DynamicReadings {
        cpu: Some(cpu_reading()),
        ..empty_dynamic()
    };
    let sensors = collector.collect_all(&statics, &dynamics);
    assert_eq!(
        ids(&sensors),
        vec!["hostname", "cpu_usage", "cpu_frequency", "cpu_temperature"]
    );
}
