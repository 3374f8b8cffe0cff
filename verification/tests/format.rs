use ha_companion::numfmt::{
    format_hundredths, format_tenths, format_tenths_signed, gib_hundredths, gib_tenths,
    percent_tenths, u64_to_string, zero_padded,
};
use ha_companion::sensors::collector::{chrono_from_timestamp, sanitize_iface, sanitize_mount};
use ha_companion::sensors::system_info::bios_date_from_cim;
use ha_companion::strutil::{str_eq, trim_ascii};

#[test]
fn renders_integers_in_base_ten() {
    assert_eq!(u64_to_string(0), "0");
    assert_eq!(u64_to_string(7), "7");
    assert_eq!(u64_to_string(42), "42");
    assert_eq!(u64_to_string(18446744073709551615), "18446744073709551615");
}

#[test]
fn renders_fixed_point_quantities() {
    assert_eq!(format_tenths(123), "12.3");
    assert_eq!(format_tenths(0), "0.0");
    assert_eq!(format_tenths(1000), "100.0");
    assert_eq!(format_hundredths(125), "1.25");
    assert_eq!(format_hundredths(5), "0.05");
    assert_eq!(format_tenths_signed(-57), "-5.7");
    assert_eq!(format_tenths_signed(57), "5.7");
    assert_eq!(zero_padded(7, 4), "0007");
    assert_eq!(zero_padded(2023, 4), "2023");
    assert_eq!(zero_padded(123456, 4), "123456");
}

#[test]
fn percentage_is_tenths_of_used_share() {
    assert_eq!(percent_tenths(512 * 1024 * 1024, 1024 * 1024 * 1024), 500);
    assert_eq!(percent_tenths(1, 3), 333);
    assert_eq!(percent_tenths(5, 0), 0);
    assert_eq!(percent_tenths(7, 3), 1000);
}

#[test]
fn gibibyte_conversions_round_to_nearest() {
    assert_eq!(gib_tenths(1073741824), 10);
    assert_eq!(gib_hundredths(1073741824), 100);
    assert_eq!(gib_tenths(16 * 1073741824), 160);
    assert_eq!(gib_hundredths(8254390272), 769);
    assert_eq!(gib_tenths(536870912), 5);
    assert_eq!(gib_tenths(536870911), 5);
}

#[test]
fn timestamps_render_as_iso_8601() {
    assert_eq!(chrono_from_timestamp(0), "1970-01-01T00:00:00+00:00");
    assert_eq!(chrono_from_timestamp(86399), "1970-01-01T23:59:59+00:00");
    assert_eq!(chrono_from_timestamp(951782400), "2000-02-29T00:00:00+00:00");
    assert_eq!(chrono_from_timestamp(1700000000), "2023-11-14T22:13:20+00:00");
    assert_eq!(chrono_from_timestamp(4102444800), "2100-01-01T00:00:00+00:00");
}

#[test]
fn mount_points_become_identifier_safe() {
    assert_eq!(sanitize_mount("/"), "");
    assert_eq!(sanitize_mount("/data"), "data");
    assert_eq!(sanitize_mount("C:\\"), "C");
    assert_eq!(sanitize_mount("/var/log"), "var_log");
}

#[test]
fn interface_names_become_identifier_safe() {
    assert_eq!(sanitize_iface("Local Area Connection"), "Local_Area_Connection");
    assert_eq!(sanitize_iface("eth0"), "eth0");
}

#[test]
fn cim_dates_reformat_to_dashes() {
    assert_eq!(bios_date_from_cim("20210101000000.000000+000"), "2021-01-01");
    assert_eq!(bios_date_from_cim("2021"), "2021");
}

#[test]
fn trimming_and_equality_work_characterwise() {
    assert_eq!(trim_ascii("  hello \t\n"), "hello");
    assert_eq!(trim_ascii(""), "");
    assert!(str_eq("abc", "abc"));
    assert!(!str_eq("abc", "abd"));
    assert!(!str_eq("abc", "ab"));
}
