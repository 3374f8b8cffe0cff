//! Identity and platform facts served by the platform metric sources.
use vstd::prelude::*;

verus! {

/// The static identity facts of the host, gathered once at registration
/// time. Fields the platform cannot report are absent.
#[derive(Debug)]
pub struct SystemInfoData {
    pub os_name: String,
    pub os_version: String,
    pub hostname: String,
    pub motherboard_manufacturer: Option<String>,
    pub motherboard_model: Option<String>,
    pub bios_version: Option<String>,
    pub bios_vendor: Option<String>,
    pub bios_release_date: Option<String>,
    pub uptime_seconds: u64,
    pub boot_time: u64,
    pub logged_in_user: Option<String>,
    pub process_count: usize,
    pub displays: Vec<DisplayInfo>,
}

/// One display adapter's mode.
#[derive(Debug)]
pub struct DisplayInfo {
    pub name: String,
    pub resolution: String,
    pub refresh_rate_hz: Option<u32>,
}

/// The host facts that change over time and are re-sampled every cycle.
#[derive(Debug)]
pub struct DynamicSystemInfo {
    pub uptime_seconds: u64,
    pub process_count: usize,
}

#[verifier::ext_equal]
pub struct SystemInfoDataView {
    pub os_name: Seq<char>,
    pub os_version: Seq<char>,
    pub hostname: Seq<char>,
    pub motherboard_manufacturer: Option<Seq<char>>,
    pub motherboard_model: Option<Seq<char>>,
    pub bios_version: Option<Seq<char>>,
    pub bios_vendor: Option<Seq<char>>,
    pub bios_release_date: Option<Seq<char>>,
    pub uptime_seconds: u64,
    pub boot_time: u64,
    pub logged_in_user: Option<Seq<char>>,
    pub process_count: usize,
    pub displays: Seq<DisplayInfoView>,
}

#[verifier::ext_equal]
pub struct DisplayInfoView {
    pub name: Seq<char>,
    pub resolution: Seq<char>,
    pub refresh_rate_hz: Option<u32>,
}

#[verifier::ext_equal]
pub struct DynamicSystemInfoView {
    pub uptime_seconds: u64,
    pub process_count: usize,
}

impl View for DisplayInfo {
    type V = DisplayInfoView;

    open spec fn view(&self) -> DisplayInfoView {
        DisplayInfoView {
            name: self.name@,
            resolution: self.resolution@,
            refresh_rate_hz: self.refresh_rate_hz,
        }
    }
}

impl DeepView for DisplayInfo {
    type V = DisplayInfoView;

    open spec fn deep_view(&self) -> DisplayInfoView {
        self.view()
    }
}

impl View for SystemInfoData {
    type V = SystemInfoDataView;

    open spec fn view(&self) -> SystemInfoDataView {
        SystemInfoDataView {
            os_name: self.os_name@,
            os_version: self.os_version@,
            hostname: self.hostname@,
            motherboard_manufacturer: self.motherboard_manufacturer.deep_view(),
            motherboard_model: self.motherboard_model.deep_view(),
            bios_version: self.bios_version.deep_view(),
            bios_vendor: self.bios_vendor.deep_view(),
            bios_release_date: self.bios_release_date.deep_view(),
            uptime_seconds: self.uptime_seconds,
            boot_time: self.boot_time,
            logged_in_user: self.logged_in_user.deep_view(),
            process_count: self.process_count,
            displays: self.displays.deep_view(),
        }
    }
}

impl DeepView for SystemInfoData {
    type V = SystemInfoDataView;

    open spec fn deep_view(&self) -> SystemInfoDataView {
        self.view()
    }
}

impl View for DynamicSystemInfo {
    type V = DynamicSystemInfoView;

    open spec fn view(&self) -> DynamicSystemInfoView {
        DynamicSystemInfoView {
            uptime_seconds: self.uptime_seconds,
            process_count: self.process_count,
        }
    }
}

impl DeepView for DynamicSystemInfo {
    type V = DynamicSystemInfoView;

    open spec fn deep_view(&self) -> DynamicSystemInfoView {
        self.view()
    }
}

/// Reformats a firmware release date in CIM datetime form
/// (`YYYYMMDDhhmmss...`) as `YYYY-MM-DD`; anything shorter than eight
/// characters is passed through unchanged.
pub fn bios_date_from_cim(raw: &str) -> (r: String)
    ensures
        raw@.len() >= 8 ==> r@ == raw@.subrange(0, 4) + seq!['-'] + raw@.subrange(4, 6)
            + seq!['-'] + raw@.subrange(6, 8),
        raw@.len() < 8 ==> r@ == raw@,
{
    let n = raw.unicode_len();
    if n >= 8 {
        let mut r = String::from_str(raw.substring_char(0, 4));
        crate::strutil::push_char(&mut r, '-');
        r.append(raw.substring_char(4, 6));
        crate::strutil::push_char(&mut r, '-');
        r.append(raw.substring_char(6, 8));
        r
    } else {
        String::from_str(raw)
    }
}

} // verus!
