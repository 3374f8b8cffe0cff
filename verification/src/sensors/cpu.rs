//! The processor reading served by a platform metric source.
use vstd::prelude::*;

verus! {

/// One processor sample. Fractional readings are carried as scaled
/// integers: `usage_tenths` is tenths of a percent, `temperature_tenths`
/// tenths of a degree Celsius (absent when no thermal sensor reports).
#[derive(Debug)]
pub struct CpuData {
    pub model: String,
    pub usage_tenths: u32,
    pub frequency_mhz: u64,
    pub temperature_tenths: Option<i32>,
    pub core_count: u64,
    pub logical_core_count: u64,
}

#[verifier::ext_equal]
pub struct CpuDataView {
    pub model: Seq<char>,
    pub usage_tenths: u32,
    pub frequency_mhz: u64,
    pub temperature_tenths: Option<i32>,
    pub core_count: u64,
    pub logical_core_count: u64,
}

impl View for CpuData {
    type V = CpuDataView;

    open spec fn view(&self) -> CpuDataView {
        CpuDataView {
            model: self.model@,
            usage_tenths: self.usage_tenths,
            frequency_mhz: self.frequency_mhz,
            temperature_tenths: self.temperature_tenths,
            core_count: self.core_count,
            logical_core_count: self.logical_core_count,
        }
    }
}

impl DeepView for CpuData {
    type V = CpuDataView;

    open spec fn deep_view(&self) -> CpuDataView {
        self.view()
    }
}

} // verus!
