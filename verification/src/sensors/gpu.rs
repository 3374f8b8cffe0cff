//! The graphics-adapter reading served by a platform metric source.
use vstd::prelude::*;

verus! {

/// All graphics adapters, enumerated at call time.
#[derive(Debug)]
pub struct GpuData {
    pub gpus: Vec<GpuInfo>,
}

/// One adapter. Fractional readings are carried as scaled integers:
/// `usage_tenths` is tenths of a percent, `temperature_tenths` tenths of
/// a degree Celsius; each figure is absent when the platform source
/// cannot report it.
#[derive(Debug)]
pub struct GpuInfo {
    pub name: String,
    pub vendor: String,
    pub usage_tenths: Option<u32>,
    pub temperature_tenths: Option<i32>,
    pub vram_total_mb: Option<u64>,
    pub vram_used_mb: Option<u64>,
    pub driver_version: Option<String>,
}

#[verifier::ext_equal]
pub struct GpuDataView {
    pub gpus: Seq<GpuInfoView>,
}

#[verifier::ext_equal]
pub struct GpuInfoView {
    pub name: Seq<char>,
    pub vendor: Seq<char>,
    pub usage_tenths: Option<u32>,
    pub temperature_tenths: Option<i32>,
    pub vram_total_mb: Option<u64>,
    pub vram_used_mb: Option<u64>,
    pub driver_version: Option<Seq<char>>,
}

impl View for GpuInfo {
    type V = GpuInfoView;

    open spec fn view(&self) -> GpuInfoView {
        GpuInfoView {
            name: self.name@,
            vendor: self.vendor@,
            usage_tenths: self.usage_tenths,
            temperature_tenths: self.temperature_tenths,
            vram_total_mb: self.vram_total_mb,
            vram_used_mb: self.vram_used_mb,
            driver_version: self.driver_version.deep_view(),
        }
    }
}

impl DeepView for GpuInfo {
    type V = GpuInfoView;

    open spec fn deep_view(&self) -> GpuInfoView {
        self.view()
    }
}

impl View for GpuData {
    type V = GpuDataView;

    open spec fn view(&self) -> GpuDataView {
        GpuDataView { gpus: self.gpus.deep_view() }
    }
}

impl DeepView for GpuData {
    type V = GpuDataView;

    open spec fn deep_view(&self) -> GpuDataView {
        self.view()
    }
}

} // verus!
