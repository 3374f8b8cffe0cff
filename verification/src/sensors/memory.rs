//! The memory and swap reading served by a platform metric source.
use vstd::prelude::*;

verus! {

/// One memory sample, in bytes as the platform reports them. Derived
/// figures (usage percentage, gigabyte conversions) are computed by the
/// collector under the library's fixed-point formatting policy.
#[derive(Debug)]
pub struct MemoryData {
    pub total_bytes: u64,
    pub used_bytes: u64,
    pub available_bytes: u64,
    pub swap_total_bytes: u64,
    pub swap_used_bytes: u64,
}

#[verifier::ext_equal]
pub struct MemoryDataView {
    pub total_bytes: u64,
    pub used_bytes: u64,
    pub available_bytes: u64,
    pub swap_total_bytes: u64,
    pub swap_used_bytes: u64,
}

impl View for MemoryData {
    type V = MemoryDataView;

    open spec fn view(&self) -> MemoryDataView {
        MemoryDataView {
            total_bytes: self.total_bytes,
            used_bytes: self.used_bytes,
            available_bytes: self.available_bytes,
            swap_total_bytes: self.swap_total_bytes,
            swap_used_bytes: self.swap_used_bytes,
        }
    }
}

impl DeepView for MemoryData {
    type V = MemoryDataView;

    open spec fn deep_view(&self) -> MemoryDataView {
        self.view()
    }
}

} // verus!
