//! The battery reading served by a platform metric source.
use vstd::prelude::*;

verus! {

/// All batteries, enumerated at call time; empty on machines without one.
#[derive(Debug)]
pub struct BatteryData {
    pub batteries: Vec<BatteryInfo>,
}

/// One battery. `percentage` and `state_of_health` are whole percents,
/// rounded by the platform adapter; `state` is the charging state's
/// display word.
#[derive(Debug)]
pub struct BatteryInfo {
    pub percentage: u32,
    pub state: String,
    pub state_of_health: Option<u32>,
    pub cycle_count: Option<u32>,
    pub is_charging: bool,
}

#[verifier::ext_equal]
pub struct BatteryDataView {
    pub batteries: Seq<BatteryInfoView>,
}

#[verifier::ext_equal]
pub struct BatteryInfoView {
    pub percentage: u32,
    pub state: Seq<char>,
    pub state_of_health: Option<u32>,
    pub cycle_count: Option<u32>,
    pub is_charging: bool,
}

impl View for BatteryInfo {
    type V = BatteryInfoView;

    open spec fn view(&self) -> BatteryInfoView {
        BatteryInfoView {
            percentage: self.percentage,
            state: self.state@,
            state_of_health: self.state_of_health,
            cycle_count: self.cycle_count,
            is_charging: self.is_charging,
        }
    }
}

impl DeepView for BatteryInfo {
    type V = BatteryInfoView;

    open spec fn deep_view(&self) -> BatteryInfoView {
        self.view()
    }
}

impl View for BatteryData {
    type V = BatteryDataView;

    open spec fn view(&self) -> BatteryDataView {
        BatteryDataView { batteries: self.batteries.deep_view() }
    }
}

impl DeepView for BatteryData {
    type V = BatteryDataView;

    open spec fn deep_view(&self) -> BatteryDataView {
        self.view()
    }
}

} // verus!
