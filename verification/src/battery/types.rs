use vstd::prelude::*;

verus! {

/// Operating state of a battery.
#[derive(Debug, Clone, Copy, PartialEq, Eq, Structural)]
pub enum BatteryState {
    Charging,
    Discharging,
    Full,
    Empty,
    Unknown,
}

/// A reading of one battery at one instant.
///
/// `percentage` is the state of charge in hundredths of a percent (`5000` is 50.00 %);
/// the two estimates are whole seconds.
#[derive(Debug, Clone, Copy, PartialEq, Eq, Structural)]
pub struct BatteryData {
    pub state: BatteryState,
    pub percentage: i64,
    pub time_to_full: Option<u64>,
    pub time_to_empty: Option<u64>,
}

} // verus!
