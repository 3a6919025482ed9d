//! Battery state as other tasks see it.

use vstd::prelude::*;

verus! {

#[derive(Clone, Copy, Debug, PartialEq, Eq, Structural)]
pub enum ChargeState {
    Unknown,
    Discharging,
    Charging,
}

#[derive(Clone, Copy, Debug, PartialEq, Eq, Structural)]
pub enum BatteryStatus {
    Unavailable,
    Available { charge_state: ChargeState, level: Option<u8> },
}

/// Battery status changed event
#[derive(Clone, Copy, Debug, PartialEq, Eq, Structural)]
pub struct BatteryStatusEvent(pub BatteryStatus);

/// Seeds the readable GATT battery level with a measured level. Otherwise a
/// host can read the characteristic's default 0% before the delayed battery
/// notification publishes the measured level.
pub fn seed_battery_level(gatt_level: &mut u8, status: BatteryStatus)
    ensures
        *final(gatt_level) == (match status {
            BatteryStatus::Available { level: Some(level), .. } => level,
            _ => *old(gatt_level),
        }),
{
    if let BatteryStatus::Available { level: Some(level), .. } = status {
        *gatt_level = level;
    }
}

/// The level that a host reads is the measured one wherever there is one, and
/// stays as it is otherwise.
pub proof fn law_measured_level_is_seeded()
    ensures
        forall|gatt_level: &mut u8, status: BatteryStatus| #[trigger]
            call_ensures(seed_battery_level, (gatt_level, status), ()) ==> {
                &&& status matches BatteryStatus::Available { level: Some(level), .. }
                    ==> *final(gatt_level) == level
                &&& status is Unavailable || status->level is None ==> *final(gatt_level)
                    == *gatt_level
            },
{
}

} // verus!
