//! The BLE connection state that other tasks see.

use vstd::prelude::*;

verus! {

#[derive(Clone, Copy, Debug, PartialEq, Eq, Structural)]
pub enum BleState {
    Inactive,
    Advertising,
    Connected,
    /// The host link is down until local input; reports are retained.
    Sleeping,
}

#[derive(Clone, Copy, Debug, PartialEq, Eq, Structural)]
pub struct BleStatus {
    pub profile: u8,
    pub state: BleState,
}

/// Whom the keyboard advertises for.
#[derive(Clone, Copy, Debug, PartialEq, Eq, Structural)]
pub enum BleAdvertisingMode {
    Pairing,
    Reconnecting,
}

/// The latest BLE status and advertising mode.
#[derive(Clone, Copy, Debug, PartialEq, Eq, Structural)]
pub struct BleStatusCell {
    pub status: BleStatus,
    pub advertising_mode: BleAdvertisingMode,
}

impl BleStatusCell {
    pub fn new() -> (cell: BleStatusCell)
        ensures
            cell.status == (BleStatus { profile: 0, state: BleState::Inactive }),
            cell.advertising_mode == BleAdvertisingMode::Pairing,
    {
        BleStatusCell {
            status: BleStatus { profile: 0, state: BleState::Inactive },
            advertising_mode: BleAdvertisingMode::Pairing,
        }
    }

    /// Sets the state of the current profile.
    pub fn set_ble_state(&mut self, state: BleState)
        ensures
            final(self).status == (BleStatus { state, ..old(self).status }),
            final(self).advertising_mode == old(self).advertising_mode,
    {
        self.status.state = state;
    }

    /// Selects a profile. Another profile starts out inactive.
    pub fn set_ble_profile(&mut self, profile: u8)
        ensures
            final(self).status == (BleStatus {
                profile,
                state: if profile == old(self).status.profile {
                    old(self).status.state
                } else {
                    BleState::Inactive
                },
            }),
            final(self).advertising_mode == old(self).advertising_mode,
    {
        if profile != self.status.profile {
            self.status.state = BleState::Inactive;
        }
        self.status.profile = profile;
    }

    pub fn current_ble_status(&self) -> (status: BleStatus)
        ensures
            status == self.status,
    {
        self.status
    }

    pub fn set_ble_advertising_mode(&mut self, mode: BleAdvertisingMode)
        ensures
            final(self).status == old(self).status,
            final(self).advertising_mode == mode,
    {
        self.advertising_mode = mode;
    }

    pub fn current_ble_advertising_mode(&self) -> (mode: BleAdvertisingMode)
        ensures
            mode == self.advertising_mode,
    {
        self.advertising_mode
    }
}

/// Setting the state keeps the profile, and selecting another profile makes the
/// link inactive. Neither touches the advertising mode, and setting the mode
/// touches nothing else.
pub proof fn law_status_changes_one_thing_at_a_time()
    ensures
        forall|cell: &mut BleStatusCell, state: BleState| #[trigger]
            call_ensures(BleStatusCell::set_ble_state, (cell, state), ()) ==> {
                &&& final(cell).status.state == state
                &&& final(cell).status.profile == (*cell).status.profile
                &&& final(cell).advertising_mode == (*cell).advertising_mode
            },
        forall|cell: &mut BleStatusCell, profile: u8| #[trigger]
            call_ensures(BleStatusCell::set_ble_profile, (cell, profile), ()) ==> {
                &&& final(cell).status.profile == profile
                &&& profile == (*cell).status.profile ==> final(cell).status.state
                    == (*cell).status.state
                &&& profile != (*cell).status.profile ==> final(cell).status.state
                    == BleState::Inactive
                &&& final(cell).advertising_mode == (*cell).advertising_mode
            },
        forall|cell: &mut BleStatusCell, mode: BleAdvertisingMode| #[trigger]
            call_ensures(BleStatusCell::set_ble_advertising_mode, (cell, mode), ()) ==> {
                &&& final(cell).advertising_mode == mode
                &&& final(cell).status == (*cell).status
            },
{
}

/// What was set is what is read, and a new cell is inactive, on the first
/// profile and open for pairing.
pub proof fn law_status_reads_what_was_set()
    ensures
        forall|cell: &BleStatusCell, status: BleStatus| #[trigger]
            call_ensures(BleStatusCell::current_ble_status, (cell,), status) ==> status
                == (*cell).status,
        forall|cell: &BleStatusCell, mode: BleAdvertisingMode| #[trigger]
            call_ensures(BleStatusCell::current_ble_advertising_mode, (cell,), mode) ==> mode
                == (*cell).advertising_mode,
        forall|cell: BleStatusCell| #[trigger]
            call_ensures(BleStatusCell::new, (), cell) ==> cell.status.profile == 0
                && cell.status.state == BleState::Inactive && cell.advertising_mode
                == BleAdvertisingMode::Pairing,
{
}

} // verus!
