//! Split keyboard events.

use vstd::prelude::*;

use crate::battery::BatteryStatusEvent;

verus! {

/// Peripheral connected state changed event
#[derive(Clone, Copy, Debug, PartialEq, Eq, Structural)]
pub struct PeripheralConnectedEvent {
    pub id: usize,
    pub connected: bool,
}

/// Connected to central state changed event
#[derive(Clone, Copy, Debug, PartialEq, Eq, Structural)]
pub struct CentralConnectedEvent {
    pub connected: bool,
}

/// Current split-link acquisition state.
#[derive(Clone, Copy, Debug, PartialEq, Eq, Structural)]
pub enum SplitConnectionState {
    /// The central/peripheral is actively looking for its split peer.
    Searching,
    /// Every required split link is established.
    Connected,
    /// The configured split search window elapsed.
    Idle,
}

pub const SPLIT_STATE_SEARCHING: u8 = 0;

pub const SPLIT_STATE_CONNECTED: u8 = 1;

pub const SPLIT_STATE_IDLE: u8 = 2;

/// A sticky snapshot of the split state in one byte.
///
/// Split-state events are edge-triggered, while processors subscribe during
/// asynchronous startup. The snapshot keeps a fast reconnect from leaving the
/// LED processor with its constructor default forever.
#[derive(Clone, Copy, Debug, PartialEq, Eq, Structural)]
pub struct SplitStateCell {
    pub raw: u8,
}

impl SplitStateCell {
    /// The state that the byte stands for. Unknown bytes mean searching.
    pub open spec fn state(self) -> SplitConnectionState {
        if self.raw == SPLIT_STATE_CONNECTED {
            SplitConnectionState::Connected
        } else if self.raw == SPLIT_STATE_IDLE {
            SplitConnectionState::Idle
        } else {
            SplitConnectionState::Searching
        }
    }

    pub fn new() -> (cell: SplitStateCell)
        ensures
            cell.state() == SplitConnectionState::Searching,
            cell.raw == SPLIT_STATE_SEARCHING,
    {
        SplitStateCell { raw: SPLIT_STATE_SEARCHING }
    }
}

/// Store the authoritative split state before its event is published.
pub fn set_current_split_connection_state(cell: &mut SplitStateCell, state: SplitConnectionState)
    ensures
        final(cell).state() == state,
        final(cell).raw == (match state {
            SplitConnectionState::Searching => SPLIT_STATE_SEARCHING,
            SplitConnectionState::Connected => SPLIT_STATE_CONNECTED,
            SplitConnectionState::Idle => SPLIT_STATE_IDLE,
        }),
{
    cell.raw = match state {
        SplitConnectionState::Searching => SPLIT_STATE_SEARCHING,
        SplitConnectionState::Connected => SPLIT_STATE_CONNECTED,
        SplitConnectionState::Idle => SPLIT_STATE_IDLE,
    };
}

/// Read the latest split state even if an edge-triggered event was missed.
pub fn current_split_connection_state(cell: &SplitStateCell) -> (state: SplitConnectionState)
    ensures
        state == cell.state(),
{
    match cell.raw {
        SPLIT_STATE_CONNECTED => SplitConnectionState::Connected,
        SPLIT_STATE_IDLE => SplitConnectionState::Idle,
        _ => SplitConnectionState::Searching,
    }
}

/// Split-link acquisition state changed event.
#[derive(Clone, Copy, Debug, PartialEq, Eq, Structural)]
pub struct SplitConnectionStateEvent(pub SplitConnectionState);

/// Peripheral battery status changed event
#[derive(Clone, Copy, Debug, PartialEq, Eq, Structural)]
pub struct PeripheralBatteryEvent {
    pub id: usize,
    pub state: BatteryStatusEvent,
}

/// Runtime settings packet synced from split central to peripherals.
#[derive(Clone, Copy, Debug, PartialEq, Eq)]
pub struct PeripheralSettingsEvent(pub [u8; 27]);

/// Ask the keyboard to re-publish its current settings snapshot.
///
/// Unlike [`PeripheralSettingsEvent`], this never crosses the split link: the
/// central raises it locally whenever a peripheral link comes up, because a
/// peripheral that rebooted on its own starts from hardcoded defaults and the
/// central would otherwise stay silent until the next settings edit.
#[derive(Clone, Copy, Debug, PartialEq, Eq)]
pub struct PeripheralSettingsRefreshEvent;

/// Request a peripheral battery refresh.
#[derive(Clone, Copy, Debug, PartialEq, Eq)]
pub struct PeripheralBatteryRefreshEvent;

/// Clear BLE peer information event
#[derive(Clone, Copy, Debug, PartialEq, Eq)]
pub struct ClearPeerEvent;

/// What was stored is what is read: a state survives in its byte, and a byte
/// that stands for no state means that the peer is searched for.
pub proof fn law_split_state_is_sticky(raw: u8)
    ensures
        ({
            let state = (SplitStateCell { raw }).state();
            &&& state == SplitConnectionState::Connected <==> raw == 1
            &&& state == SplitConnectionState::Idle <==> raw == 2
            &&& state == SplitConnectionState::Searching <==> raw != 1 && raw != 2
        }),
        forall|cell: &mut SplitStateCell, state: SplitConnectionState| #[trigger]
            call_ensures(set_current_split_connection_state, (cell, state), ())
                ==> final(cell).state() == state && final(cell).raw <= 2,
        forall|cell: &SplitStateCell, state: SplitConnectionState| #[trigger]
            call_ensures(current_split_connection_state, (cell,), state) ==> state
                == (*cell).state(),
        forall|cell: SplitStateCell| #[trigger]
            call_ensures(SplitStateCell::new, (), cell) ==> cell.state()
                == SplitConnectionState::Searching,
{
}

} // verus!
