//! The advertise, connect and serve loop of the BLE transport.

use vstd::prelude::*;

use crate::battery::{seed_battery_level, BatteryStatus};
use crate::ble_advertising::HostError;
use crate::ble_host_power::BleKeyboardExit;
use crate::ble_status::{BleState, BleStatusCell};

verus! {

/// Pause after advertising failed.
pub const ADVERTISE_ERROR_PAUSE_MS: u64 = 200;

#[derive(Clone, Copy, Debug, PartialEq, Eq, Structural)]
pub enum TransportPhase {
    /// A new round begins.
    Top,
    Advertising,
    Serving { was_resume: bool },
    /// The link idled out: look for input, then drop the link.
    IdleExit,
    IdleDropping { activity: bool },
    /// Asleep until local input or a profile change.
    Asleep,
    /// Another profile was selected while a host was connected.
    ProfileDropping,
    Pausing,
}

#[derive(Clone, Copy, Debug, PartialEq, Eq, Structural)]
pub enum TransportAction {
    /// Wait until split links leave the radio free, or for a profile change.
    WaitSplitWindow,
    /// Advertise, while a profile change is watched for. While resuming, local
    /// input is watched from before the radio window opens.
    Advertise { resuming_from_sleep: bool },
    /// Serve the connected host, while a profile change is watched for.
    Serve,
    /// Subscribe to local input, and take the input that came meanwhile.
    TakeInput,
    /// Drop the connection, where there still is one.
    DropConnection,
    WaitWake,
    PauseMs(u64),
}

#[derive(Clone, Copy, Debug, PartialEq, Eq, Structural)]
pub enum TransportEvent {
    SplitWindowOpen,
    ProfileChanged,
    Connected,
    /// Nobody connected in time. Another transport may be active.
    AdvertisingTimeout { transport_active: bool },
    AdvertisingFailed,
    Left(BleKeyboardExit),
    InputTaken { activity: bool },
    Dropped,
    Woken,
    Paused,
}

impl TransportEvent {
    /// An attempt to advertise that ended without a host. Only a timeout is a
    /// reason to sleep.
    pub fn advertising_ended(error: HostError, transport_active: bool) -> (event: TransportEvent)
        ensures
            event == (if error == HostError::Timeout {
                TransportEvent::AdvertisingTimeout { transport_active }
            } else {
                TransportEvent::AdvertisingFailed
            }),
    {
        match error {
            HostError::Timeout => TransportEvent::AdvertisingTimeout { transport_active },
            _ => TransportEvent::AdvertisingFailed,
        }
    }

    /// The host-power input that came while a link idled out, where there is
    /// one: `true` asks for a suspend, and only the other kind is activity.
    pub fn input_taken(immediate_suspend: Option<bool>) -> (event: TransportEvent)
        ensures
            event == (TransportEvent::InputTaken { activity: immediate_suspend == Some(false) }),
    {
        let activity: bool = match immediate_suspend {
            Some(suspend) => !suspend,
            None => false,
        };
        TransportEvent::InputTaken { activity }
    }
}

/// What a step asks of the sleep manager.
#[derive(Clone, Copy, Debug, PartialEq, Eq, Structural)]
pub struct TransportEffect {
    pub request_sleep: bool,
    pub report_activity: bool,
}

pub open spec fn nothing() -> TransportEffect {
    TransportEffect { request_sleep: false, report_activity: false }
}

pub open spec fn activity() -> TransportEffect {
    TransportEffect { request_sleep: false, report_activity: true }
}

pub open spec fn sleep() -> TransportEffect {
    TransportEffect { request_sleep: true, report_activity: false }
}

/// BLE transport: the state of its connection loop.
#[derive(Clone, Copy, Debug, PartialEq, Eq, Structural)]
pub struct BleTransport {
    /// The build has split links.
    pub has_split: bool,
    /// The next host connection resumes a sleeping one.
    pub resuming_from_sleep: bool,
    pub phase: TransportPhase,
    /// The split window of this round was open.
    pub window_open: bool,
}

/// The state of the link at the end of a round. Sleeping remains set while wake
/// advertising is in progress, so that the first report waits for the host.
pub open spec fn state_after_round(state: BleState) -> BleState {
    match state {
        BleState::Advertising | BleState::Sleeping => state,
        _ => BleState::Inactive,
    }
}

impl BleTransport {
    pub open spec fn due(self) -> TransportAction {
        match self.phase {
            TransportPhase::Top => if self.has_split && !self.window_open {
                TransportAction::WaitSplitWindow
            } else {
                TransportAction::Advertise { resuming_from_sleep: self.resuming_from_sleep }
            },
            TransportPhase::Advertising => TransportAction::Advertise {
                resuming_from_sleep: self.resuming_from_sleep,
            },
            TransportPhase::Serving { .. } => TransportAction::Serve,
            TransportPhase::IdleExit => TransportAction::TakeInput,
            TransportPhase::IdleDropping { .. } => TransportAction::DropConnection,
            TransportPhase::Asleep => TransportAction::WaitWake,
            TransportPhase::ProfileDropping => TransportAction::DropConnection,
            TransportPhase::Pausing => TransportAction::PauseMs(ADVERTISE_ERROR_PAUSE_MS),
        }
    }

    pub open spec fn answers(self, event: TransportEvent) -> bool {
        match self.due() {
            TransportAction::WaitSplitWindow => event is SplitWindowOpen || event is ProfileChanged,
            TransportAction::Advertise { .. } => event is Connected
                || event is AdvertisingTimeout || event is AdvertisingFailed
                || event is ProfileChanged,
            TransportAction::Serve => event is Left || event is ProfileChanged,
            TransportAction::TakeInput => event is InputTaken,
            TransportAction::DropConnection => event is Dropped,
            TransportAction::WaitWake => event is Woken || event is ProfileChanged,
            TransportAction::PauseMs(_) => event is Paused,
        }
    }

    /// A new round, resuming a sleeping link or not.
    pub open spec fn round(self, resuming_from_sleep: bool) -> BleTransport {
        BleTransport {
            resuming_from_sleep,
            phase: TransportPhase::Top,
            window_open: false,
            ..self
        }
    }

    pub open spec fn at(self, phase: TransportPhase) -> BleTransport {
        BleTransport { phase, ..self }
    }

    /// The loop, the state of the link and the effect after an event, given the
    /// state of the link before.
    pub open spec fn next(self, event: TransportEvent, state: BleState) -> (
        BleTransport,
        BleState,
        TransportEffect,
    ) {
        match (self.due(), event) {
            (TransportAction::WaitSplitWindow, TransportEvent::SplitWindowOpen) => (
                (BleTransport { window_open: true, ..self }).at(TransportPhase::Advertising),
                state,
                nothing(),
            ),
            (TransportAction::WaitSplitWindow, _) => (
                self.round(self.resuming_from_sleep),
                state,
                nothing(),
            ),
            (TransportAction::Advertise { .. }, TransportEvent::Connected) => (
                self.at(TransportPhase::Serving { was_resume: self.resuming_from_sleep }),
                state,
                nothing(),
            ),
            (
                TransportAction::Advertise { .. },
                TransportEvent::AdvertisingTimeout { transport_active },
            ) => if transport_active {
                (self.round(false), BleState::Inactive, activity())
            } else {
                (self.at(TransportPhase::Asleep), BleState::Sleeping, sleep())
            },
            (TransportAction::Advertise { .. }, TransportEvent::AdvertisingFailed) => (
                self.at(TransportPhase::Pausing),
                state,
                nothing(),
            ),
            (TransportAction::Advertise { .. }, _) => (
                self.round(false),
                state_after_round(state),
                activity(),
            ),
            (TransportAction::Serve, TransportEvent::Left(BleKeyboardExit::Disconnected)) => (
                self.round(
                    self.phase->Serving_was_resume && state == BleState::Sleeping,
                ),
                state_after_round(state),
                nothing(),
            ),
            (TransportAction::Serve, TransportEvent::Left(BleKeyboardExit::IdleTimeout)) => (
                self.at(TransportPhase::IdleExit),
                state,
                nothing(),
            ),
            (TransportAction::Serve, _) => (
                (BleTransport { resuming_from_sleep: false, ..self }).at(
                    TransportPhase::ProfileDropping,
                ),
                state,
                activity(),
            ),
            (TransportAction::TakeInput, TransportEvent::InputTaken { activity }) => (
                self.at(TransportPhase::IdleDropping { activity }),
                state,
                nothing(),
            ),
            (TransportAction::DropConnection, _) => match self.phase {
                TransportPhase::IdleDropping { activity: true } => (
                    self.round(true),
                    state_after_round(state),
                    activity(),
                ),
                TransportPhase::IdleDropping { .. } => (
                    self.at(TransportPhase::Asleep),
                    state,
                    nothing(),
                ),
                _ => (self.round(self.resuming_from_sleep), state_after_round(state), nothing()),
            },
            (TransportAction::WaitWake, TransportEvent::Woken) => (
                self.round(true),
                state_after_round(state),
                activity(),
            ),
            (TransportAction::WaitWake, _) => (
                self.round(false),
                state_after_round(state),
                activity(),
            ),
            (TransportAction::PauseMs(_), _) => (
                self.round(self.resuming_from_sleep),
                state_after_round(state),
                nothing(),
            ),
            _ => (self, state, nothing()),
        }
    }

    pub fn new(has_split: bool) -> (transport: BleTransport)
        ensures
            transport == (BleTransport {
                has_split,
                resuming_from_sleep: false,
                phase: TransportPhase::Top,
                window_open: false,
            }),
    {
        BleTransport {
            has_split,
            resuming_from_sleep: false,
            phase: TransportPhase::Top,
            window_open: false,
        }
    }

    pub fn action(&self) -> (action: TransportAction)
        ensures
            action == self.due(),
    {
        match self.phase {
            TransportPhase::Top => if self.has_split && !self.window_open {
                TransportAction::WaitSplitWindow
            } else {
                TransportAction::Advertise { resuming_from_sleep: self.resuming_from_sleep }
            },
            TransportPhase::Advertising => TransportAction::Advertise {
                resuming_from_sleep: self.resuming_from_sleep,
            },
            TransportPhase::Serving { .. } => TransportAction::Serve,
            TransportPhase::IdleExit => TransportAction::TakeInput,
            TransportPhase::IdleDropping { .. } => TransportAction::DropConnection,
            TransportPhase::Asleep => TransportAction::WaitWake,
            TransportPhase::ProfileDropping => TransportAction::DropConnection,
            TransportPhase::Pausing => TransportAction::PauseMs(ADVERTISE_ERROR_PAUSE_MS),
        }
    }

    /// Ends a round.
    fn finish_round(&mut self, resuming_from_sleep: bool, status: &mut BleStatusCell)
        ensures
            *final(self) == old(self).round(resuming_from_sleep),
            final(status).status.state == state_after_round(old(status).status.state),
            final(status).status.profile == old(status).status.profile,
            final(status).advertising_mode == old(status).advertising_mode,
    {
        self.start_round(resuming_from_sleep);
        match status.current_ble_status().state {
            BleState::Advertising | BleState::Sleeping => {},
            _ => {
                status.set_ble_state(BleState::Inactive);
            },
        }
    }

    fn start_round(&mut self, resuming_from_sleep: bool)
        ensures
            *final(self) == old(self).round(resuming_from_sleep),
    {
        self.resuming_from_sleep = resuming_from_sleep;
        self.phase = TransportPhase::Top;
        self.window_open = false;
    }

    fn effect(request_sleep: bool, report_activity: bool) -> (effect: TransportEffect)
        ensures
            effect == (TransportEffect { request_sleep, report_activity }),
    {
        TransportEffect { request_sleep, report_activity }
    }

    /// Takes what came of the action that was due, publishes the state of the
    /// link and says what the sleep manager is to be told.
    pub fn advance(&mut self, event: TransportEvent, status: &mut BleStatusCell) -> (effect:
        TransportEffect)
        requires
            old(self).answers(event),
        ensures
            (*final(self), final(status).status.state, effect) == old(self).next(
                event,
                old(status).status.state,
            ),
            final(status).status.profile == old(status).status.profile,
            final(status).advertising_mode == old(status).advertising_mode,
    {
        let action = self.action();
        match event {
            TransportEvent::SplitWindowOpen => {
                self.window_open = true;
                self.phase = TransportPhase::Advertising;
                BleTransport::effect(false, false)
            },
            TransportEvent::Connected => {
                self.phase = TransportPhase::Serving { was_resume: self.resuming_from_sleep };
                BleTransport::effect(false, false)
            },
            TransportEvent::AdvertisingTimeout { transport_active } => {
                if transport_active {
                    // A failed BLE host window must not put the whole keyboard
                    // to sleep while another host transport is available.
                    self.start_round(false);
                    status.set_ble_state(BleState::Inactive);
                    return BleTransport::effect(false, true);
                }
                status.set_ble_state(BleState::Sleeping);
                self.phase = TransportPhase::Asleep;
                BleTransport::effect(true, false)
            },
            TransportEvent::AdvertisingFailed => {
                self.phase = TransportPhase::Pausing;
                BleTransport::effect(false, false)
            },
            TransportEvent::Left(exit) => self.take_exit(exit, status),
            TransportEvent::InputTaken { activity } => {
                self.phase = TransportPhase::IdleDropping { activity };
                BleTransport::effect(false, false)
            },
            TransportEvent::Dropped => self.take_drop(status),
            TransportEvent::Woken => {
                self.finish_round(true, status);
                BleTransport::effect(false, true)
            },
            TransportEvent::Paused => {
                let resuming: bool = self.resuming_from_sleep;
                self.finish_round(resuming, status);
                BleTransport::effect(false, false)
            },
            TransportEvent::ProfileChanged => match action {
                TransportAction::WaitSplitWindow => {
                    let resuming: bool = self.resuming_from_sleep;
                    self.start_round(resuming);
                    BleTransport::effect(false, false)
                },
                TransportAction::Serve => {
                    self.resuming_from_sleep = false;
                    self.phase = TransportPhase::ProfileDropping;
                    BleTransport::effect(false, true)
                },
                _ => {
                    self.finish_round(false, status);
                    BleTransport::effect(false, true)
                },
            },
        }
    }

    fn take_exit(&mut self, exit: BleKeyboardExit, status: &mut BleStatusCell) -> (effect:
        TransportEffect)
        requires
            old(self).phase is Serving,
        ensures
            (*final(self), final(status).status.state, effect) == old(self).next(
                TransportEvent::Left(exit),
                old(status).status.state,
            ),
            final(status).status.profile == old(status).status.profile,
            final(status).advertising_mode == old(status).advertising_mode,
    {
        match exit {
            BleKeyboardExit::Disconnected => {
                // If wake advertising connected but encryption never completed,
                // retain Sleeping and retry.
                let was_resume: bool = match self.phase {
                    TransportPhase::Serving { was_resume } => was_resume,
                    _ => false,
                };
                let resuming: bool = was_resume && match status.current_ble_status().state {
                    BleState::Sleeping => true,
                    _ => false,
                };
                self.finish_round(resuming, status);
            },
            BleKeyboardExit::IdleTimeout => {
                self.phase = TransportPhase::IdleExit;
            },
        }
        BleTransport::effect(false, false)
    }

    fn take_drop(&mut self, status: &mut BleStatusCell) -> (effect: TransportEffect)
        requires
            old(self).due() == TransportAction::DropConnection,
        ensures
            (*final(self), final(status).status.state, effect) == old(self).next(
                TransportEvent::Dropped,
                old(status).status.state,
            ),
            final(status).status.profile == old(status).status.profile,
            final(status).advertising_mode == old(status).advertising_mode,
    {
        match self.phase {
            TransportPhase::IdleDropping { activity } => {
                if activity {
                    self.finish_round(true, status);
                    BleTransport::effect(false, true)
                } else {
                    self.phase = TransportPhase::Asleep;
                    BleTransport::effect(false, false)
                }
            },
            _ => {
                let resuming: bool = self.resuming_from_sleep;
                self.finish_round(resuming, status);
                BleTransport::effect(false, false)
            },
        }
    }
}

// One connection

/// What is set up for a connected host.
#[derive(Clone, Copy, Debug, PartialEq, Eq, Structural)]
pub struct SessionPlan {
    /// Run the battery service.
    pub battery_service: bool,
    /// Restore the stored notification subscriptions.
    pub restore_subscriptions: bool,
}

/// Prepares the session of a connected host. The readable battery level is
/// seeded before any host request is processed, and subscriptions are restored
/// for the bonded peer only. `stored_bond` says whether the identity of the
/// stored bond, where there is one, is the peer's.
pub fn plan_session(
    battery_enabled: bool,
    battery: BatteryStatus,
    gatt_level: &mut u8,
    stored_bond: Option<bool>,
) -> (plan: SessionPlan)
    ensures
        plan.battery_service == battery_enabled,
        plan.restore_subscriptions == (stored_bond == Some(true)),
        *final(gatt_level) == (match battery {
            BatteryStatus::Available { level: Some(level), .. } if battery_enabled => level,
            _ => *old(gatt_level),
        }),
{
    if battery_enabled {
        seed_battery_level(gatt_level, battery);
    }
    SessionPlan {
        battery_service: battery_enabled,
        restore_subscriptions: match stored_bond {
            Some(matches_peer) => matches_peer,
            None => false,
        },
    }
}

/// Which task ended a session.
#[derive(Clone, Copy, Debug, PartialEq, Eq, Structural)]
pub enum SessionEnd {
    /// The GATT events ran out.
    Gatt,
    /// The power policy left the link.
    Power(BleKeyboardExit),
}

pub fn session_exit(end: SessionEnd) -> (exit: BleKeyboardExit)
    ensures
        exit == (match end {
            SessionEnd::Gatt => BleKeyboardExit::Disconnected,
            SessionEnd::Power(exit) => exit,
        }),
{
    match end {
        SessionEnd::Gatt => BleKeyboardExit::Disconnected,
        SessionEnd::Power(exit) => exit,
    }
}

// Laws

/// A failed BLE window never puts the keyboard to sleep while another transport
/// is active.
pub proof fn law_active_transport_keeps_the_keyboard_awake(transport: BleTransport, state: BleState)
    requires
        transport.due() is Advertise,
    ensures
        ({
            let (rest, after, effect) = transport.next(
                TransportEvent::AdvertisingTimeout { transport_active: true },
                state,
            );
            &&& !effect.request_sleep && effect.report_activity
            &&& after == BleState::Inactive
            &&& !rest.resuming_from_sleep && rest.phase == TransportPhase::Top
        }),
{
}

/// Sleep is requested in exactly one place: when nobody connects in time and no
/// other transport is active. The link counts as sleeping from then on.
pub proof fn law_sleep_is_requested_only_after_a_timeout(
    transport: BleTransport,
    event: TransportEvent,
    state: BleState,
)
    requires
        transport.answers(event),
    ensures
        transport.next(event, state).2.request_sleep <==> event
            == (TransportEvent::AdvertisingTimeout { transport_active: false }),
        transport.next(event, state).2.request_sleep ==> transport.next(event, state).1
            == BleState::Sleeping,
{
}

/// A sleeping link stays sleeping while it is resumed: only a connection that
/// is encrypted, which happens outside this loop, or another active transport
/// ends it.
pub proof fn law_resuming_retains_sleep(
    transport: BleTransport,
    event: TransportEvent,
)
    requires
        transport.answers(event),
        !(event matches TransportEvent::AdvertisingTimeout { transport_active } && transport_active),
    ensures
        transport.next(event, BleState::Sleeping).1 == BleState::Sleeping,
{
}

/// A link is resumed only because of local input, or because a resumed
/// connection broke before it was encrypted.
pub proof fn law_resume_needs_a_reason(
    transport: BleTransport,
    event: TransportEvent,
    state: BleState,
)
    requires
        transport.answers(event),
        !transport.resuming_from_sleep,
        transport.next(event, state).0.resuming_from_sleep,
    ensures
        event == TransportEvent::Woken || transport.phase == (TransportPhase::IdleDropping {
            activity: true,
        }) || (transport.phase == (TransportPhase::Serving { was_resume: true }) && state
            == BleState::Sleeping),
{
}

/// A profile change always starts over without resuming.
pub proof fn law_profile_change_does_not_resume(transport: BleTransport, state: BleState)
    requires
        transport.answers(TransportEvent::ProfileChanged),
        transport.due() != TransportAction::WaitSplitWindow,
    ensures
        !transport.next(TransportEvent::ProfileChanged, state).0.resuming_from_sleep,
        transport.next(TransportEvent::ProfileChanged, state).2.report_activity,
{
}

/// With split links, the radio is never used for advertising before the split
/// window of the round was open.
pub proof fn law_split_links_come_first(
    transport: BleTransport,
    event: TransportEvent,
    state: BleState,
)
    requires
        transport.answers(event),
        transport.has_split,
        transport.due() is Advertise ==> transport.window_open,
    ensures
        transport.next(event, state).0.due() is Advertise ==> transport.next(
            event,
            state,
        ).0.window_open,
{
}

/// A host that goes away is looked for again: whether or not its link resumed a
/// sleeping one, the loop is at the top of a new round, which advertises, after
/// the split window in a build with split links. Only a resumed link that was
/// never encrypted is resumed once more.
pub proof fn law_lost_host_is_advertised_for(
    transport: BleTransport,
    was_resume: bool,
    state: BleState,
)
    requires
        transport.phase == (TransportPhase::Serving { was_resume }),
    ensures
        ({
            let (rest, after, effect) = transport.next(
                TransportEvent::Left(BleKeyboardExit::Disconnected),
                state,
            );
            let resuming = was_resume && state == BleState::Sleeping;
            &&& transport.has_split ==> rest.due() == TransportAction::WaitSplitWindow
            &&& !transport.has_split ==> rest.due() == (TransportAction::Advertise {
                resuming_from_sleep: resuming,
            })
            &&& rest.resuming_from_sleep == resuming && rest.has_split == transport.has_split
            &&& state == BleState::Advertising || state == BleState::Sleeping ==> after == state
            &&& state == BleState::Connected || state == BleState::Inactive ==> after
                == BleState::Inactive
            &&& !effect.request_sleep && !effect.report_activity
        }),
{
}

/// The loop waits for a wake-up for two reasons only: nobody answered the
/// advertising in time while no other transport was active, or the link idled
/// out and no input came meanwhile.
pub proof fn law_waiting_for_a_wake_has_a_reason(
    transport: BleTransport,
    event: TransportEvent,
    state: BleState,
)
    requires
        transport.answers(event),
    ensures
        transport.next(event, state).0.due() == TransportAction::WaitWake <==> (transport.due()
            is Advertise && event == (TransportEvent::AdvertisingTimeout {
            transport_active: false,
        })) || (transport.phase == (TransportPhase::IdleDropping { activity: false }) && event
            == TransportEvent::Dropped),
{
}

/// A split build waits for the split window at the top of a round, and then
/// advertises as it would have without one. A profile change meanwhile starts
/// the round over.
pub proof fn law_split_window_opens_the_round(transport: BleTransport, state: BleState)
    requires
        transport.phase == TransportPhase::Top,
        transport.has_split,
        !transport.window_open,
    ensures
        ({
            let (open, after, effect) = transport.next(TransportEvent::SplitWindowOpen, state);
            let (again, kept, none) = transport.next(TransportEvent::ProfileChanged, state);
            &&& transport.due() == TransportAction::WaitSplitWindow
            &&& open.due() == (TransportAction::Advertise {
                resuming_from_sleep: transport.resuming_from_sleep,
            })
            &&& open.resuming_from_sleep == transport.resuming_from_sleep
            &&& again == transport
            &&& after == state && kept == state
            &&& !effect.request_sleep && !effect.report_activity
            &&& !none.request_sleep && !none.report_activity
        }),
{
}

/// A build without split links advertises at the top of every round, and a new
/// loop resumes nothing.
pub proof fn law_round_begins_with_advertising(transport: BleTransport)
    requires
        transport.phase == TransportPhase::Top || transport.phase == TransportPhase::Advertising,
    ensures
        !transport.has_split || transport.window_open || transport.phase
            == TransportPhase::Advertising ==> transport.due() == (TransportAction::Advertise {
            resuming_from_sleep: transport.resuming_from_sleep,
        }),
{
}

/// A host that answers the advertising is served, and the link remembers
/// whether it resumes a sleeping one.
pub proof fn law_connected_host_is_served(transport: BleTransport, state: BleState)
    requires
        transport.due() is Advertise,
    ensures
        ({
            let (rest, after, effect) = transport.next(TransportEvent::Connected, state);
            &&& rest.due() == TransportAction::Serve
            &&& rest.phase == (TransportPhase::Serving {
                was_resume: transport.resuming_from_sleep,
            })
            &&& rest.resuming_from_sleep == transport.resuming_from_sleep
            &&& rest.has_split == transport.has_split
            &&& after == state
            &&& !effect.request_sleep && !effect.report_activity
        }),
{
}

/// An unanswered advertisement puts the keyboard to sleep, unless another
/// transport is active, which counts as activity and starts a new round.
pub proof fn law_unanswered_advertising_leads_to_sleep(
    transport: BleTransport,
    transport_active: bool,
    state: BleState,
)
    requires
        transport.due() is Advertise,
    ensures
        ({
            let (rest, after, effect) = transport.next(
                TransportEvent::AdvertisingTimeout { transport_active },
                state,
            );
            &&& rest.has_split == transport.has_split
            &&& !transport_active ==> rest.due() == TransportAction::WaitWake && after
                == BleState::Sleeping && effect.request_sleep && !effect.report_activity
            &&& transport_active ==> after == BleState::Inactive && !effect.request_sleep
                && effect.report_activity && !rest.resuming_from_sleep && rest.due() == (
            if transport.has_split {
                TransportAction::WaitSplitWindow
            } else {
                TransportAction::Advertise { resuming_from_sleep: false }
            })
        }),
{
}

/// Failed advertising is repeated after a pause of 200 ms, and resumes what it
/// was to resume.
pub proof fn law_failed_advertising_is_repeated(
    transport: BleTransport,
    state: BleState,
    later: BleState,
)
    requires
        transport.due() is Advertise,
    ensures
        ({
            let (paused, after, effect) = transport.next(TransportEvent::AdvertisingFailed, state);
            let (rest, end, none) = paused.next(TransportEvent::Paused, later);
            &&& paused.due() == TransportAction::PauseMs(200)
            &&& after == state
            &&& !effect.request_sleep && !effect.report_activity
            &&& rest.due() == (if transport.has_split {
                TransportAction::WaitSplitWindow
            } else {
                TransportAction::Advertise { resuming_from_sleep: transport.resuming_from_sleep }
            })
            &&& rest.resuming_from_sleep == transport.resuming_from_sleep
            &&& later == BleState::Advertising || later == BleState::Sleeping ==> end == later
            &&& later == BleState::Connected || later == BleState::Inactive ==> end
                == BleState::Inactive
            &&& !none.request_sleep && !none.report_activity
        }),
{
}

/// A profile change during advertising, or while the loop waits for a wake-up,
/// is activity and starts a new round that resumes nothing.
pub proof fn law_profile_change_starts_a_round(transport: BleTransport, state: BleState)
    requires
        transport.due() is Advertise || transport.due() == TransportAction::WaitWake,
    ensures
        ({
            let (rest, after, effect) = transport.next(TransportEvent::ProfileChanged, state);
            &&& rest.due() == (if transport.has_split {
                TransportAction::WaitSplitWindow
            } else {
                TransportAction::Advertise { resuming_from_sleep: false }
            })
            &&& !rest.resuming_from_sleep
            &&& state == BleState::Advertising || state == BleState::Sleeping ==> after == state
            &&& state == BleState::Connected || state == BleState::Inactive ==> after
                == BleState::Inactive
            &&& !effect.request_sleep && effect.report_activity
        }),
{
}

/// A profile change while a host is served is activity: the connection is
/// dropped, and the round that follows resumes nothing.
pub proof fn law_profile_change_drops_the_host(
    transport: BleTransport,
    state: BleState,
    later: BleState,
)
    requires
        transport.phase is Serving,
    ensures
        ({
            let (dropping, after, effect) = transport.next(TransportEvent::ProfileChanged, state);
            let (rest, end, none) = dropping.next(TransportEvent::Dropped, later);
            &&& dropping.due() == TransportAction::DropConnection
            &&& after == state
            &&& !effect.request_sleep && effect.report_activity
            &&& rest.due() == (if transport.has_split {
                TransportAction::WaitSplitWindow
            } else {
                TransportAction::Advertise { resuming_from_sleep: false }
            })
            &&& !rest.resuming_from_sleep
            &&& later == BleState::Advertising || later == BleState::Sleeping ==> end == later
            &&& later == BleState::Connected || later == BleState::Inactive ==> end
                == BleState::Inactive
            &&& !none.request_sleep && !none.report_activity
        }),
{
}

/// A link that idled out is dropped once its input was taken. Input that came
/// meanwhile is activity and resumes the link; without it the loop waits for a
/// wake-up.
pub proof fn law_idle_link_is_dropped(
    transport: BleTransport,
    activity: bool,
    first: BleState,
    second: BleState,
    third: BleState,
)
    requires
        transport.phase is Serving,
    ensures
        ({
            let (idle, state_1, effect_1) = transport.next(
                TransportEvent::Left(BleKeyboardExit::IdleTimeout),
                first,
            );
            let (dropping, state_2, effect_2) = idle.next(
                TransportEvent::InputTaken { activity },
                second,
            );
            let (rest, state_3, effect_3) = dropping.next(TransportEvent::Dropped, third);
            &&& idle.due() == TransportAction::TakeInput
            &&& dropping.due() == TransportAction::DropConnection
            &&& state_1 == first && state_2 == second
            &&& !effect_1.request_sleep && !effect_1.report_activity
            &&& !effect_2.request_sleep && !effect_2.report_activity
            &&& !effect_3.request_sleep && effect_3.report_activity == activity
            &&& !activity ==> rest.due() == TransportAction::WaitWake && state_3 == third
            &&& activity ==> rest.resuming_from_sleep && rest.due() == (if transport.has_split {
                TransportAction::WaitSplitWindow
            } else {
                TransportAction::Advertise { resuming_from_sleep: true }
            })
            &&& activity && (third == BleState::Advertising || third == BleState::Sleeping)
                ==> state_3 == third
            &&& activity && (third == BleState::Connected || third == BleState::Inactive)
                ==> state_3 == BleState::Inactive
        }),
{
}

/// Local input wakes the loop: it is activity, and the next round resumes the
/// sleeping link.
pub proof fn law_input_resumes_the_link(transport: BleTransport, state: BleState)
    requires
        transport.phase == TransportPhase::Asleep,
    ensures
        ({
            let (rest, after, effect) = transport.next(TransportEvent::Woken, state);
            &&& transport.due() == TransportAction::WaitWake
            &&& rest.resuming_from_sleep && rest.due() == (if transport.has_split {
                TransportAction::WaitSplitWindow
            } else {
                TransportAction::Advertise { resuming_from_sleep: true }
            })
            &&& state == BleState::Advertising || state == BleState::Sleeping ==> after == state
            &&& state == BleState::Connected || state == BleState::Inactive ==> after
                == BleState::Inactive
            &&& !effect.request_sleep && effect.report_activity
        }),
{
}

/// The loop begins at the top of a round that resumes nothing, names the action
/// that is due, and moves as its events say. The profile and the advertising
/// mode are never touched.
pub proof fn law_loop_follows_its_events()
    ensures
        forall|has_split: bool, transport: BleTransport| #[trigger]
            call_ensures(BleTransport::new, (has_split,), transport) ==> {
                &&& transport.has_split == has_split && !transport.resuming_from_sleep
                &&& has_split ==> transport.due() == TransportAction::WaitSplitWindow
                &&& !has_split ==> transport.due() == (TransportAction::Advertise {
                    resuming_from_sleep: false,
                })
            },
        forall|transport: &BleTransport, action: TransportAction| #[trigger]
            call_ensures(BleTransport::action, (transport,), action) ==> action
                == (*transport).due(),
        forall|
            transport: &mut BleTransport,
            event: TransportEvent,
            status: &mut BleStatusCell,
            effect: TransportEffect,
        | #[trigger]
            call_ensures(BleTransport::advance, (transport, event, status), effect) ==> {
                &&& (*final(transport), final(status).status.state, effect) == (*transport).next(
                    event,
                    (*status).status.state,
                )
                &&& final(status).status.profile == (*status).status.profile
                &&& final(status).advertising_mode == (*status).advertising_mode
            },
{
}

/// Of the ways in which advertising ends without a host only a timeout may lead
/// to sleep, and of the inputs that come while a link idles out only one that
/// asks for no suspend is activity.
pub proof fn law_outside_results_become_events()
    ensures
        forall|error: HostError, active: bool, event: TransportEvent| #[trigger]
            call_ensures(TransportEvent::advertising_ended, (error, active), event) ==> {
                &&& error == HostError::Timeout ==> event == (TransportEvent::AdvertisingTimeout {
                    transport_active: active,
                })
                &&& error != HostError::Timeout ==> event == TransportEvent::AdvertisingFailed
            },
        forall|input: Option<bool>, event: TransportEvent| #[trigger]
            call_ensures(TransportEvent::input_taken, (input,), event) ==> {
                &&& input == Some(false) ==> event == (TransportEvent::InputTaken { activity: true })
                &&& input != Some(false) ==> event == (TransportEvent::InputTaken {
                    activity: false,
                })
            },
{
}

/// A session runs the battery service and seeds its level exactly where the
/// service is enabled, and restores subscriptions for the bonded peer alone. It
/// is left as its power policy says, and as disconnected when its events end.
pub proof fn law_session_is_planned_for_its_peer()
    ensures
        forall|
            enabled: bool,
            battery: BatteryStatus,
            level: &mut u8,
            bond: Option<bool>,
            plan: SessionPlan,
        | #[trigger]
            call_ensures(plan_session, (enabled, battery, level, bond), plan) ==> {
                let measured = battery matches BatteryStatus::Available { level: known, .. }
                    && known is Some;
                &&& plan.battery_service == enabled
                &&& plan.restore_subscriptions <==> bond == Some(true)
                &&& enabled && measured ==> Some(*final(level)) == battery->level
                &&& !enabled || !measured ==> *final(level) == *level
            },
        forall|end: SessionEnd, exit: BleKeyboardExit| #[trigger]
            call_ensures(session_exit, (end,), exit) ==> {
                &&& end is Gatt ==> exit == BleKeyboardExit::Disconnected
                &&& end matches SessionEnd::Power(reason) ==> exit == reason
            },
{
}

} // verus!
