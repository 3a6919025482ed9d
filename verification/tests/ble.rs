use k04_firmware::battery::{seed_battery_level, BatteryStatus, ChargeState};
use k04_firmware::ble_advertising::{
    advertiser_data, advertising_mode, directed_reconnect_should_continue,
    pairing_window_timeout_secs, AdvertiseProgress, AdvertiseTask, HostError, WindowKind,
    WindowOutcome, BATTERY_SERVICE, HID_SERVICE, KEYBOARD_APPEARANCE,
};
use k04_firmware::ble_gatt::{
    host_packet, ConnectionEvent, GattHandles, GattOutcome, GattReply, GattRequest, GattSession,
    request_reply, PasskeyEntry, SessionAction, VialHandles, WriteEffect,
};
use k04_firmware::ble_host_power::{
    host_connection_params, next_host_power_timer, next_host_power_transition, BleHostPowerConfig,
    BleKeyboardExit, HostPowerTask, HostPowerTimer, HostPowerTransition, PowerAction, PowerEvent,
    RequestedConnParams, HOST_IDLE_MAX_LATENCY, HOST_INTERACTIVE_MAX_LATENCY,
};
use k04_firmware::ble_link::{
    host_phy_update_state, is_hci_link_update_busy, HostPhyTask, HostPhyUpdateState, LinkAction,
    LinkEvent, LinkProgress, LinkUpdateTask, PhyAction, PhyEvent, PhyKind, HOST_PHY_UPDATE_ATTEMPTS,
};
use k04_firmware::ble_status::{BleAdvertisingMode, BleState, BleStatus, BleStatusCell};
use k04_firmware::ble_transport::{
    plan_session, session_exit, BleTransport, SessionEnd, SessionPlan, TransportAction,
    TransportEvent,
};
use k04_firmware::channel::{BleHostTransport, HostTransport};
use k04_firmware::time::{Duration, Instant};

fn secs(secs: u64) -> Duration {
    Duration::from_ticks(embassy_time::Duration::from_secs(secs).as_ticks())
}

fn millis(millis: u64) -> Duration {
    Duration::from_ticks(embassy_time::Duration::from_millis(millis).as_ticks())
}

fn micros(micros: u64) -> Duration {
    Duration::from_ticks(embassy_time::Duration::from_micros(micros).as_ticks())
}

fn stack_params(params: RequestedConnParams) -> trouble_host::connection::RequestedConnParams {
    let ticks = |duration: Duration| embassy_time::Duration::from_ticks(duration.ticks);
    trouble_host::connection::RequestedConnParams {
        min_connection_interval: ticks(params.min_connection_interval),
        max_connection_interval: ticks(params.max_connection_interval),
        max_latency: params.max_latency,
        min_event_length: ticks(params.min_event_length),
        max_event_length: ticks(params.max_event_length),
        supervision_timeout: ticks(params.supervision_timeout),
    }
}

#[test]
fn only_transaction_collision_and_controller_busy_retry_link_updates() {
    assert!(is_hci_link_update_busy(0x2a));
    assert!(is_hci_link_update_busy(0x3a));
    assert!(!is_hci_link_update_busy(0x00));
    assert!(!is_hci_link_update_busy(0x08));
}

#[test]
fn advertising_without_active_bond_uses_pairing_mode() {
    assert_eq!(advertising_mode(false), BleAdvertisingMode::Pairing);
}

#[test]
fn advertising_with_active_bond_uses_reconnecting_mode() {
    assert_eq!(advertising_mode(true), BleAdvertisingMode::Reconnecting);
}

#[test]
fn bonded_profile_does_not_open_pairing_window() {
    assert_eq!(pairing_window_timeout_secs(true, 60, 300), None);
}

#[test]
fn unbonded_profile_uses_configured_pairing_window() {
    assert_eq!(pairing_window_timeout_secs(false, 60, 300), Some(60));
}

#[test]
fn unbonded_profile_preserves_legacy_pairing_timeout_fallback() {
    assert_eq!(pairing_window_timeout_secs(false, 0, 300), Some(300));
}

#[test]
fn high_duty_timeout_continues_with_low_duty_reconnect() {
    assert!(directed_reconnect_should_continue(&HostError::Timeout));
    assert!(!directed_reconnect_should_continue(&HostError::Disconnected));
}

#[test]
fn host_phy_update_stops_only_after_bidirectional_2m_is_verified() {
    assert_eq!(
        host_phy_update_state(PhyKind::Le2M, PhyKind::Le2M, 1),
        HostPhyUpdateState::Verified
    );
    assert_eq!(host_phy_update_state(PhyKind::Le2M, PhyKind::Le1M, 1), HostPhyUpdateState::Retry);
    assert_eq!(host_phy_update_state(PhyKind::Le1M, PhyKind::Le2M, 1), HostPhyUpdateState::Retry);
}

#[test]
fn host_phy_update_stops_retrying_after_bounded_attempts() {
    assert_eq!(
        host_phy_update_state(PhyKind::Le1M, PhyKind::Le1M, HOST_PHY_UPDATE_ATTEMPTS - 1),
        HostPhyUpdateState::Retry
    );
    assert_eq!(
        host_phy_update_state(PhyKind::Le1M, PhyKind::Le1M, HOST_PHY_UPDATE_ATTEMPTS),
        HostPhyUpdateState::Exhausted
    );
}

#[test]
fn vial_interactive_connection_params_remove_only_slave_latency() {
    let idle = host_connection_params(micros(7500), HOST_IDLE_MAX_LATENCY);
    let interactive = host_connection_params(micros(7500), HOST_INTERACTIVE_MAX_LATENCY);

    assert!(stack_params(idle).is_valid());
    assert!(stack_params(interactive).is_valid());
    assert_eq!(idle.min_connection_interval, interactive.min_connection_interval);
    assert_eq!(idle.max_connection_interval, interactive.max_connection_interval);
    assert_eq!(idle.max_latency, 30);
    assert_eq!(interactive.max_latency, 0);
    assert_eq!(idle.supervision_timeout, interactive.supervision_timeout);
}

#[test]
fn host_power_policy_enters_idle_before_full_disconnect() {
    let config = BleHostPowerConfig::new(secs(2 * 60), 10 * 60);

    assert_eq!(
        next_host_power_transition(config, false),
        (secs(2 * 60), HostPowerTransition::EnterIdle)
    );
    assert_eq!(
        next_host_power_transition(config, true),
        (secs(10 * 60), HostPowerTransition::Disconnect)
    );
}

#[test]
fn host_power_policy_disconnects_directly_when_timeout_precedes_idle() {
    let config = BleHostPowerConfig::new(secs(2 * 60), 60);

    assert_eq!(
        next_host_power_transition(config, false),
        (secs(60), HostPowerTransition::Disconnect)
    );
}

#[test]
fn low_duty_connection_params_use_a_longer_interval() {
    let active = host_connection_params(micros(7500), HOST_IDLE_MAX_LATENCY);
    let low_duty = host_connection_params(millis(30), HOST_IDLE_MAX_LATENCY);

    assert!(stack_params(active).is_valid());
    assert!(stack_params(low_duty).is_valid());
    assert!(low_duty.min_connection_interval.ticks > active.min_connection_interval.ticks);
    assert_eq!(low_duty.max_latency, active.max_latency);
}

#[test]
fn advertising_mode_snapshot_tracks_latest_state() {
    let mut cell = BleStatusCell::new();

    cell.set_ble_advertising_mode(BleAdvertisingMode::Pairing);
    assert_eq!(cell.current_ble_advertising_mode(), BleAdvertisingMode::Pairing);

    cell.set_ble_advertising_mode(BleAdvertisingMode::Reconnecting);
    assert_eq!(cell.current_ble_advertising_mode(), BleAdvertisingMode::Reconnecting);
}

#[test]
fn cached_battery_level_is_seeded_into_gatt_server() {
    let mut level = 0u8;

    seed_battery_level(
        &mut level,
        BatteryStatus::Available { charge_state: ChargeState::Discharging, level: Some(87) },
    );
    assert_eq!(level, 87);

    seed_battery_level(&mut level, BatteryStatus::Unavailable);
    assert_eq!(level, 87);

    seed_battery_level(
        &mut level,
        BatteryStatus::Available { charge_state: ChargeState::Discharging, level: Some(0) },
    );
    assert_eq!(level, 0);
}

#[test]
fn set_ble_state_preserves_current_profile() {
    let mut cell = BleStatusCell::new();

    cell.set_ble_profile(2);
    cell.set_ble_state(BleState::Advertising);

    assert_eq!(
        cell.current_ble_status(),
        BleStatus { profile: 2, state: BleState::Advertising }
    );
}

#[test]
fn set_ble_profile_resets_state_when_profile_changes() {
    let mut cell = BleStatusCell::new();

    cell.set_ble_profile(1);
    cell.set_ble_state(BleState::Connected);
    cell.set_ble_profile(3);

    assert_eq!(cell.current_ble_status(), BleStatus { profile: 3, state: BleState::Inactive });
    cell.set_ble_state(BleState::Connected);
    cell.set_ble_profile(3);
    assert_eq!(cell.current_ble_status().state, BleState::Connected);
}

// Advertising

#[test]
fn assigned_numbers_are_those_of_the_stack() {
    assert_eq!(
        BATTERY_SERVICE.to_le_bytes(),
        trouble_host::prelude::service::BATTERY.to_le_bytes()
    );
    assert_eq!(
        HID_SERVICE.to_le_bytes(),
        trouble_host::prelude::service::HUMAN_INTERFACE_DEVICE.to_le_bytes()
    );
    assert_eq!(
        KEYBOARD_APPEARANCE.to_le_bytes(),
        trouble_host::prelude::appearance::human_interface_device::KEYBOARD.to_le_bytes()
    );
}

#[test]
fn advertisement_has_flags_services_name_and_appearance() {
    let data = advertiser_data(b"K:04").unwrap();
    let mut expected = [0u8; 31];
    expected[..19].copy_from_slice(&[
        0x02, 0x01, 0x06, 0x05, 0x03, 0x0f, 0x18, 0x12, 0x18, 0x05, 0x09, b'K', b':', b'0', b'4',
        0x03, 0x19, 0xc1, 0x03,
    ]);
    assert_eq!(data, expected);
    assert!(advertiser_data(b"sixteen bytes!!!").is_ok());
    assert_eq!(advertiser_data(b"seventeen bytes!!"), Err(HostError::InsufficientSpace));
}

#[test]
fn bonded_host_gets_directed_windows_only() {
    let mut cell = BleStatusCell::new();
    let (mut task, _) = AdvertiseTask::start(b"K:04", true, false, 30, 60, &mut cell).unwrap();
    assert_eq!(cell.current_ble_status().state, BleState::Advertising);
    assert_eq!(cell.current_ble_advertising_mode(), BleAdvertisingMode::Reconnecting);
    let window = task.current_window();
    assert_eq!((window.kind, window.interval_ms), (WindowKind::DirectedHighDuty, 30));
    assert_eq!(window.timeout, millis(1_300));
    assert_eq!(
        task.advance(WindowOutcome::Failed(HostError::Timeout)),
        AdvertiseProgress::Running
    );
    let window = task.current_window();
    assert_eq!((window.kind, window.interval_ms), (WindowKind::Directed, 200));
    assert_eq!(window.timeout, millis(28_700));
    assert_eq!(
        task.advance(WindowOutcome::Elapsed),
        AdvertiseProgress::Failed(HostError::Timeout)
    );
    assert_eq!(
        task.advance(WindowOutcome::Failed(HostError::Disconnected)),
        AdvertiseProgress::Failed(HostError::Disconnected)
    );
}

#[test]
fn unbonded_profile_gets_fast_then_slow_windows() {
    let mut cell = BleStatusCell::new();
    cell.set_ble_state(BleState::Sleeping);
    let (mut task, _) = AdvertiseTask::start(b"K:04", false, true, 300, 45, &mut cell).unwrap();
    assert_eq!(cell.current_ble_status().state, BleState::Sleeping);
    assert_eq!(task.current_window().timeout, secs(30));
    assert_eq!(task.advance(WindowOutcome::Elapsed), AdvertiseProgress::Running);
    assert_eq!(task.current_window().timeout, secs(15));
    assert_eq!(task.current_window().kind, WindowKind::Undirected);
    assert_eq!(task.advance(WindowOutcome::Connected), AdvertiseProgress::Connected);
    let (mut short, _) = AdvertiseTask::start(b"K", false, false, 20, 0, &mut cell).unwrap();
    assert_eq!(short.current_window().timeout, secs(20));
    assert_eq!(
        short.advance(WindowOutcome::Failed(HostError::Timeout)),
        AdvertiseProgress::Failed(HostError::Timeout)
    );
    assert_eq!(
        short.advance(WindowOutcome::NotStarted(HostError::Hci(0x0c))),
        AdvertiseProgress::Failed(HostError::Hci(0x0c))
    );
}

#[test]
fn no_window_is_a_timeout() {
    let mut cell = BleStatusCell::new();
    assert_eq!(AdvertiseTask::start(b"K", true, false, 0, 60, &mut cell), Err(HostError::Timeout));
    assert_eq!(AdvertiseTask::start(b"K", false, false, 0, 0, &mut cell), Err(HostError::Timeout));
    let mut untouched = BleStatusCell::new();
    assert_eq!(
        AdvertiseTask::start(&[b'x'; 17], true, false, 30, 60, &mut untouched),
        Err(HostError::InsufficientSpace)
    );
    assert_eq!(untouched, BleStatusCell::new());
}

// Link updates

#[test]
fn phy_task_retries_until_verified() {
    let mut task = HostPhyTask::start();
    for attempt in 1..=2u8 {
        assert_eq!(task.attempt, attempt);
        assert_eq!(task.action(), PhyAction::RequestLe2M);
        assert!(task.advance(PhyEvent::Requested));
        assert_eq!(task.action(), PhyAction::WaitMs(80));
        assert!(task.advance(PhyEvent::Waited));
        assert_eq!(task.action(), PhyAction::ReadPhy);
        assert!(task.advance(PhyEvent::Phy { tx: PhyKind::Le1M, rx: PhyKind::Le2M }));
        assert_eq!(task.action(), PhyAction::CheckConnected);
        assert!(task.advance(PhyEvent::Connected(true)));
    }
    task.advance(PhyEvent::Requested);
    task.advance(PhyEvent::Waited);
    let mut lost = task;
    assert!(!task.advance(PhyEvent::Phy { tx: PhyKind::Le1M, rx: PhyKind::Le1M }));
    assert!(lost.advance(PhyEvent::PhyUnknown));
    assert!(!lost.advance(PhyEvent::Connected(true)));
    let mut first = HostPhyTask::start();
    first.advance(PhyEvent::Requested);
    first.advance(PhyEvent::Waited);
    assert!(!first.advance(PhyEvent::Phy { tx: PhyKind::Le2M, rx: PhyKind::Le2M }));
}

#[test]
fn link_update_retries_while_busy() {
    let mut task = LinkUpdateTask::start();
    let mut commands = 0;
    let result = loop {
        let event = match task.action() {
            LinkAction::CheckConnected => LinkEvent::Connected(true),
            LinkAction::Command => {
                commands += 1;
                LinkEvent::Refused(HostError::Hci(0x3a))
            }
            LinkAction::WaitMs(ms) => {
                assert_eq!(ms, 20);
                LinkEvent::Waited
            }
        };
        if let LinkProgress::Done(accepted) = task.advance(event) {
            break accepted;
        }
    };
    assert_eq!((result, commands), (false, 12));
    let mut task = LinkUpdateTask::start();
    task.advance(LinkEvent::Connected(true));
    let mut other = task;
    assert_eq!(other.advance(LinkEvent::Refused(HostError::Hci(0x08))), LinkProgress::Done(false));
    assert_eq!(other.advance(LinkEvent::Refused(HostError::Other)), LinkProgress::Done(false));
    assert_eq!(task.advance(LinkEvent::Accepted), LinkProgress::Done(true));
    let mut gone = LinkUpdateTask::start();
    assert_eq!(gone.advance(LinkEvent::Connected(false)), LinkProgress::Done(false));
}

// Host power

fn params(interval_us: u64, latency: u16) -> PowerAction {
    PowerAction::UpdateParams(host_connection_params(micros(interval_us), latency))
}

fn at(secs: u64) -> Instant {
    Instant::from_ticks(secs * 1_000_000)
}

fn settled(has_policy: bool, has_host: bool) -> HostPowerTask {
    let mut task = HostPowerTask::start(has_policy, has_host);
    assert_eq!(task.action(), PowerAction::WaitSecs(5));
    task.advance(PowerEvent::Waited);
    assert_eq!(task.action(), params(15_000, 30));
    task.advance(PowerEvent::ParamsDone { accepted: true, now: at(5) });
    assert_eq!(task.action(), PowerAction::WaitSecs(5));
    task.advance(PowerEvent::Waited);
    assert_eq!(task.action(), params(7_500, 30));
    task.advance(PowerEvent::ParamsDone { accepted: true, now: at(10) });
    task
}

fn policy() -> PowerEvent {
    PowerEvent::Policy { config: BleHostPowerConfig::new(secs(120), 1_800) }
}

#[test]
fn refused_short_interval_falls_back_to_15ms_without_latency() {
    let mut task = HostPowerTask::start(false, false);
    task.advance(PowerEvent::Waited);
    task.advance(PowerEvent::ParamsDone { accepted: true, now: at(5) });
    task.advance(PowerEvent::Waited);
    task.advance(PowerEvent::ParamsDone { accepted: false, now: at(10) });
    assert_eq!(task.action(), params(15_000, 0));
    task.advance(PowerEvent::ParamsDone { accepted: true, now: at(10) });
    assert_eq!(task.action(), PowerAction::WaitForever);
}

#[test]
fn idle_link_goes_low_duty_and_then_sleeps() {
    let mut task = settled(true, true);
    assert_eq!(task.action(), PowerAction::ReadPolicy);
    task.advance(policy());
    assert_eq!(task.action(), PowerAction::WaitUntil(at(130)));
    task.advance(PowerEvent::TimerFired { usb_active: false, now: at(130) });
    assert_eq!(task.action(), params(30_000, 30));
    task.advance(PowerEvent::ParamsDone { accepted: true, now: at(130) });
    task.advance(policy());
    assert_eq!(task.action(), PowerAction::WaitUntil(at(1_810)));
    let mut awake = task;
    awake.advance(PowerEvent::Input { immediate_suspend: false, now: at(140) });
    assert_eq!(awake.action(), params(7_500, 30));
    task.advance(PowerEvent::TimerFired { usb_active: false, now: at(1_810) });
    assert_eq!(task.action(), PowerAction::Leave);
    let mut cell = BleStatusCell::new();
    assert_eq!(task.leave(&mut cell), BleKeyboardExit::IdleTimeout);
    assert_eq!(cell.current_ble_status().state, BleState::Sleeping);
}

#[test]
fn active_usb_defers_power_transitions() {
    let mut task = settled(true, true);
    task.advance(policy());
    task.advance(PowerEvent::TimerFired { usb_active: true, now: at(130) });
    assert_eq!(task.action(), PowerAction::ReadPolicy);
    assert!(!task.idle_connection);
    task.advance(policy());
    assert_eq!(task.action(), PowerAction::WaitUntil(at(250)));
}

#[test]
fn vial_session_drops_latency_for_thirty_seconds() {
    let mut task = settled(true, true);
    task.advance(policy());
    task.advance(PowerEvent::VialActivity { now: at(20) });
    assert_eq!(task.action(), params(7_500, 0));
    task.advance(PowerEvent::ParamsDone { accepted: true, now: at(20) });
    task.advance(policy());
    assert_eq!(task.action(), PowerAction::WaitUntil(at(50)));
    task.advance(PowerEvent::VialActivity { now: at(30) });
    assert_eq!(task.action(), PowerAction::ReadPolicy);
    task.advance(policy());
    assert_eq!(task.action(), PowerAction::WaitUntil(at(60)));
    task.advance(PowerEvent::PolicyChanged);
    task.advance(policy());
    task.advance(PowerEvent::TimerFired { usb_active: false, now: at(60) });
    assert_eq!(task.action(), params(7_500, 30));
    task.advance(PowerEvent::ParamsDone { accepted: true, now: at(60) });
    task.advance(policy());
    task.advance(PowerEvent::Input { immediate_suspend: true, now: at(61) });
    assert_eq!(task.action(), PowerAction::Leave);
}

#[test]
fn vial_sessions_work_without_a_power_policy() {
    let mut task = settled(false, true);
    assert_eq!(task.action(), PowerAction::WaitVial);
    task.advance(PowerEvent::VialActivity { now: at(20) });
    assert_eq!(task.action(), params(7_500, 0));
    task.advance(PowerEvent::ParamsDone { accepted: true, now: at(20) });
    assert_eq!(task.action(), PowerAction::WaitVialFor(30));
    task.advance(PowerEvent::VialActivity { now: at(40) });
    assert_eq!(task.action(), PowerAction::WaitVialFor(30));
    task.advance(PowerEvent::VialTimeout);
    assert_eq!(task.action(), params(7_500, 30));
    task.advance(PowerEvent::ParamsDone { accepted: false, now: at(70) });
    assert_eq!(task.action(), PowerAction::WaitVial);
}

#[test]
fn power_timer_prefers_the_earlier_deadline() {
    let config = BleHostPowerConfig::new(secs(120), 1_800);
    assert_eq!(
        next_host_power_timer(config, false, at(0), true, at(80)),
        (at(110), HostPowerTimer::VialIdle)
    );
    assert_eq!(
        next_host_power_timer(config, false, at(0), true, at(90)),
        (at(120), HostPowerTimer::Power(HostPowerTransition::EnterIdle))
    );
    assert_eq!(config.disconnect_timeout(), secs(1_800));
}

// GATT

fn handles() -> GattHandles {
    GattHandles {
        output_keyboard: 1,
        hid_control_point: 2,
        input_keyboard_cccd: 3,
        mouse_cccd: 4,
        media_cccd: 5,
        system_cccd: 6,
        battery_level_cccd: 7,
        vial: Some(VialHandles {
            hid_output: 8,
            gatt_output: 9,
            hid_input_cccd: 10,
            gatt_input_cccd: 11,
        }),
    }
}

#[test]
fn writes_have_their_effects() {
    let handles = handles();
    assert_eq!(handles.write_effect(1, &[0x03]), WriteEffect::Leds(3));
    assert_eq!(handles.write_effect(1, &[0x03, 0]), WriteEffect::Ignored);
    for cccd in [3, 4, 5, 6, 7, 10, 11] {
        assert_eq!(handles.write_effect(cccd, &[1, 0]), WriteEffect::CccdUpdated);
    }
    assert_eq!(handles.write_effect(2, &[0]), WriteEffect::RequestSleep);
    assert_eq!(handles.write_effect(2, &[1]), WriteEffect::ReportActivity);
    assert_eq!(handles.write_effect(2, &[2]), WriteEffect::Ignored);
    assert_eq!(handles.write_effect(2, &[]), WriteEffect::Ignored);
    assert_eq!(handles.write_effect(8, &[0; 32]), WriteEffect::HostPacket(BleHostTransport::Hid));
    assert_eq!(
        handles.write_effect(9, &[0; 32]),
        WriteEffect::HostPacket(BleHostTransport::VendorGatt)
    );
    assert_eq!(handles.write_effect(9, &[0; 31]), WriteEffect::Ignored);
    assert_eq!(handles.write_effect(99, &[0; 32]), WriteEffect::Ignored);
    let mut plain = handles;
    plain.vial = None;
    assert_eq!(plain.write_effect(9, &[0; 32]), WriteEffect::Ignored);
}

#[test]
fn access_needs_encryption() {
    let handles = handles();
    assert_eq!(
        handles.handle_request(GattRequest::Read, &[], Some(false)),
        GattOutcome { effect: WriteEffect::Ignored, reply: Some(GattReply::Reject(0x0f)) }
    );
    assert_eq!(
        handles.handle_request(GattRequest::Write { handle: 1 }, &[5], Some(true)),
        GattOutcome { effect: WriteEffect::Leds(5), reply: Some(GattReply::Accept) }
    );
    assert_eq!(
        handles.handle_request(GattRequest::Write { handle: 1 }, &[5], None).reply,
        None
    );
    for request in [GattRequest::Other, GattRequest::NotAllowed] {
        assert_eq!(
            handles.handle_request(request, &[], Some(false)).reply,
            Some(GattReply::Accept)
        );
    }
}

#[test]
fn effect_and_reply_of_a_request_are_separate() {
    let handles = handles();
    let write = GattRequest::Write { handle: 2 };
    assert_eq!(handles.request_effect(write, &[0]), WriteEffect::RequestSleep);
    assert_eq!(handles.request_effect(GattRequest::Read, &[0]), WriteEffect::Ignored);
    assert_eq!(request_reply(write, Some(true)), Some(GattReply::Accept));
    assert_eq!(request_reply(write, Some(false)), Some(GattReply::Reject(0x0f)));
    assert_eq!(request_reply(write, None), None);
    assert_eq!(request_reply(GattRequest::Other, None), Some(GattReply::Accept));
}

#[test]
fn only_a_timeout_is_a_reason_to_sleep() {
    for transport_active in [false, true] {
        assert_eq!(
            TransportEvent::advertising_ended(HostError::Timeout, transport_active),
            TransportEvent::AdvertisingTimeout { transport_active }
        );
        assert_eq!(
            TransportEvent::advertising_ended(HostError::Disconnected, transport_active),
            TransportEvent::AdvertisingFailed
        );
    }
}

#[test]
fn only_input_without_suspend_is_activity() {
    for (input, activity) in [(Some(false), true), (Some(true), false), (None, false)] {
        assert_eq!(
            TransportEvent::input_taken(input),
            TransportEvent::InputTaken { activity }
        );
    }
}

#[test]
fn host_packets_carry_their_endpoint() {
    let mut data = [0u8; 32];
    data[0] = 0xfe;
    data[31] = 7;
    let packet = host_packet(BleHostTransport::VendorGatt, &data);
    assert_eq!(packet.transport, HostTransport::Ble(BleHostTransport::VendorGatt));
    assert_eq!(packet.data, data);
}

#[test]
fn session_events_drive_state_and_passkeys() {
    let mut cell = BleStatusCell::new();
    cell.set_ble_profile(2);
    let mut session = GattSession::new(PasskeyEntry::Enabled);
    assert_eq!(session.take_event(ConnectionEvent::PassKeyInput, &mut cell), SessionAction::Continue);
    assert!(session.entering_passkey);
    assert_eq!(session.take_event(ConnectionEvent::Notice, &mut cell), SessionAction::Continue);
    assert!(session.entering_passkey);
    assert_eq!(
        session.take_event(ConnectionEvent::PairingComplete { bonded: true }, &mut cell),
        SessionAction::SaveBond { profile: 2 }
    );
    assert!(!session.entering_passkey);
    assert_eq!(cell.current_ble_status().state, BleState::Inactive);
    session.take_event(ConnectionEvent::Encrypted, &mut cell);
    assert_eq!(cell.current_ble_status().state, BleState::Connected);
    assert_eq!(
        session.take_event(ConnectionEvent::PairingComplete { bonded: false }, &mut cell),
        SessionAction::Continue
    );
    assert_eq!(session.take_event(ConnectionEvent::Disconnected, &mut cell), SessionAction::End);
    let mut session = GattSession::new(PasskeyEntry::Disabled);
    assert_eq!(
        session.take_event(ConnectionEvent::PassKeyInput, &mut cell),
        SessionAction::CancelPasskey
    );
    let mut session = GattSession::new(PasskeyEntry::Absent);
    assert_eq!(session.take_event(ConnectionEvent::PassKeyInput, &mut cell), SessionAction::Continue);
    assert_eq!(session.take_event(ConnectionEvent::PairingFailed, &mut cell), SessionAction::Continue);
}

// Transport

#[test]
fn timeout_without_transport_sleeps_until_input() {
    let mut cell = BleStatusCell::new();
    let mut transport = BleTransport::new(false);
    assert_eq!(transport.action(), TransportAction::Advertise { resuming_from_sleep: false });
    let effect =
        transport.advance(TransportEvent::AdvertisingTimeout { transport_active: false }, &mut cell);
    assert!(effect.request_sleep && !effect.report_activity);
    assert_eq!(cell.current_ble_status().state, BleState::Sleeping);
    assert_eq!(transport.action(), TransportAction::WaitWake);
    let effect = transport.advance(TransportEvent::Woken, &mut cell);
    assert!(effect.report_activity);
    assert_eq!(transport.action(), TransportAction::Advertise { resuming_from_sleep: true });
    // The resumed connection breaks before it is encrypted.
    transport.advance(TransportEvent::Connected, &mut cell);
    transport.advance(TransportEvent::Left(BleKeyboardExit::Disconnected), &mut cell);
    assert_eq!(transport.action(), TransportAction::Advertise { resuming_from_sleep: true });
    assert_eq!(cell.current_ble_status().state, BleState::Sleeping);
    // This time it is encrypted, and then lost.
    transport.advance(TransportEvent::Connected, &mut cell);
    cell.set_ble_state(BleState::Connected);
    transport.advance(TransportEvent::Left(BleKeyboardExit::Disconnected), &mut cell);
    assert_eq!(transport.action(), TransportAction::Advertise { resuming_from_sleep: false });
    assert_eq!(cell.current_ble_status().state, BleState::Inactive);
}

#[test]
fn timeout_with_active_transport_stays_awake() {
    let mut cell = BleStatusCell::new();
    cell.set_ble_state(BleState::Advertising);
    let mut transport = BleTransport::new(false);
    let effect =
        transport.advance(TransportEvent::AdvertisingTimeout { transport_active: true }, &mut cell);
    assert!(!effect.request_sleep && effect.report_activity);
    assert_eq!(cell.current_ble_status().state, BleState::Inactive);
}

#[test]
fn idle_timeout_drops_the_link_until_input() {
    let mut cell = BleStatusCell::new();
    let mut transport = BleTransport::new(true);
    assert_eq!(transport.action(), TransportAction::WaitSplitWindow);
    transport.advance(TransportEvent::ProfileChanged, &mut cell);
    assert_eq!(transport.action(), TransportAction::WaitSplitWindow);
    transport.advance(TransportEvent::SplitWindowOpen, &mut cell);
    transport.advance(TransportEvent::Connected, &mut cell);
    assert_eq!(transport.action(), TransportAction::Serve);
    cell.set_ble_state(BleState::Sleeping);
    transport.advance(TransportEvent::Left(BleKeyboardExit::IdleTimeout), &mut cell);
    assert_eq!(transport.action(), TransportAction::TakeInput);
    let mut busy = transport;
    let mut busy_cell = cell;
    transport.advance(TransportEvent::InputTaken { activity: false }, &mut cell);
    assert_eq!(transport.action(), TransportAction::DropConnection);
    transport.advance(TransportEvent::Dropped, &mut cell);
    assert_eq!(transport.action(), TransportAction::WaitWake);
    let effect = transport.advance(TransportEvent::ProfileChanged, &mut cell);
    assert!(effect.report_activity && !transport.resuming_from_sleep);
    busy.advance(TransportEvent::InputTaken { activity: true }, &mut busy_cell);
    assert!(busy.advance(TransportEvent::Dropped, &mut busy_cell).report_activity);
    assert!(busy.resuming_from_sleep);
    assert_eq!(busy.action(), TransportAction::WaitSplitWindow);
}

#[test]
fn profile_change_and_errors_start_over() {
    let mut cell = BleStatusCell::new();
    let mut transport = BleTransport::new(false);
    transport.advance(TransportEvent::AdvertisingFailed, &mut cell);
    assert_eq!(transport.action(), TransportAction::PauseMs(200));
    transport.advance(TransportEvent::Paused, &mut cell);
    transport.advance(TransportEvent::Connected, &mut cell);
    cell.set_ble_state(BleState::Connected);
    assert!(transport.advance(TransportEvent::ProfileChanged, &mut cell).report_activity);
    assert_eq!(transport.action(), TransportAction::DropConnection);
    transport.advance(TransportEvent::Dropped, &mut cell);
    assert_eq!(cell.current_ble_status().state, BleState::Inactive);
    assert!(transport.advance(TransportEvent::ProfileChanged, &mut cell).report_activity);
}

#[test]
fn sessions_are_planned_and_left() {
    let mut level = 0;
    let full = BatteryStatus::Available { charge_state: ChargeState::Charging, level: Some(90) };
    assert_eq!(
        plan_session(false, full, &mut level, None),
        SessionPlan { battery_service: false, restore_subscriptions: false }
    );
    assert_eq!(level, 0);
    assert_eq!(
        plan_session(true, full, &mut level, Some(true)),
        SessionPlan { battery_service: true, restore_subscriptions: true }
    );
    assert_eq!(level, 90);
    assert!(!plan_session(true, full, &mut level, Some(false)).restore_subscriptions);
    assert_eq!(session_exit(SessionEnd::Gatt), BleKeyboardExit::Disconnected);
    assert_eq!(
        session_exit(SessionEnd::Power(BleKeyboardExit::IdleTimeout)),
        BleKeyboardExit::IdleTimeout
    );
}
