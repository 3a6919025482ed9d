use k04_firmware::battery::{BatteryStatus, BatteryStatusEvent, ChargeState};
use k04_firmware::device_info::{pnp_id, DeviceText, PnPID, VidSource};
use k04_firmware::layer_led::{
    color_frame, scale, scale_color, LayerLed, LedReason, RenderContext, Rgb, VbusStatus,
};
use k04_firmware::pmw3610::Pmw3610Config;
use k04_firmware::pointing::{InitState, PointingDevice};
use k04_firmware::split_event::{
    current_split_connection_state, set_current_split_connection_state, CentralConnectedEvent,
    ClearPeerEvent, PeripheralBatteryEvent, PeripheralBatteryRefreshEvent, PeripheralConnectedEvent,
    PeripheralSettingsEvent, PeripheralSettingsRefreshEvent, SplitConnectionState,
    SplitConnectionStateEvent, SplitStateCell,
};
use k04_firmware::time::{Duration, Instant};
use k04_firmware::uf2_usb_cleanup::{cleanup_write, CLEANUP_WRITES, NVIC_ICER0, USBD_ENABLE};

const MS: u64 = 1_000;

fn context(now_ms: u64, split_state: SplitConnectionState) -> RenderContext {
    RenderContext {
        now: Instant::from_ticks(now_ms * MS),
        split_state,
        vbus: VbusStatus { vbus: false, output_ready: false },
        brightness: 255,
        charge_indicator: true,
        layer_color: Rgb { r: 10, g: 20, b: 30 },
    }
}

const YELLOW: Rgb = Rgb { r: 255, g: 180, b: 0 };
const GREEN: Rgb = Rgb { r: 0, g: 255, b: 0 };
const OFF: Rgb = Rgb { r: 0, g: 0, b: 0 };

#[test]
fn searching_blinks_with_its_period() {
    let mut led = LayerLed::new(0, SplitConnectionState::Searching, Instant::from_ticks(0));
    let searching = SplitConnectionState::Searching;
    assert_eq!(led.render(&context(0, searching)), Some(YELLOW));
    assert_eq!(led.render(&context(179, searching)), None);
    assert_eq!(led.render(&context(180, searching)), Some(OFF));
    assert_eq!(led.render(&context(359, searching)), None);
    assert_eq!(led.render(&context(360, searching)), Some(YELLOW));
    let mut charging = context(400, searching);
    charging.vbus.vbus = true;
    assert_eq!(led.display_color(&charging), (YELLOW, LedReason::Searching));
}

#[test]
fn connecting_shows_green_for_a_second() {
    let mut led = LayerLed::new(0, SplitConnectionState::Searching, Instant::from_ticks(0));
    let connected = SplitConnectionState::Connected;
    assert_eq!(
        led.on_split_connection_state_event(connected, Instant::from_ticks(90 * MS), &context(100, connected)),
        Some(GREEN)
    );
    assert_eq!(led.phase_started.ticks, 90 * MS);
    assert_eq!(led.render(&context(1_089, connected)), None);
    assert_eq!(led.render(&context(1_090, connected)), Some(Rgb { r: 10, g: 20, b: 30 }));
}

#[test]
fn missed_split_event_is_reconciled_at_the_render_time() {
    let mut led = LayerLed::new(1, SplitConnectionState::Searching, Instant::from_ticks(0));
    assert_eq!(led.render(&context(50, SplitConnectionState::Connected)), Some(GREEN));
    assert_eq!(led.phase_started.ticks, 50 * MS);
    assert_eq!(led.render(&context(60, SplitConnectionState::Searching)), Some(YELLOW));
    assert_eq!(led.render(&context(70, SplitConnectionState::Idle)), Some(OFF));
}

#[test]
fn charging_shows_on_the_base_layer_only() {
    let connected = SplitConnectionState::Connected;
    let mut led = LayerLed::new(0, connected, Instant::from_ticks(0));
    let mut charging = context(10, connected);
    charging.vbus.vbus = true;
    assert_eq!(led.render(&charging), Some(YELLOW));
    let full = BatteryStatus::Available { charge_state: ChargeState::Charging, level: Some(95) };
    assert_eq!(led.on_battery_status_event(full, &charging), Some(GREEN));
    let low = BatteryStatus::Available { charge_state: ChargeState::Charging, level: Some(94) };
    assert_eq!(led.on_battery_status_event(low, &charging), Some(YELLOW));
    assert_eq!(led.on_battery_status_event(BatteryStatus::Unavailable, &charging), None);
    assert_eq!(led.on_layer_change_event(1, &charging), Some(Rgb { r: 10, g: 20, b: 30 }));
    let mut off = charging;
    off.charge_indicator = false;
    assert_eq!(led.on_layer_change_event(0, &off), None);
    assert_eq!(led.on_sleep_state_event(true, &off), Some(OFF));
}

#[test]
fn brightness_scales_every_channel() {
    assert_eq!(scale(255, 128), 128);
    assert_eq!(scale(100, 50), 19);
    assert_eq!(scale(7, 0), 0);
    assert_eq!(scale_color(YELLOW, 51), Rgb { r: 51, g: 36, b: 0 });
}

#[test]
fn frame_sends_green_red_blue_from_the_highest_bit() {
    let frame = color_frame(Rgb { r: 0x01, g: 0x80, b: 0xff });
    assert_eq!(frame[0], 0x800d);
    assert!(frame[1..15].iter().all(|word| *word == 0x8006));
    assert_eq!(frame[15], 0x800d);
    assert!(frame[16..24].iter().all(|word| *word == 0x800d));
    assert!(frame[24..].iter().all(|word| *word == 0));
    assert_eq!(frame.len(), 104);
}

#[test]
fn split_state_is_sticky() {
    let mut cell = SplitStateCell::new();
    assert_eq!(current_split_connection_state(&cell), SplitConnectionState::Searching);
    for state in [
        SplitConnectionState::Connected,
        SplitConnectionState::Idle,
        SplitConnectionState::Searching,
    ] {
        set_current_split_connection_state(&mut cell, state);
        assert_eq!(current_split_connection_state(&cell), state);
    }
    cell.raw = 77;
    assert_eq!(current_split_connection_state(&cell), SplitConnectionState::Searching);
}

#[test]
fn split_events_are_plain_values() {
    assert_eq!(
        PeripheralConnectedEvent { id: 1, connected: true },
        PeripheralConnectedEvent { id: 1, connected: true }
    );
    assert_ne!(
        CentralConnectedEvent { connected: true },
        CentralConnectedEvent { connected: false }
    );
    assert_eq!(SplitConnectionStateEvent(SplitConnectionState::Idle).0, SplitConnectionState::Idle);
    let battery = PeripheralBatteryEvent { id: 0, state: BatteryStatusEvent(BatteryStatus::Unavailable) };
    assert_eq!(battery.state.0, BatteryStatus::Unavailable);
    assert_eq!(PeripheralSettingsEvent([3; 27]).0[26], 3);
    assert_eq!(PeripheralSettingsRefreshEvent, PeripheralSettingsRefreshEvent);
    assert_eq!(PeripheralBatteryRefreshEvent, PeripheralBatteryRefreshEvent);
    assert_eq!(ClearPeerEvent, ClearPeerEvent);
}

#[test]
fn cleanup_disables_sources_then_clears_events() {
    let writes: Vec<(u32, u32)> = (0..CLEANUP_WRITES)
        .map(|i| cleanup_write(i).unwrap())
        .map(|write| (write.address, write.value))
        .collect();
    assert_eq!(
        writes[..8],
        [
            (0x4002_7308, u32::MAX),
            (0x4000_0308, 0x380),
            (0xe000_e184, 0x80),
            (0x4002_7504, 0),
            (0x4002_7200, 0),
            (USBD_ENABLE, 0),
            (0x4002_7100, 0),
            (0x4002_7104, 0),
        ]
    );
    assert_eq!(writes[8..12], [(0x4002_7108, 0), (0x4002_7130, 0), (0x4002_710c, 0), (0x4002_7134, 0)]);
    assert_eq!(writes[23], (0x4002_714c, 0));
    assert_eq!(writes[31], (0x4002_7400, u32::MAX));
    assert_eq!(writes[35..], [(0xe000_e284, 0x80), (0xe000_e280, 1)]);
    assert!(writes.iter().all(|write| write.0 != NVIC_ICER0));
    assert!(cleanup_write(CLEANUP_WRITES).is_none());
}

#[test]
fn long_serial_numbers_are_cut_at_a_character() {
    assert_eq!(DeviceText::serial_number("0123456789").as_str(), "0123456789");
    assert_eq!(DeviceText::serial_number("0123456789abcdefghijXYZ").as_str(), "0123456789abcdefghij");
    assert_eq!(DeviceText::serial_number("0123456789abcdefghié!").as_str(), "0123456789abcdefghi");
    assert_eq!(DeviceText::serial_number("").as_str(), "");
    assert_eq!(DeviceText::manufacturer_name("Ergohaven").unwrap().as_str(), "Ergohaven");
    assert!(DeviceText::manufacturer_name("a name of twenty-one!").is_none());
}

#[test]
fn pnp_id_names_the_usb_vendor() {
    assert_eq!(
        pnp_id(0xe126, 0x0042),
        PnPID { vid_source: VidSource::UsbIF, vendor_id: 0xe126, product_id: 0x0042, product_version: 1 }
    );
}

#[test]
fn pointing_device_polls_at_least_as_often_as_it_reports() {
    let config = Pmw3610Config::default();
    let device = PointingDevice::new(2, config);
    assert_eq!((device.poll_interval.ticks, device.report_interval.ticks), (500, 8_000));
    assert_eq!(device.init_state, InitState::Pending);
    assert_eq!((device.id, device.sensor.id), (2, 2));
    let device = PointingDevice::with_report_hz(2, config, 4_000);
    assert_eq!((device.poll_interval.ticks, device.report_interval.ticks), (250, 250));
    let device = PointingDevice::with_poll_interval(2, config, 100_000);
    assert_eq!((device.poll_interval.ticks, device.report_interval.ticks), (8_000, 8_000));
    let device = PointingDevice::with_poll_interval_and_report_hz(2, config, 1_000, 60);
    assert_eq!((device.poll_interval.ticks, device.report_interval.ticks), (1_000, 16_667));
}

#[test]
fn durations_and_instants_are_tick_counts() {
    let start = Instant::earliest();
    let later = start.plus(Duration::from_ticks(7));
    assert_eq!(later.duration_since(start).ticks, 7);
    assert_eq!(later.min(start), start);
    assert_eq!(Duration::from_ticks(3).min(Duration::from_ticks(2)).ticks, 2);
}
