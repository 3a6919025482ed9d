//! Pointing events and the state that pointing drivers share.

use vstd::prelude::*;

use crate::pmw3610::{Pmw3610, Pmw3610Config, Pmw3610Error};
use crate::time::{Duration, Instant};

verus! {

#[derive(Clone, Copy, Debug, PartialEq, Eq, Structural)]
pub enum Axis {
    X,
    Y,
    Z,
    H,
    V,
}

#[derive(Clone, Copy, Debug, PartialEq, Eq, Structural)]
pub enum AxisValType {
    Rel,
    Abs,
}

#[derive(Clone, Copy, Debug, PartialEq, Eq, Structural)]
pub struct AxisEvent {
    pub typ: AxisValType,
    pub axis: Axis,
    pub value: i16,
}

#[derive(Clone, Copy, Debug, PartialEq, Eq)]
pub struct PointingEvent {
    pub device_id: u8,
    pub axes: [AxisEvent; 3],
}

/// One relative motion sample.
#[derive(Clone, Copy, Debug, PartialEq, Eq, Structural)]
pub struct MotionData {
    pub dx: i16,
    pub dy: i16,
}

#[derive(Clone, Copy, Debug, PartialEq, Eq, Structural)]
pub enum PointingDriverError {
    Spi,
    InvalidProductId(u8),
    InitFailed,
    InvalidCpi,
}

impl From<Pmw3610Error> for PointingDriverError {
    fn from(err: Pmw3610Error) -> (mapped: PointingDriverError) {
        match err {
            Pmw3610Error::Spi => PointingDriverError::Spi,
            Pmw3610Error::InvalidProductId(id) => PointingDriverError::InvalidProductId(id),
            Pmw3610Error::InitFailed => PointingDriverError::InitFailed,
            Pmw3610Error::InvalidCpi => PointingDriverError::InvalidCpi,
        }
    }
}

impl vstd::std_specs::convert::FromSpecImpl<Pmw3610Error> for PointingDriverError {
    open spec fn obeys_from_spec() -> bool {
        true
    }

    open spec fn from_spec(err: Pmw3610Error) -> PointingDriverError {
        match err {
            Pmw3610Error::Spi => PointingDriverError::Spi,
            Pmw3610Error::InvalidProductId(id) => PointingDriverError::InvalidProductId(id),
            Pmw3610Error::InitFailed => PointingDriverError::InitFailed,
            Pmw3610Error::InvalidCpi => PointingDriverError::InvalidCpi,
        }
    }
}

#[derive(Clone, Copy, Debug, PartialEq, Eq, Structural)]
pub enum InitState {
    Pending,
    Initializing(u8),
    Ready,
    Failed,
}

/// Microseconds between two polls of a device that was given no interval.
pub const DEFAULT_POLL_INTERVAL_US: u64 = 500;

/// Reports per second of a device that was given no rate.
pub const DEFAULT_REPORT_HZ: u16 = 125;

/// A polled pointing device around one PMW3610 sensor.
#[derive(Clone, Copy, Debug)]
pub struct PointingDevice {
    pub id: u8,
    pub sensor: Pmw3610,
    pub init_state: InitState,
    pub poll_interval: Duration,
    pub report_interval: Duration,
    pub last_poll: Instant,
    pub last_report: Instant,
    pub accumulated_x: i32,
    pub accumulated_y: i32,
}

impl PointingDevice {
    /// A device that was just created, before its first poll. It polls at least
    /// as often as it reports.
    pub open spec fn fresh(
        self,
        id: u8,
        config: Pmw3610Config,
        poll_interval_us: int,
        report_hz: int,
    ) -> bool {
        let report_ticks = crate::time::period_ticks(report_hz);
        &&& self.id == id
        &&& self.sensor == (Pmw3610 { id, config, smart_flag: false })
        &&& self.init_state == InitState::Pending
        &&& self.report_interval.ticks == report_ticks
        &&& self.poll_interval.ticks == if report_ticks < poll_interval_us {
            report_ticks
        } else {
            poll_interval_us
        }
        &&& self.last_poll.ticks == 0
        &&& self.last_report.ticks == 0
        &&& self.accumulated_x == 0
        &&& self.accumulated_y == 0
    }

    /// Create a new PMW3610 device
    pub fn new(id: u8, sensor_config: Pmw3610Config) -> (device: PointingDevice)
        ensures
            device.fresh(id, sensor_config, 500, 125),
    {
        PointingDevice::with_poll_interval_and_report_hz(
            id,
            sensor_config,
            DEFAULT_POLL_INTERVAL_US,
            DEFAULT_REPORT_HZ,
        )
    }

    /// Create a new PMW3610 device with custom report rate (Hz)
    pub fn with_report_hz(id: u8, sensor_config: Pmw3610Config, report_hz: u16) -> (device:
        PointingDevice)
        requires
            report_hz > 0,
        ensures
            device.fresh(id, sensor_config, 500, report_hz as int),
    {
        PointingDevice::with_poll_interval_and_report_hz(
            id,
            sensor_config,
            DEFAULT_POLL_INTERVAL_US,
            report_hz,
        )
    }

    /// Create a new PMW3610 device with custom poll interval
    pub fn with_poll_interval(
        id: u8,
        sensor_config: Pmw3610Config,
        poll_interval_us: u64,
    ) -> (device: PointingDevice)
        requires
            poll_interval_us < u64::MAX,
        ensures
            device.fresh(id, sensor_config, poll_interval_us as int, 125),
    {
        PointingDevice::with_poll_interval_and_report_hz(
            id,
            sensor_config,
            poll_interval_us,
            DEFAULT_REPORT_HZ,
        )
    }

    /// Create a new PMW3610 device with custom poll interval and report rate
    pub fn with_poll_interval_and_report_hz(
        id: u8,
        sensor_config: Pmw3610Config,
        poll_interval_us: u64,
        report_hz: u16,
    ) -> (device: PointingDevice)
        requires
            poll_interval_us < u64::MAX,
            report_hz > 0,
        ensures
            device.fresh(id, sensor_config, poll_interval_us as int, report_hz as int),
    {
        let report_interval = Duration::from_hz(report_hz as u64);
        // Polling should be more frequent than reporting
        let poll_interval = Duration::from_micros(poll_interval_us).min(report_interval);
        PointingDevice {
            id,
            sensor: Pmw3610::new(id, sensor_config),
            init_state: InitState::Pending,
            poll_interval,
            report_interval,
            last_poll: Instant::earliest(),
            last_report: Instant::earliest(),
            accumulated_x: 0,
            accumulated_y: 0,
        }
    }
}

/// A device never polls less often than it reports, whatever intervals it was
/// given.
pub proof fn law_polling_is_at_least_as_frequent_as_reporting(
    device: PointingDevice,
    id: u8,
    config: Pmw3610Config,
    poll_interval_us: int,
    report_hz: int,
)
    requires
        device.fresh(id, config, poll_interval_us, report_hz),
    ensures
        device.poll_interval.ticks <= device.report_interval.ticks,
{
}

/// A new device is pending with nothing accumulated. It reports at the nearest
/// interval to its rate, and polls at its interval unless reports come more
/// often.
pub proof fn law_new_device_keeps_its_rates(
    device: PointingDevice,
    id: u8,
    config: Pmw3610Config,
    poll_interval_us: int,
    report_hz: int,
)
    requires
        device.fresh(id, config, poll_interval_us, report_hz),
        0 < report_hz <= 65_535,
    ensures
        device.id == id && device.sensor.id == id && device.sensor.config == config,
        !device.sensor.smart_flag && device.init_state == InitState::Pending,
        device.accumulated_x == 0 && device.accumulated_y == 0,
        device.last_poll.ticks == 0 && device.last_report.ticks == 0,
        -report_hz < 2 * (report_hz * device.report_interval.ticks - 1_000_000) <= report_hz,
        poll_interval_us <= device.report_interval.ticks ==> device.poll_interval.ticks
            == poll_interval_us,
        poll_interval_us > device.report_interval.ticks ==> device.poll_interval
            == device.report_interval,
{
    crate::time::law_period_is_the_nearest(report_hz);
}

/// A device without a rate of its own reports 125 times a second, and one
/// without an interval polls every 500 microseconds.
pub proof fn law_default_rates()
    ensures
        forall|id: u8, config: Pmw3610Config, device: PointingDevice| #[trigger]
            call_ensures(PointingDevice::new, (id, config), device)
                ==> device.report_interval.ticks == 8_000 && device.poll_interval.ticks == 500
                && device.fresh(id, config, 500, 125),
        forall|id: u8, config: Pmw3610Config, hz: u16, device: PointingDevice| #[trigger]
            call_ensures(PointingDevice::with_report_hz, (id, config, hz), device)
                ==> device.fresh(id, config, 500, hz as int),
        forall|id: u8, config: Pmw3610Config, us: u64, device: PointingDevice| #[trigger]
            call_ensures(PointingDevice::with_poll_interval, (id, config, us), device)
                ==> device.report_interval.ticks == 8_000 && device.fresh(
                id,
                config,
                us as int,
                125,
            ),
        forall|id: u8, config: Pmw3610Config, us: u64, hz: u16, device: PointingDevice| #[trigger]
            call_ensures(
                PointingDevice::with_poll_interval_and_report_hz,
                (id, config, us, hz),
                device,
            ) ==> device.fresh(id, config, us as int, hz as int),
{
}

/// A driver error keeps its kind, and a wrong product its number.
pub proof fn law_driver_errors_keep_their_kind(id: u8)
    ensures
        <PointingDriverError as vstd::std_specs::convert::FromSpec<Pmw3610Error>>::from_spec(
            Pmw3610Error::Spi,
        ) == PointingDriverError::Spi,
        <PointingDriverError as vstd::std_specs::convert::FromSpec<Pmw3610Error>>::from_spec(
            Pmw3610Error::InvalidProductId(id),
        ) == PointingDriverError::InvalidProductId(id),
        <PointingDriverError as vstd::std_specs::convert::FromSpec<Pmw3610Error>>::from_spec(
            Pmw3610Error::InitFailed,
        ) == PointingDriverError::InitFailed,
        <PointingDriverError as vstd::std_specs::convert::FromSpec<Pmw3610Error>>::from_spec(
            Pmw3610Error::InvalidCpi,
        ) == PointingDriverError::InvalidCpi,
{
}

} // verus!
