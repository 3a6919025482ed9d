//! The trackball task: probing, health checks, motion pacing and sleep.
//!
//! `Trackball` holds what the task remembers. `action` names the outside work
//! that is due, such as a wait, a sensor transaction or a look at the settings,
//! and `advance` takes what came of it.

use vstd::prelude::*;

use crate::features::BuildFeatures;
use crate::motion_pacing::{
    take_report_axis, LEGACY_TRANSPORT_REPORT_INTERVAL_US, LOCAL_REPORT_INTERVAL_US,
    SPLIT_REPORT_INTERVAL_US,
};
use crate::pmw3610::{Pmw3610, Pmw3610Config, Pmw3610Health};
use crate::pointing::{Axis, AxisEvent, AxisValType, MotionData, PointingEvent};
use crate::time::{Duration, Instant};

verus! {

pub const FAST_PROBE_INTERVAL_MS: u64 = 250;

pub const SLOW_PROBE_INTERVAL_SECS: u64 = 2;

pub const FAST_PROBE_WINDOW_SECS: u64 = 10;

/// Full-axes builds check every motion-affecting register once a second, so
/// that a briefly disconnected module cannot return with reset orientation or
/// resolution.
pub const AXES_HEALTH_CHECK_INTERVAL_SECS: u64 = 1;

pub const HEALTH_CHECK_INTERVAL_SECS: u64 = 60;

/// If MOTION stops toggling during an active gesture, the sensor is polled at
/// this interval. This bridges transient GPIO and power-mode gaps.
pub const MOTION_FALLBACK_INTERVAL_MS: u64 = 8;

/// How long after the last motion the fallback polling goes on.
pub const MOTION_FALLBACK_WINDOW_MS: u64 = 750;

pub const MOTION_ACCUM_MIN: i32 = -32768;

pub const MOTION_ACCUM_MAX: i32 = 32767;

pub const MAX_MOTION_READS_PER_WAKE: usize = 16;

pub const SLEEP_MOTION_THRESHOLD: u32 = 2;

pub const SLEEP_MOTION_WINDOW_MS: u64 = 20;

/// Pause after a full series of reads that left MOTION asserted.
pub const MOTION_YIELD_US: u64 = 50;

pub const SCHEDULER_PROBE_INTERVAL_MS: u64 = 10;

pub const AXES_DEFAULT_CPI: u16 = 600;

pub const PLAIN_DEFAULT_CPI: u16 = 1000;

/// The resolution that a trackball starts with.
pub open spec fn default_cpi_spec(features: BuildFeatures) -> u16 {
    if features.pmw_raw_600_diag || features.pmw_axes_600 {
        AXES_DEFAULT_CPI
    } else {
        PLAIN_DEFAULT_CPI
    }
}

pub fn default_cpi(features: &BuildFeatures) -> (cpi: u16)
    ensures
        cpi == default_cpi_spec(*features),
{
    if features.pmw_raw_600_diag || features.pmw_axes_600 {
        AXES_DEFAULT_CPI
    } else {
        PLAIN_DEFAULT_CPI
    }
}

/// The PMW3610 of a K:04 half, configured for its build.
pub fn new_trackball(features: &BuildFeatures, id: u8) -> (sensor: Pmw3610)
    ensures
        sensor.id == id,
        !sensor.smart_flag,
        sensor.config.res_cpi == default_cpi_spec(*features),
        sensor.config.swap_xy == !features.pmw_axes_600,
        !sensor.config.invert_x && !sensor.config.invert_y,
        sensor.config.force_awake == features.pmw_force_awake_diag,
        sensor.config.smart_mode == !features.pmw_smart_off_diag,
{
    let config = Pmw3610Config {
        res_cpi: default_cpi(features) as i16,
        swap_xy: !features.pmw_axes_600,
        invert_x: false,
        invert_y: false,
        force_awake: features.pmw_force_awake_diag,
        smart_mode: !features.pmw_smart_off_diag,
    };
    Pmw3610::new(id, config)
}

/// The resolution that the ball is to have, given the user's setting. The raw
/// and axes diagnostics fix it; production images follow the setting.
pub open spec fn ball_cpi(features: BuildFeatures, setting: u16) -> u16 {
    if features.pmw_raw_600_diag || (features.pmw_axes_600 && !features.production_v22) {
        600
    } else if features.pmw_raw_1000_diag {
        1000
    } else {
        setting
    }
}

pub fn configured_ball_cpi(features: &BuildFeatures, setting: u16) -> (cpi: u16)
    ensures
        cpi == ball_cpi(*features, setting),
{
    if features.pmw_raw_600_diag || (features.pmw_axes_600 && !features.production_v22) {
        600
    } else if features.pmw_raw_1000_diag {
        1000
    } else {
        setting
    }
}

/// Sensor deltas in the orientation of the pointer: full-axes builds swap the
/// axes in software.
pub open spec fn oriented(features: BuildFeatures, motion: MotionData) -> MotionData {
    if features.pmw_axes_600 {
        MotionData { dx: motion.dy, dy: motion.dx }
    } else {
        motion
    }
}

/// A sample in the orientation of the pointer.
pub fn oriented_motion(features: &BuildFeatures, motion: MotionData) -> (output: MotionData)
    ensures
        output == oriented(*features, motion),
{
    if features.pmw_axes_600 {
        MotionData { dx: motion.dy, dy: motion.dx }
    } else {
        motion
    }
}

/// The sum of two motions in the width of an accumulator.
pub open spec fn widest_sum(current: i32, delta: i16) -> int {
    crate::motion_pacing::clamp(current + delta, i32::MIN as int, i32::MAX as int)
}

/// The sum of accumulated motion and a delta, kept within the i16 range, and
/// how much of the sum that dropped.
pub fn accumulate_motion(current: i32, delta: i16) -> (result: (i32, u32))
    ensures
        result.0 == crate::motion_pacing::clamp(
            current + delta,
            MOTION_ACCUM_MIN as int,
            MOTION_ACCUM_MAX as int,
        ),
        result.1 == (if widest_sum(current, delta) < result.0 {
            result.0 - widest_sum(current, delta)
        } else {
            widest_sum(current, delta) - result.0
        }),
{
    let sum: i64 = current as i64 + delta as i64;
    let unbounded: i64 = if sum < i32::MIN as i64 {
        i32::MIN as i64
    } else if sum > i32::MAX as i64 {
        i32::MAX as i64
    } else {
        sum
    };
    if unbounded < MOTION_ACCUM_MIN as i64 {
        (MOTION_ACCUM_MIN, (MOTION_ACCUM_MIN as i64 - unbounded) as u32)
    } else if unbounded > MOTION_ACCUM_MAX as i64 {
        (MOTION_ACCUM_MAX, (unbounded - MOTION_ACCUM_MAX as i64) as u32)
    } else {
        (unbounded as i32, 0)
    }
}

/// One relative motion report of a trackball.
#[derive(Clone, Copy, Debug, PartialEq, Eq, Structural)]
pub struct MotionReport {
    pub device_id: u8,
    pub x: i16,
    pub y: i16,
}

impl MotionReport {
    /// The event that carries the report.
    pub fn to_event(&self) -> (event: PointingEvent)
        ensures
            event.device_id == self.device_id,
            event.axes@ == seq![
                AxisEvent { typ: AxisValType::Rel, axis: Axis::X, value: self.x },
                AxisEvent { typ: AxisValType::Rel, axis: Axis::Y, value: self.y },
                AxisEvent { typ: AxisValType::Rel, axis: Axis::Z, value: 0i16 },
            ],
    {
        let axes = [
            AxisEvent { typ: AxisValType::Rel, axis: Axis::X, value: self.x },
            AxisEvent { typ: AxisValType::Rel, axis: Axis::Y, value: self.y },
            AxisEvent { typ: AxisValType::Rel, axis: Axis::Z, value: 0 },
        ];
        PointingEvent { device_id: self.device_id, axes }
    }
}

/// Where the task stands in its loop.
#[derive(Clone, Copy, Debug, PartialEq, Eq, Structural)]
pub enum Phase {
    /// A new pass begins.
    Top,
    /// Another module is selected.
    Deselected,
    /// The sensor is unavailable and the keyboard sleeps: do not probe it.
    AsleepUnready,
    /// The next probe of an unavailable sensor is not due yet.
    ProbeWait,
    /// A probe is due, unless the keyboard fell asleep meanwhile.
    PreInit,
    Initializing,
    InitResolution { now: Instant },
    InitHealth { now: Instant },
    /// The sensor is ready and the wait for motion is being prepared.
    Arming,
    ApplyCpi { cpi: u16 },
    Deadline { sleeping: bool },
    MotionWait { sleeping: bool, deadline: Option<Instant>, fallback: Option<Instant> },
    /// The configuration is validated before a motion burst is consumed.
    Verify { fallback: Option<Instant>, woke: bool },
    RunHealth { now: Instant, fallback: Option<Instant>, woke: bool },
    PollDecision { sleeping: bool, fallback: Option<Instant>, woke: bool },
    Reading { sleeping: bool, fallback_poll: bool, reads: usize },
    Sampling { sleeping: bool, fallback_poll: bool, reads: usize },
    Yielding { sleeping: bool },
    Flush { sleeping: bool },
}

/// Outside work of the trackball task.
#[derive(Clone, Copy, Debug, PartialEq, Eq, Structural)]
pub enum Action {
    /// Read the module selection, the sleep state and the clock.
    ReadSettings,
    WaitSelectionChange,
    /// Wait for a change of the selection or of the sleep state.
    WaitSelectionOrSleepChange,
    /// The same, or until a deadline.
    WaitUntil { at: Instant },
    /// Read the sleep state and the clock.
    ReadSleeping,
    InitSensor,
    SetResolution { cpi: u16 },
    CheckHealth { cpi: u16 },
    /// Read the sleep state and the resolution setting.
    ReadArmingState,
    ReadClock,
    /// Wait for MOTION, for the deadline where there is one, or for a change of
    /// the selection or of the sleep state.
    WaitMotion { deadline: Option<Instant> },
    /// Read the USB power state and the clock.
    ReadVbus,
    ReadMotionPending,
    ReadMotion,
    PauseMicros(u64),
}

/// What came of an action.
#[derive(Clone, Copy, Debug, PartialEq, Eq, Structural)]
pub enum Event {
    Settings { trackball_selected: bool, sleeping: bool, now: Instant },
    SelectionChanged,
    SleepChanged { sleeping: bool, now: Instant },
    DeadlineReached,
    Sleeping { sleeping: bool, now: Instant },
    InitDone { ok: bool, cpi_setting: u16, now: Instant },
    ResolutionDone { ok: bool },
    /// The register snapshot, unless the bus failed, and the USB power state.
    HealthDone { health: Option<Pmw3610Health>, vbus: bool },
    ArmingState { sleeping: bool, cpi_setting: u16 },
    Clock { now: Instant },
    MotionWoke,
    Vbus { detected: bool, now: Instant },
    MotionPending { pending: bool },
    Motion { motion: MotionData, now: Instant },
    MotionFailed { now: Instant },
    Paused,
}

/// Events that an action can bring.
pub open spec fn answers(action: Action, event: Event) -> bool {
    match action {
        Action::ReadSettings => event is Settings,
        Action::WaitSelectionChange => event is SelectionChanged,
        Action::WaitSelectionOrSleepChange => event is SelectionChanged || event is SleepChanged,
        Action::WaitUntil { .. } => event is SelectionChanged || event is SleepChanged
            || event is DeadlineReached,
        Action::ReadSleeping => event is Sleeping,
        Action::InitSensor => event is InitDone,
        Action::SetResolution { .. } => event is ResolutionDone,
        Action::CheckHealth { .. } => event is HealthDone,
        Action::ReadArmingState => event is ArmingState,
        Action::ReadClock => event is Clock,
        Action::WaitMotion { deadline } => event is SelectionChanged || event is SleepChanged
            || event is MotionWoke || (event is DeadlineReached && deadline is Some),
        Action::ReadVbus => event is Vbus,
        Action::ReadMotionPending => event is MotionPending,
        Action::ReadMotion => event is Motion || event is MotionFailed,
        Action::PauseMicros(_) => event is Paused,
    }
}

/// The clock reading that an event brings.
pub open spec fn event_time(event: Event) -> Option<Instant> {
    match event {
        Event::Settings { now, .. } => Some(now),
        Event::SleepChanged { now, .. } => Some(now),
        Event::Sleeping { now, .. } => Some(now),
        Event::InitDone { now, .. } => Some(now),
        Event::Clock { now } => Some(now),
        Event::Vbus { now, .. } => Some(now),
        Event::Motion { now, .. } => Some(now),
        Event::MotionFailed { now } => Some(now),
        _ => None,
    }
}

/// A clock reading that leaves room for the longest interval that the task
/// adds to it.
pub open spec fn clock_in_range(now: Instant) -> bool {
    now.ticks + 60_000_000 <= u64::MAX
}

/// What one step brought out: a report to publish, and how much accumulated
/// motion the sample exceeded the accumulators by.
#[derive(Clone, Copy, Debug, PartialEq, Eq, Structural)]
pub struct Outcome {
    pub report: Option<MotionReport>,
    pub dropped_x: u32,
    pub dropped_y: u32,
}

pub open spec fn quiet() -> Outcome {
    Outcome { report: None, dropped_x: 0, dropped_y: 0 }
}

pub open spec fn published(report: Option<MotionReport>) -> Outcome {
    Outcome { report, dropped_x: 0, dropped_y: 0 }
}

/// The trackball task of one half.
#[derive(Clone, Copy, Debug, PartialEq, Eq, Structural)]
pub struct Trackball {
    pub features: BuildFeatures,
    pub device_id: u8,
    pub is_central: bool,
    pub ready: bool,
    pub acc_x: i32,
    pub acc_y: i32,
    pub last_report: Instant,
    pub last_motion_activity: Option<Instant>,
    pub sleep_motion_deadline: Option<Instant>,
    pub next_probe: Instant,
    pub next_health_check: Instant,
    pub unavailable_since: Option<Instant>,
    pub current_cpi: u16,
    pub last_vbus_detect: Option<bool>,
    pub recovery_pending: bool,
    pub recovery_count: u32,
    pub phase: Phase,
}

pub open spec fn earlier(a: Instant, b: Instant) -> Instant {
    if b.ticks < a.ticks {
        b
    } else {
        a
    }
}

pub open spec fn after(instant: Instant, ticks: int) -> Instant {
    Instant { ticks: (instant.ticks + ticks) as u64 }
}

/// Ticks between two health checks.
pub open spec fn health_ticks(features: BuildFeatures) -> int {
    if features.pmw_axes_600 {
        1_000_000
    } else {
        60_000_000
    }
}

/// Ticks between two reports: 4 ms on the central half; on the peripheral half
/// two radio windows in full-width builds, and 8 ms otherwise.
pub open spec fn report_ticks(features: BuildFeatures, is_central: bool) -> int {
    if is_central {
        4_000
    } else if features.full_width_split() {
        15_000
    } else {
        8_000
    }
}

impl Trackball {
    /// No time that the task remembers of the past is later than `now`.
    pub open spec fn past(self, now: Instant) -> bool {
        &&& self.last_report.ticks <= now.ticks
        &&& self.last_motion_activity matches Some(t) ==> t.ticks <= now.ticks
        &&& self.unavailable_since matches Some(t) ==> t.ticks <= now.ticks
    }

    pub open spec fn phase_wf(self) -> bool {
        match self.phase {
            Phase::InitResolution { now } => !self.ready && self.past(now) && clock_in_range(now),
            Phase::InitHealth { now } => !self.ready && self.past(now) && clock_in_range(now),
            Phase::AsleepUnready | Phase::ProbeWait | Phase::PreInit | Phase::Initializing => {
                !self.ready
            },
            Phase::RunHealth { now, .. } => self.ready && self.past(now) && clock_in_range(now),
            Phase::Arming | Phase::ApplyCpi { .. } | Phase::Deadline { .. }
            | Phase::MotionWait { .. } | Phase::Verify { .. } | Phase::PollDecision { .. }
            | Phase::Flush { .. } => self.ready,
            Phase::Reading { reads, .. } => reads <= 16 && (self.ready || reads == 16),
            Phase::Sampling { reads, .. } => self.ready && 1 <= reads <= 16,
            _ => true,
        }
    }

    /// The accumulators lie within the i16 range.
    pub open spec fn bounded(self) -> bool {
        &&& MOTION_ACCUM_MIN <= self.acc_x <= MOTION_ACCUM_MAX
        &&& MOTION_ACCUM_MIN <= self.acc_y <= MOTION_ACCUM_MAX
    }

    /// The accumulators stay within the i16 range, hold nothing while the
    /// sensor is not ready, and the phase fits the rest of the state.
    pub open spec fn wf(self) -> bool {
        &&& self.bounded()
        &&& !self.ready ==> self.acc_x == 0 && self.acc_y == 0
        &&& self.phase_wf()
    }

    // What the operations of the task make of its state.

    pub open spec fn unavailable(self, now: Instant) -> Trackball {
        let since = match self.unavailable_since {
            Some(since) => since,
            None => now,
        };
        Trackball {
            ready: false,
            unavailable_since: Some(since),
            next_probe: after(
                now,
                if now.ticks - since.ticks < 10_000_000 {
                    250_000
                } else {
                    2_000_000
                },
            ),
            next_health_check: Instant { ticks: 0 },
            acc_x: 0,
            acc_y: 0,
            last_motion_activity: None,
            sleep_motion_deadline: None,
            ..self
        }
    }

    pub open spec fn rejected(self, now: Instant, immediate_retry: bool) -> Trackball {
        let gone = (Trackball {
            recovery_count: if self.recovery_pending || self.recovery_count == u32::MAX {
                self.recovery_count
            } else {
                (self.recovery_count + 1) as u32
            },
            recovery_pending: true,
            ..self
        }).unavailable(now);
        if immediate_retry {
            Trackball { next_probe: now, ..gone }
        } else {
            gone
        }
    }

    pub open spec fn parked(self, now: Instant) -> Trackball {
        Trackball {
            acc_x: 0,
            acc_y: 0,
            last_report: now,
            last_motion_activity: None,
            sleep_motion_deadline: None,
            next_health_check: Instant { ticks: 0 },
            ..self
        }
    }

    pub open spec fn resumed(self, now: Instant) -> Trackball {
        Trackball {
            acc_x: if self.reportable(true) {
                self.acc_x
            } else {
                0
            },
            acc_y: if self.reportable(true) {
                self.acc_y
            } else {
                0
            },
            sleep_motion_deadline: None,
            next_health_check: if self.ready {
                after(now, health_ticks(self.features))
            } else {
                self.next_health_check
            },
            ..self
        }
    }

    pub open spec fn deactivated(self) -> Trackball {
        Trackball {
            ready: false,
            acc_x: 0,
            acc_y: 0,
            last_report: Instant { ticks: 0 },
            last_motion_activity: None,
            sleep_motion_deadline: None,
            next_probe: Instant { ticks: 0 },
            next_health_check: Instant { ticks: 0 },
            unavailable_since: None,
            last_vbus_detect: None,
            recovery_pending: false,
            ..self
        }
    }

    /// A sensor whose configuration was verified at `now`.
    pub open spec fn armed(self, now: Instant, vbus: bool) -> Trackball {
        Trackball {
            ready: true,
            acc_x: 0,
            acc_y: 0,
            last_report: now,
            last_motion_activity: None,
            next_health_check: after(now, health_ticks(self.features)),
            unavailable_since: None,
            last_vbus_detect: Some(vbus),
            recovery_pending: false,
            ..self
        }
    }

    /// There is motion worth a report. While the keyboard sleeps, a lone step
    /// of one count is taken for settling noise.
    pub open spec fn reportable(self, sleeping: bool) -> bool {
        if sleeping {
            self.acc_x >= 2 || self.acc_x <= -2 || self.acc_y >= 2 || self.acc_y <= -2
        } else {
            self.acc_x != 0 || self.acc_y != 0
        }
    }

    pub open spec fn portion_x(self) -> int {
        crate::motion_pacing::report_portion(self.features, self.is_central, self.acc_x as int)
    }

    pub open spec fn portion_y(self) -> int {
        crate::motion_pacing::report_portion(self.features, self.is_central, self.acc_y as int)
    }

    /// The task after one report of the accumulated motion.
    #[verifier::opaque]
    pub open spec fn sent(self) -> Trackball {
        let rest_x = self.acc_x - self.portion_x();
        let rest_y = self.acc_y - self.portion_y();
        if self.acc_x == 0 && self.acc_y == 0 {
            self
        } else {
            Trackball {
                acc_x: rest_x as i32,
                acc_y: rest_y as i32,
                sleep_motion_deadline: if rest_x == 0 && rest_y == 0 {
                    None
                } else {
                    self.sleep_motion_deadline
                },
                ..self
            }
        }
    }

    /// The report of the accumulated motion.
    #[verifier::opaque]
    pub open spec fn next_report(self) -> Option<MotionReport> {
        if self.acc_x == 0 && self.acc_y == 0 {
            None
        } else {
            Some(
                MotionReport {
                    device_id: self.device_id,
                    x: self.portion_x() as i16,
                    y: self.portion_y() as i16,
                },
            )
        }
    }

    /// A report is due at `now`.
    pub open spec fn report_due(self, sleeping: bool, now: Instant) -> bool {
        self.reportable(sleeping) && now.ticks - self.last_report.ticks >= report_ticks(
            self.features,
            self.is_central,
        )
    }

    /// The task after a sample was added to its accumulators.
    pub open spec fn accumulated(self, motion: MotionData, sleeping: bool, now: Instant) -> Trackball {
        let out = oriented(self.features, motion);
        let moved = out.dx != 0 || out.dy != 0;
        Trackball {
            last_motion_activity: if moved {
                Some(now)
            } else {
                self.last_motion_activity
            },
            sleep_motion_deadline: if sleeping && self.acc_x == 0 && self.acc_y == 0 && moved {
                Some(after(now, 20_000))
            } else {
                self.sleep_motion_deadline
            },
            acc_x: crate::motion_pacing::clamp(self.acc_x + out.dx, -32768, 32767) as i32,
            acc_y: crate::motion_pacing::clamp(self.acc_y + out.dy, -32768, 32767) as i32,
            ..self
        }
    }

    // Deadlines of the wait for motion.

    pub open spec fn base_deadline(self, sleeping: bool) -> Option<Instant> {
        let report = if self.reportable(sleeping) {
            Some(after(self.last_report, report_ticks(self.features, self.is_central)))
        } else {
            None
        };
        if sleeping {
            match (report, self.sleep_motion_deadline) {
                (Some(report), Some(noise)) => Some(earlier(report, noise)),
                (Some(report), None) => Some(report),
                (None, noise) => noise,
            }
        } else {
            match report {
                Some(report) => Some(earlier(report, self.next_health_check)),
                None => Some(self.next_health_check),
            }
        }
    }

    /// The next fallback poll, while the last motion is recent.
    pub open spec fn fallback_deadline(self, sleeping: bool, now: Instant) -> Option<Instant> {
        match self.last_motion_activity {
            Some(last_motion) if !sleeping => {
                let until = after(last_motion, 750_000);
                if now.ticks < until.ticks {
                    Some(earlier(after(now, 8_000), until))
                } else {
                    None
                }
            },
            _ => None,
        }
    }

    pub open spec fn motion_deadline(self, sleeping: bool, now: Instant) -> Option<Instant> {
        match (self.base_deadline(sleeping), self.fallback_deadline(sleeping, now)) {
            (Some(base), Some(fallback)) => Some(earlier(base, fallback)),
            (Some(base), None) => Some(base),
            (None, fallback) => fallback,
        }
    }

    // The transitions.

    pub open spec fn at(self, phase: Phase) -> Trackball {
        Trackball { phase, ..self }
    }

    /// The action that is due.
    pub open spec fn due(self) -> Action {
        match self.phase {
            Phase::Top => Action::ReadSettings,
            Phase::Deselected => Action::WaitSelectionChange,
            Phase::AsleepUnready => Action::WaitSelectionOrSleepChange,
            Phase::ProbeWait => Action::WaitUntil { at: self.next_probe },
            Phase::PreInit => Action::ReadSleeping,
            Phase::Initializing => Action::InitSensor,
            Phase::InitResolution { .. } => Action::SetResolution { cpi: self.current_cpi },
            Phase::InitHealth { .. } => Action::CheckHealth { cpi: self.current_cpi },
            Phase::Arming => Action::ReadArmingState,
            Phase::ApplyCpi { cpi } => Action::SetResolution { cpi },
            Phase::Deadline { .. } => Action::ReadClock,
            Phase::MotionWait { deadline, .. } => Action::WaitMotion { deadline },
            Phase::Verify { .. } => Action::ReadVbus,
            Phase::RunHealth { .. } => Action::CheckHealth { cpi: self.current_cpi },
            Phase::PollDecision { .. } => Action::ReadClock,
            Phase::Reading { .. } => Action::ReadMotionPending,
            Phase::Sampling { .. } => Action::ReadMotion,
            Phase::Yielding { .. } => Action::PauseMicros(MOTION_YIELD_US),
            Phase::Flush { .. } => Action::ReadClock,
        }
    }

    /// A sleep change while the task waits.
    pub open spec fn after_sleep_change(self, sleeping: bool, now: Instant) -> Trackball {
        if sleeping {
            self.parked(now).at(Phase::Top)
        } else {
            self.resumed(now).at(Phase::Top)
        }
    }

    /// The USB power state is not the one that was seen last.
    pub open spec fn vbus_differs(self, vbus: bool) -> bool {
        self.last_vbus_detect matches Some(previous) && previous != vbus
    }

    /// The configuration is due for validation.
    pub open spec fn verification_due(self, vbus: bool, now: Instant) -> bool {
        self.vbus_differs(vbus) || now.ticks >= self.next_health_check.ticks
    }

    /// The end of a pass: motion that is due goes out, and sleeping noise that
    /// was not confirmed in time is discarded.
    pub open spec fn flushed(self, sleeping: bool, now: Instant) -> (Trackball, Outcome) {
        if sleeping && (self.sleep_motion_deadline matches Some(deadline) && now.ticks
            >= deadline.ticks) {
            if self.reportable(true) {
                (
                    (Trackball { last_report: now, ..self.sent() }).at(Phase::Top),
                    published(self.next_report()),
                )
            } else {
                (
                    (Trackball { acc_x: 0, acc_y: 0, sleep_motion_deadline: None, ..self }).at(
                        Phase::Top,
                    ),
                    quiet(),
                )
            }
        } else if self.report_due(sleeping, now) {
            (
                (Trackball { last_report: now, ..self.sent() }).at(Phase::Top),
                published(self.next_report()),
            )
        } else {
            (self.at(Phase::Top), quiet())
        }
    }

    /// A sample is accumulated, and reported where a report is due.
    pub open spec fn sampled(
        self,
        motion: MotionData,
        sleeping: bool,
        now: Instant,
        next_phase: Phase,
    ) -> (Trackball, Outcome) {
        let out = oriented(self.features, motion);
        let full = self.accumulated(motion, sleeping, now);
        let dropped_x = self.acc_x + out.dx - full.acc_x;
        let dropped_y = self.acc_y + out.dy - full.acc_y;
        let report = if full.report_due(sleeping, now) {
            full.next_report()
        } else {
            None
        };
        let rest = if full.report_due(sleeping, now) {
            Trackball { last_report: now, ..full.sent() }
        } else {
            full
        };
        (
            rest.at(next_phase),
            Outcome {
                report,
                dropped_x: (if dropped_x < 0 {
                    -dropped_x
                } else {
                    dropped_x
                }) as u32,
                dropped_y: (if dropped_y < 0 {
                    -dropped_y
                } else {
                    dropped_y
                }) as u32,
            },
        )
    }

    #[verifier::opaque]
    pub open spec fn next(self, event: Event) -> (Trackball, Outcome) {
        match (self.phase, event) {
            (Phase::Top, Event::Settings { trackball_selected, sleeping, now }) => (
                if !trackball_selected {
                    self.deactivated().at(Phase::Deselected)
                } else if self.ready {
                    self.at(Phase::Arming)
                } else if sleeping {
                    self.at(Phase::AsleepUnready)
                } else if now.ticks < self.next_probe.ticks {
                    self.at(Phase::ProbeWait)
                } else {
                    self.at(Phase::PreInit)
                },
                quiet(),
            ),
            (Phase::Deselected, _) => (self.at(Phase::Top), quiet()),
            (Phase::AsleepUnready, Event::SleepChanged { now, .. }) => (
                self.resumed(now).at(Phase::Top),
                quiet(),
            ),
            (_, Event::SelectionChanged) => (self.deactivated().at(Phase::Top), quiet()),
            (_, Event::SleepChanged { sleeping, now }) => (
                self.after_sleep_change(sleeping, now),
                quiet(),
            ),
            (Phase::ProbeWait, Event::DeadlineReached) => (self.at(Phase::PreInit), quiet()),
            (Phase::PreInit, Event::Sleeping { sleeping, now }) => (
                if sleeping {
                    self.parked(now).at(Phase::Top)
                } else {
                    self.at(Phase::Initializing)
                },
                quiet(),
            ),
            (Phase::Initializing, Event::InitDone { ok, cpi_setting, now }) => (
                if ok {
                    (Trackball {
                        current_cpi: ball_cpi(self.features, cpi_setting),
                        ..self
                    }).at(Phase::InitResolution { now })
                } else {
                    self.unavailable(now).at(Phase::Top)
                },
                quiet(),
            ),
            (Phase::InitResolution { now }, Event::ResolutionDone { ok }) => (
                if ok {
                    self.at(Phase::InitHealth { now })
                } else {
                    self.rejected(now, false).at(Phase::Top)
                },
                quiet(),
            ),
            (Phase::InitHealth { now }, Event::HealthDone { health, vbus }) => (
                match health {
                    Some(health) if health.healthy() => self.armed(now, vbus).at(Phase::Arming),
                    _ => self.rejected(now, false).at(Phase::Top),
                },
                quiet(),
            ),
            (Phase::Arming, Event::ArmingState { sleeping, cpi_setting }) => (
                if !sleeping && ball_cpi(self.features, cpi_setting) != self.current_cpi {
                    self.at(Phase::ApplyCpi { cpi: ball_cpi(self.features, cpi_setting) })
                } else {
                    self.at(Phase::Deadline { sleeping })
                },
                quiet(),
            ),
            (Phase::ApplyCpi { cpi }, Event::ResolutionDone { ok }) => (
                (Trackball {
                    current_cpi: if ok {
                        cpi
                    } else {
                        self.current_cpi
                    },
                    ..self
                }).at(Phase::Deadline { sleeping: false }),
                quiet(),
            ),
            (Phase::Deadline { sleeping }, Event::Clock { now }) => (
                self.at(
                    Phase::MotionWait {
                        sleeping,
                        deadline: self.motion_deadline(sleeping, now),
                        fallback: self.fallback_deadline(sleeping, now),
                    },
                ),
                quiet(),
            ),
            (Phase::MotionWait { sleeping, fallback, .. }, _) => {
                let woke = event is MotionWoke;
                (
                    if sleeping {
                        self.at(Phase::PollDecision { sleeping, fallback, woke })
                    } else {
                        self.at(Phase::Verify { fallback, woke })
                    },
                    quiet(),
                )
            },
            (Phase::Verify { fallback, woke }, Event::Vbus { detected, now }) => (
                if self.verification_due(detected, now) {
                    (Trackball {
                        last_vbus_detect: Some(detected),
                        next_health_check: after(now, health_ticks(self.features)),
                        ..self
                    }).at(Phase::RunHealth { now, fallback, woke })
                } else {
                    self.at(Phase::PollDecision { sleeping: false, fallback, woke })
                },
                quiet(),
            ),
            (Phase::RunHealth { now, fallback, woke }, Event::HealthDone { health, .. }) => (
                match health {
                    Some(health) if health.healthy() => self.at(
                        Phase::PollDecision { sleeping: false, fallback, woke },
                    ),
                    _ => self.rejected(now, true).at(Phase::Top),
                },
                quiet(),
            ),
            (Phase::PollDecision { sleeping, fallback, woke }, Event::Clock { now }) => {
                let fallback_poll = !woke && (fallback matches Some(deadline) && now.ticks
                    >= deadline.ticks);
                (
                    if woke || fallback_poll {
                        self.at(Phase::Reading { sleeping, fallback_poll, reads: 0 })
                    } else {
                        self.at(Phase::Flush { sleeping })
                    },
                    quiet(),
                )
            },
            (
                Phase::Reading { sleeping, fallback_poll, reads },
                Event::MotionPending { pending },
            ) => (
                if reads < 16 && (pending || (fallback_poll && reads == 0)) {
                    self.at(
                        Phase::Sampling { sleeping, fallback_poll, reads: (reads + 1) as usize },
                    )
                } else if reads == 16 && pending {
                    self.at(Phase::Yielding { sleeping })
                } else {
                    self.at(self.after_reads(sleeping))
                },
                quiet(),
            ),
            (
                Phase::Sampling { sleeping, fallback_poll, reads },
                Event::Motion { motion, now },
            ) => self.sampled(
                motion,
                sleeping,
                now,
                Phase::Reading { sleeping, fallback_poll, reads },
            ),
            (
                Phase::Sampling { sleeping, fallback_poll, reads },
                Event::MotionFailed { now },
            ) => (
                self.rejected(now, true).at(
                    if reads == 16 {
                        Phase::Reading { sleeping, fallback_poll, reads }
                    } else {
                        Phase::Top
                    },
                ),
                quiet(),
            ),
            (Phase::Yielding { sleeping }, _) => (self.at(self.after_reads(sleeping)), quiet()),
            (Phase::Flush { sleeping }, Event::Clock { now }) => self.flushed(sleeping, now),
            _ => (self, quiet()),
        }
    }

    /// Where a pass goes on once MOTION was served.
    pub open spec fn after_reads(self, sleeping: bool) -> Phase {
        if self.ready {
            Phase::Flush { sleeping }
        } else {
            Phase::Top
        }
    }
}

impl Trackball {
    /// The task of a half before its first pass.
    pub open spec fn fresh(features: BuildFeatures, device_id: u8, is_central: bool) -> Trackball {
        Trackball {
            features,
            device_id,
            is_central,
            ready: false,
            acc_x: 0,
            acc_y: 0,
            last_report: Instant { ticks: 0 },
            last_motion_activity: None,
            sleep_motion_deadline: None,
            next_probe: Instant { ticks: 0 },
            next_health_check: Instant { ticks: 0 },
            unavailable_since: None,
            current_cpi: default_cpi_spec(features),
            last_vbus_detect: None,
            recovery_pending: false,
            recovery_count: 0,
            phase: Phase::Top,
        }
    }

    pub fn new_central(features: &BuildFeatures, device_id: u8) -> (task: Trackball)
        ensures
            task == Trackball::fresh(*features, device_id, true),
            task.wf(),
    {
        Trackball::new(features, device_id, true)
    }

    pub fn new_peripheral(features: &BuildFeatures, device_id: u8) -> (task: Trackball)
        ensures
            task == Trackball::fresh(*features, device_id, false),
            task.wf(),
    {
        Trackball::new(features, device_id, false)
    }

    fn new(features: &BuildFeatures, device_id: u8, is_central: bool) -> (task: Trackball)
        ensures
            task == Trackball::fresh(*features, device_id, is_central),
            task.wf(),
    {
        Trackball {
            features: *features,
            device_id,
            is_central,
            ready: false,
            acc_x: 0,
            acc_y: 0,
            last_report: Instant::earliest(),
            last_motion_activity: None,
            sleep_motion_deadline: None,
            next_probe: Instant::earliest(),
            next_health_check: Instant::earliest(),
            unavailable_since: None,
            current_cpi: default_cpi(features),
            last_vbus_detect: None,
            recovery_pending: false,
            recovery_count: 0,
            phase: Phase::Top,
        }
    }

    fn health_check_interval(&self) -> (interval: Duration)
        ensures
            interval.ticks == health_ticks(self.features),
    {
        if self.features.pmw_axes_600 {
            Duration::from_secs(AXES_HEALTH_CHECK_INTERVAL_SECS)
        } else {
            Duration::from_secs(HEALTH_CHECK_INTERVAL_SECS)
        }
    }

    pub fn report_interval(&self) -> (interval: Duration)
        ensures
            interval.ticks == report_ticks(self.features, self.is_central),
    {
        if self.is_central {
            Duration::from_micros(LOCAL_REPORT_INTERVAL_US)
        } else if self.features.production_v22 || self.features.pmw_axes_600_diag {
            Duration::from_micros(SPLIT_REPORT_INTERVAL_US)
        } else {
            Duration::from_micros(LEGACY_TRANSPORT_REPORT_INTERVAL_US)
        }
    }

    pub fn has_reportable_motion(&self, sleeping: bool) -> (reportable: bool)
        ensures
            reportable == self.reportable(sleeping),
    {
        if sleeping {
            let threshold: i32 = SLEEP_MOTION_THRESHOLD as i32;
            self.acc_x >= threshold || self.acc_x <= -threshold || self.acc_y >= threshold
                || self.acc_y <= -threshold
        } else {
            self.acc_x != 0 || self.acc_y != 0
        }
    }

    /// PMW3610 enters Rest3 on its own when force-awake is disabled. Stop
    /// timer-driven SPI traffic and leave only the MOTION line armed.
    pub fn park_for_sleep(&mut self, now: Instant)
        ensures
            *final(self) == old(self).parked(now),
    {
        self.acc_x = 0;
        self.acc_y = 0;
        self.last_report = now;
        self.last_motion_activity = None;
        self.sleep_motion_deadline = None;
        self.next_health_check = Instant::earliest();
    }

    /// Discards a lone step of one count retained while sleeping. Deliberate
    /// accumulated motion has already been published to trigger the wake.
    pub fn resume_from_sleep(&mut self, now: Instant)
        requires
            clock_in_range(now),
        ensures
            *final(self) == old(self).resumed(now),
    {
        if !self.has_reportable_motion(true) {
            self.acc_x = 0;
            self.acc_y = 0;
        }
        self.sleep_motion_deadline = None;
        if self.ready {
            self.next_health_check = now.plus(self.health_check_interval());
        }
    }

    /// Schedules the next probe of a sensor that does not answer: often at
    /// first, seldom after a while.
    pub fn mark_unavailable(&mut self, now: Instant)
        requires
            old(self).unavailable_since matches Some(since) ==> since.ticks <= now.ticks,
            now.ticks + 2_000_000 <= u64::MAX,
        ensures
            *final(self) == old(self).unavailable(now),
    {
        self.ready = false;
        let unavailable_since = match self.unavailable_since {
            Some(since) => since,
            None => now,
        };
        self.unavailable_since = Some(unavailable_since);
        let retry_interval = if now.duration_since(unavailable_since).ticks < Duration::from_secs(
            FAST_PROBE_WINDOW_SECS,
        ).ticks {
            Duration::from_millis(FAST_PROBE_INTERVAL_MS)
        } else {
            Duration::from_secs(SLOW_PROBE_INTERVAL_SECS)
        };
        self.next_probe = now.plus(retry_interval);
        self.next_health_check = Instant::earliest();
        self.acc_x = 0;
        self.acc_y = 0;
        self.last_motion_activity = None;
        self.sleep_motion_deadline = None;
    }

    /// Gives up a sensor whose configuration failed. Recoveries are counted
    /// once, however many attempts they take.
    pub fn reject_sensor_configuration(&mut self, now: Instant, immediate_retry: bool)
        requires
            old(self).unavailable_since matches Some(since) ==> since.ticks <= now.ticks,
            now.ticks + 2_000_000 <= u64::MAX,
        ensures
            *final(self) == old(self).rejected(now, immediate_retry),
    {
        if !self.recovery_pending {
            self.recovery_count = self.recovery_count.saturating_add(1);
        }
        self.recovery_pending = true;
        self.mark_unavailable(now);
        if immediate_retry {
            self.next_probe = now;
        }
    }

    /// Forgets everything but the recovery count: another module is selected.
    pub fn deactivate(&mut self)
        ensures
            *final(self) == old(self).deactivated(),
    {
        self.ready = false;
        self.acc_x = 0;
        self.acc_y = 0;
        self.last_report = Instant::earliest();
        self.last_motion_activity = None;
        self.sleep_motion_deadline = None;
        self.next_probe = Instant::earliest();
        self.next_health_check = Instant::earliest();
        self.unavailable_since = None;
        self.last_vbus_detect = None;
        self.recovery_pending = false;
    }

    /// Takes one report out of the accumulated motion, where there is any.
    pub fn send_accumulated_motion(&mut self) -> (report: Option<MotionReport>)
        ensures
            *final(self) == old(self).sent(),
            report == old(self).next_report(),
            final(self).ready == old(self).ready,
            old(self).bounded() ==> final(self).bounded(),
    {
        reveal(Trackball::sent);
        reveal(Trackball::next_report);
        if self.acc_x == 0 && self.acc_y == 0 {
            return None;
        }
        let x: i16 = take_report_axis(&self.features, self.is_central, self.acc_x);
        let y: i16 = take_report_axis(&self.features, self.is_central, self.acc_y);
        self.acc_x = self.acc_x - x as i32;
        self.acc_y = self.acc_y - y as i32;
        if self.acc_x == 0 && self.acc_y == 0 {
            self.sleep_motion_deadline = None;
        }
        Some(MotionReport { device_id: self.device_id, x, y })
    }

    /// Takes one report out at `now`.
    fn report_at(&mut self, now: Instant) -> (report: Option<MotionReport>)
        ensures
            *final(self) == (Trackball { last_report: now, ..old(self).sent() }),
            report == old(self).next_report(),
            final(self).ready == old(self).ready,
            old(self).bounded() ==> final(self).bounded(),
    {
        let report = self.send_accumulated_motion();
        self.last_report = now;
        report
    }

    /// Until when to wait for motion, and the next fallback poll.
    fn deadlines(&self, sleeping: bool, now: Instant) -> (deadlines: (
        Option<Instant>,
        Option<Instant>,
    ))
        requires
            self.past(now),
            clock_in_range(now),
        ensures
            deadlines.0 == self.motion_deadline(sleeping, now),
            deadlines.1 == self.fallback_deadline(sleeping, now),
    {
        let report = if self.has_reportable_motion(sleeping) {
            Some(self.last_report.plus(self.report_interval()))
        } else {
            None
        };
        let base = if sleeping {
            match (report, self.sleep_motion_deadline) {
                (Some(report), Some(noise)) => Some(report.min(noise)),
                (Some(report), None) => Some(report),
                (None, noise) => noise,
            }
        } else {
            match report {
                Some(report) => Some(report.min(self.next_health_check)),
                None => Some(self.next_health_check),
            }
        };
        let fallback = match self.last_motion_activity {
            Some(last_motion) => {
                let until = last_motion.plus(Duration::from_millis(MOTION_FALLBACK_WINDOW_MS));
                if !sleeping && now.ticks < until.ticks {
                    Some(now.plus(Duration::from_millis(MOTION_FALLBACK_INTERVAL_MS)).min(until))
                } else {
                    None
                }
            },
            None => None,
        };
        let deadline = match (base, fallback) {
            (Some(base), Some(fallback)) => Some(base.min(fallback)),
            (Some(base), None) => Some(base),
            (None, fallback) => fallback,
        };
        (deadline, fallback)
    }

    /// Adds a sample to the accumulated motion.
    fn take_sample(&mut self, motion: MotionData, sleeping: bool, now: Instant) -> (dropped: (
        u32,
        u32,
    ))
        requires
            old(self).wf(),
            clock_in_range(now),
        ensures
            *final(self) == old(self).accumulated(motion, sleeping, now),
            dropped.0 == ({
                let d = old(self).acc_x + oriented(old(self).features, motion).dx
                    - final(self).acc_x;
                if d < 0 {
                    -d
                } else {
                    d
                }
            }),
            dropped.1 == ({
                let d = old(self).acc_y + oriented(old(self).features, motion).dy
                    - final(self).acc_y;
                if d < 0 {
                    -d
                } else {
                    d
                }
            }),
    {
        let output = oriented_motion(&self.features, motion);
        let dx: i16 = output.dx;
        let dy: i16 = output.dy;
        if dx != 0 || dy != 0 {
            self.last_motion_activity = Some(now);
            if sleeping && self.acc_x == 0 && self.acc_y == 0 {
                self.sleep_motion_deadline = Some(
                    now.plus(Duration::from_millis(SLEEP_MOTION_WINDOW_MS)),
                );
            }
        }
        let (next_x, dropped_x) = accumulate_motion(self.acc_x, dx);
        let (next_y, dropped_y) = accumulate_motion(self.acc_y, dy);
        self.acc_x = next_x;
        self.acc_y = next_y;
        (dropped_x, dropped_y)
    }

    fn is_report_due(&self, sleeping: bool, now: Instant) -> (due: bool)
        requires
            self.last_report.ticks <= now.ticks,
        ensures
            due == self.report_due(sleeping, now),
    {
        self.has_reportable_motion(sleeping) && now.duration_since(self.last_report).ticks
            >= self.report_interval().ticks
    }

    /// The outside work that the task is waiting for.
    pub fn action(&self) -> (action: Action)
        ensures
            action == self.due(),
    {
        match self.phase {
            Phase::Top => Action::ReadSettings,
            Phase::Deselected => Action::WaitSelectionChange,
            Phase::AsleepUnready => Action::WaitSelectionOrSleepChange,
            Phase::ProbeWait => Action::WaitUntil { at: self.next_probe },
            Phase::PreInit => Action::ReadSleeping,
            Phase::Initializing => Action::InitSensor,
            Phase::InitResolution { .. } => Action::SetResolution { cpi: self.current_cpi },
            Phase::InitHealth { .. } => Action::CheckHealth { cpi: self.current_cpi },
            Phase::Arming => Action::ReadArmingState,
            Phase::ApplyCpi { cpi } => Action::SetResolution { cpi },
            Phase::Deadline { .. } => Action::ReadClock,
            Phase::MotionWait { deadline, .. } => Action::WaitMotion { deadline },
            Phase::Verify { .. } => Action::ReadVbus,
            Phase::RunHealth { .. } => Action::CheckHealth { cpi: self.current_cpi },
            Phase::PollDecision { .. } => Action::ReadClock,
            Phase::Reading { .. } => Action::ReadMotionPending,
            Phase::Sampling { .. } => Action::ReadMotion,
            Phase::Yielding { .. } => Action::PauseMicros(MOTION_YIELD_US),
            Phase::Flush { .. } => Action::ReadClock,
        }
    }

    /// Takes what came of the action that was due.
    pub fn advance(&mut self, event: Event) -> (outcome: Outcome)
        requires
            old(self).wf(),
            answers(old(self).due(), event),
            event_time(event) matches Some(now) ==> old(self).past(now) && clock_in_range(now),
        ensures
            (*final(self), outcome) == old(self).next(event),
            final(self).wf(),
    {
        match event {
            Event::Settings { trackball_selected, sleeping, now } => {
                self.take_settings(trackball_selected, sleeping, now);
            },
            Event::SelectionChanged => {
                self.take_selection_change();
            },
            Event::SleepChanged { sleeping, now } => {
                self.take_sleep_change(sleeping, now);
            },
            Event::DeadlineReached => {
                self.take_deadline();
            },
            Event::MotionWoke => {
                self.take_motion_wake();
            },
            Event::Sleeping { sleeping, now } => {
                self.take_sleep_state(sleeping, now);
            },
            Event::InitDone { ok, cpi_setting, now } => {
                self.take_init(ok, cpi_setting, now);
            },
            Event::ResolutionDone { ok } => {
                self.take_resolution(ok);
            },
            Event::HealthDone { health, vbus } => {
                self.take_health(health, vbus);
            },
            Event::ArmingState { sleeping, cpi_setting } => {
                self.take_arming_state(sleeping, cpi_setting);
            },
            Event::Clock { now } => {
                return self.take_clock(now);
            },
            Event::Vbus { detected, now } => {
                self.take_vbus(detected, now);
            },
            Event::MotionPending { pending } => {
                self.take_motion_pending(pending);
            },
            Event::Motion { motion, now } => {
                return self.take_motion(motion, now);
            },
            Event::MotionFailed { now } => {
                self.take_motion_failure(now);
            },
            Event::Paused => {
                self.take_pause();
            },
        }
        Outcome { report: None, dropped_x: 0, dropped_y: 0 }
    }

    fn take_selection_change(&mut self)
        requires
            old(self).wf(),
            answers(old(self).due(), Event::SelectionChanged),
        ensures
            (*final(self), quiet()) == old(self).next(Event::SelectionChanged),
            final(self).wf(),
    {
        reveal(Trackball::next);
        if self.phase != Phase::Deselected {
            self.deactivate();
        }
        self.phase = Phase::Top;
    }

    fn take_deadline(&mut self)
        requires
            old(self).wf(),
            old(self).phase is MotionWait || old(self).phase is ProbeWait,
        ensures
            (*final(self), quiet()) == old(self).next(Event::DeadlineReached),
            final(self).wf(),
    {
        reveal(Trackball::next);
        match self.phase {
            Phase::MotionWait { sleeping, fallback, .. } => {
                self.enter_wake(sleeping, fallback, false);
            },
            _ => {
                self.phase = Phase::PreInit;
            },
        }
    }

    fn take_motion_wake(&mut self)
        requires
            old(self).wf(),
            old(self).phase is MotionWait,
        ensures
            (*final(self), quiet()) == old(self).next(Event::MotionWoke),
            final(self).wf(),
    {
        reveal(Trackball::next);
        if let Phase::MotionWait { sleeping, fallback, .. } = self.phase {
            self.enter_wake(sleeping, fallback, true);
        }
    }

    fn take_sleep_state(&mut self, sleeping: bool, now: Instant)
        requires
            old(self).wf(),
            old(self).phase == Phase::PreInit,
        ensures
            (*final(self), quiet()) == old(self).next(Event::Sleeping { sleeping, now }),
            final(self).wf(),
    {
        reveal(Trackball::next);
        if sleeping {
            self.park_for_sleep(now);
            self.phase = Phase::Top;
        } else {
            self.phase = Phase::Initializing;
        }
    }

    fn take_pause(&mut self)
        requires
            old(self).wf(),
            old(self).phase is Yielding,
        ensures
            (*final(self), quiet()) == old(self).next(Event::Paused),
            final(self).wf(),
    {
        reveal(Trackball::next);
        if let Phase::Yielding { sleeping } = self.phase {
            self.leave_reads(sleeping);
        }
    }

    fn take_settings(&mut self, trackball_selected: bool, sleeping: bool, now: Instant)
        requires
            old(self).wf(),
            old(self).phase == Phase::Top,
        ensures
            (*final(self), quiet()) == old(self).next(
                Event::Settings { trackball_selected, sleeping, now },
            ),
            final(self).wf(),
    {
        reveal(Trackball::next);
        if !trackball_selected {
            self.deactivate();
            self.phase = Phase::Deselected;
        } else if self.ready {
            self.phase = Phase::Arming;
        } else if sleeping {
            self.phase = Phase::AsleepUnready;
        } else if now.ticks < self.next_probe.ticks {
            self.phase = Phase::ProbeWait;
        } else {
            self.phase = Phase::PreInit;
        }
    }

    fn take_sleep_change(&mut self, sleeping: bool, now: Instant)
        requires
            old(self).wf(),
            answers(old(self).due(), Event::SleepChanged { sleeping, now }),
            clock_in_range(now),
        ensures
            (*final(self), quiet()) == old(self).next(Event::SleepChanged { sleeping, now }),
            final(self).wf(),
    {
        reveal(Trackball::next);
        if sleeping && self.phase != Phase::AsleepUnready {
            self.park_for_sleep(now);
        } else {
            self.resume_from_sleep(now);
        }
        self.phase = Phase::Top;
    }

    fn take_init(&mut self, ok: bool, cpi_setting: u16, now: Instant)
        requires
            old(self).wf(),
            old(self).phase == Phase::Initializing,
            old(self).past(now),
            clock_in_range(now),
        ensures
            (*final(self), quiet()) == old(self).next(Event::InitDone { ok, cpi_setting, now }),
            final(self).wf(),
    {
        reveal(Trackball::next);
        if ok {
            self.current_cpi = configured_ball_cpi(&self.features, cpi_setting);
            self.phase = Phase::InitResolution { now };
        } else {
            self.mark_unavailable(now);
            self.phase = Phase::Top;
        }
    }

    fn take_resolution(&mut self, ok: bool)
        requires
            old(self).wf(),
            old(self).phase is InitResolution || old(self).phase is ApplyCpi,
        ensures
            (*final(self), quiet()) == old(self).next(Event::ResolutionDone { ok }),
            final(self).wf(),
    {
        reveal(Trackball::next);
        match self.phase {
            Phase::InitResolution { now } => {
                if ok {
                    self.phase = Phase::InitHealth { now };
                } else {
                    self.reject_sensor_configuration(now, false);
                    self.phase = Phase::Top;
                }
            },
            Phase::ApplyCpi { cpi } => {
                if ok {
                    self.current_cpi = cpi;
                }
                self.phase = Phase::Deadline { sleeping: false };
            },
            _ => {},
        }
    }

    fn take_arming_state(&mut self, sleeping: bool, cpi_setting: u16)
        requires
            old(self).wf(),
            old(self).phase == Phase::Arming,
        ensures
            (*final(self), quiet()) == old(self).next(Event::ArmingState { sleeping, cpi_setting }),
            final(self).wf(),
    {
        reveal(Trackball::next);
        let cpi: u16 = configured_ball_cpi(&self.features, cpi_setting);
        if !sleeping && cpi != self.current_cpi {
            self.phase = Phase::ApplyCpi { cpi };
        } else {
            self.phase = Phase::Deadline { sleeping };
        }
    }

    /// USB power came or went since it was seen last.
    pub fn vbus_changed(&self, detected: bool) -> (changed: bool)
        ensures
            changed == self.vbus_differs(detected),
    {
        match self.last_vbus_detect {
            Some(previous) => previous != detected,
            None => false,
        }
    }

    fn take_vbus(&mut self, detected: bool, now: Instant)
        requires
            old(self).wf(),
            old(self).phase is Verify,
            old(self).past(now),
            clock_in_range(now),
        ensures
            (*final(self), quiet()) == old(self).next(Event::Vbus { detected, now }),
            final(self).wf(),
    {
        reveal(Trackball::next);
        if let Phase::Verify { fallback, woke } = self.phase {
            if !self.vbus_changed(detected) && now.ticks < self.next_health_check.ticks {
                self.phase = Phase::PollDecision { sleeping: false, fallback, woke };
            } else {
                self.last_vbus_detect = Some(detected);
                self.next_health_check = now.plus(self.health_check_interval());
                self.phase = Phase::RunHealth { now, fallback, woke };
            }
        }
    }

    fn take_motion_pending(&mut self, pending: bool)
        requires
            old(self).wf(),
            old(self).phase is Reading,
        ensures
            (*final(self), quiet()) == old(self).next(Event::MotionPending { pending }),
            final(self).wf(),
    {
        reveal(Trackball::next);
        if let Phase::Reading { sleeping, fallback_poll, reads } = self.phase {
            if reads < MAX_MOTION_READS_PER_WAKE && (pending || (fallback_poll && reads == 0)) {
                self.phase = Phase::Sampling { sleeping, fallback_poll, reads: reads + 1 };
            } else if reads == MAX_MOTION_READS_PER_WAKE && pending {
                // A stuck-low or noisy MOTION line must not monopolize the
                // executor.
                self.phase = Phase::Yielding { sleeping };
            } else {
                self.leave_reads(sleeping);
            }
        }
    }

    #[verifier::rlimit(30)]
    fn take_motion(&mut self, motion: MotionData, now: Instant) -> (outcome: Outcome)
        requires
            old(self).wf(),
            old(self).phase is Sampling,
            old(self).past(now),
            clock_in_range(now),
        ensures
            (*final(self), outcome) == old(self).next(Event::Motion { motion, now }),
            final(self).wf(),
    {
        reveal(Trackball::next);
        if let Phase::Sampling { sleeping, fallback_poll, reads } = self.phase {
            let (dropped_x, dropped_y) = self.take_sample(motion, sleeping, now);
            let mut report = None;
            if self.is_report_due(sleeping, now) {
                report = self.report_at(now);
            }
            self.phase = Phase::Reading { sleeping, fallback_poll, reads };
            Outcome { report, dropped_x, dropped_y }
        } else {
            Outcome { report: None, dropped_x: 0, dropped_y: 0 }
        }
    }

    fn take_motion_failure(&mut self, now: Instant)
        requires
            old(self).wf(),
            old(self).phase is Sampling,
            old(self).past(now),
            clock_in_range(now),
        ensures
            (*final(self), quiet()) == old(self).next(Event::MotionFailed { now }),
            final(self).wf(),
    {
        reveal(Trackball::next);
        if let Phase::Sampling { sleeping, fallback_poll, reads } = self.phase {
            self.reject_sensor_configuration(now, true);
            self.phase = if reads == MAX_MOTION_READS_PER_WAKE {
                Phase::Reading { sleeping, fallback_poll, reads }
            } else {
                Phase::Top
            };
        }
    }

    fn enter_wake(&mut self, sleeping: bool, fallback: Option<Instant>, woke: bool)
        ensures
            *final(self) == old(self).at(
                if sleeping {
                    Phase::PollDecision { sleeping, fallback, woke }
                } else {
                    Phase::Verify { fallback, woke }
                },
            ),
    {
        self.phase = if sleeping {
            Phase::PollDecision { sleeping, fallback, woke }
        } else {
            Phase::Verify { fallback, woke }
        };
    }

    fn leave_reads(&mut self, sleeping: bool)
        ensures
            *final(self) == old(self).at(old(self).after_reads(sleeping)),
    {
        self.phase = if self.ready {
            Phase::Flush { sleeping }
        } else {
            Phase::Top
        };
    }

    fn take_health(&mut self, health: Option<Pmw3610Health>, vbus: bool)
        requires
            old(self).wf(),
            old(self).phase is InitHealth || old(self).phase is RunHealth,
        ensures
            (*final(self), quiet()) == old(self).next(Event::HealthDone { health, vbus }),
            final(self).wf(),
    {
        reveal(Trackball::next);
        let valid: bool = match health {
            Some(health) => health.is_valid(),
            None => false,
        };
        match self.phase {
            Phase::InitHealth { now } => {
                if valid {
                    self.ready = true;
                    self.acc_x = 0;
                    self.acc_y = 0;
                    self.last_report = now;
                    self.last_motion_activity = None;
                    self.next_health_check = now.plus(self.health_check_interval());
                    self.unavailable_since = None;
                    self.last_vbus_detect = Some(vbus);
                    self.recovery_pending = false;
                    self.phase = Phase::Arming;
                } else {
                    self.reject_sensor_configuration(now, false);
                    self.phase = Phase::Top;
                }
            },
            Phase::RunHealth { now, fallback, woke } => {
                if valid {
                    self.phase = Phase::PollDecision { sleeping: false, fallback, woke };
                } else {
                    self.reject_sensor_configuration(now, true);
                    self.phase = Phase::Top;
                }
            },
            _ => {},
        }
    }

    fn take_clock(&mut self, now: Instant) -> (outcome: Outcome)
        requires
            old(self).wf(),
            old(self).due() == Action::ReadClock,
            old(self).past(now),
            clock_in_range(now),
        ensures
            (*final(self), outcome) == old(self).next(Event::Clock { now }),
            final(self).wf(),
    {
        reveal(Trackball::next);
        match self.phase {
            Phase::Deadline { sleeping } => {
                let (deadline, fallback) = self.deadlines(sleeping, now);
                self.phase = Phase::MotionWait { sleeping, deadline, fallback };
            },
            Phase::PollDecision { sleeping, fallback, woke } => {
                let fallback_poll: bool = !woke && match fallback {
                    Some(deadline) => now.ticks >= deadline.ticks,
                    None => false,
                };
                self.phase = if woke || fallback_poll {
                    Phase::Reading { sleeping, fallback_poll, reads: 0 }
                } else {
                    Phase::Flush { sleeping }
                };
            },
            Phase::Flush { sleeping } => {
                return self.flush(sleeping, now);
            },
            _ => {},
        }
        Outcome { report: None, dropped_x: 0, dropped_y: 0 }
    }

    fn flush(&mut self, sleeping: bool, now: Instant) -> (outcome: Outcome)
        requires
            old(self).wf(),
            old(self).ready,
            old(self).past(now),
        ensures
            (*final(self), outcome) == old(self).flushed(sleeping, now),
            final(self).wf(),
    {
        let confirm: bool = sleeping && match self.sleep_motion_deadline {
            Some(deadline) => now.ticks >= deadline.ticks,
            None => false,
        };
        let mut report = None;
        if confirm {
            if self.has_reportable_motion(true) {
                report = self.report_at(now);
            } else {
                // A single step that was not followed by motion in the short
                // confirmation window is settling noise.
                self.acc_x = 0;
                self.acc_y = 0;
                self.sleep_motion_deadline = None;
            }
        } else if self.is_report_due(sleeping, now) {
            report = self.report_at(now);
        }
        self.phase = Phase::Top;
        Outcome { report, dropped_x: 0, dropped_y: 0 }
    }
}

} // verus!
