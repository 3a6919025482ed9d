use k04_firmware::features::BuildFeatures;
use k04_firmware::pmw3610::Pmw3610Health;
use k04_firmware::pointing::{Axis, AxisValType, MotionData};
use k04_firmware::time::Instant;
use k04_firmware::trackball::{
    accumulate_motion, configured_ball_cpi, default_cpi, new_trackball, oriented_motion, Action,
    Event, MotionReport, Outcome, Trackball,
};

const MS: u64 = 1_000;

fn at(ticks: u64) -> Instant {
    Instant::from_ticks(ticks)
}

fn healthy(valid: bool) -> Option<Pmw3610Health> {
    Some(Pmw3610Health {
        product_id: if valid { 0x3e } else { 0xff },
        observation1: 0x0f,
        performance: 0x0d,
        res_step: 3,
        smart_mode: 0,
        expected_performance: 0x0d,
        expected_res_step: 3,
        expected_smart_mode: 0,
    })
}

fn production() -> BuildFeatures {
    let mut features = BuildFeatures::none();
    features.production_v22 = true;
    features.pmw_axes_600 = true;
    features
}

fn quiet(outcome: Outcome) {
    assert_eq!(outcome, Outcome { report: None, dropped_x: 0, dropped_y: 0 });
}

/// Brings a fresh task to the point where it waits for motion, at `now`.
fn arm(task: &mut Trackball, now: u64, cpi_setting: u16) {
    assert_eq!(task.action(), Action::ReadSettings);
    quiet(task.advance(Event::Settings { trackball_selected: true, sleeping: false, now: at(now) }));
    assert_eq!(task.action(), Action::ReadSleeping);
    quiet(task.advance(Event::Sleeping { sleeping: false, now: at(now) }));
    assert_eq!(task.action(), Action::InitSensor);
    quiet(task.advance(Event::InitDone { ok: true, cpi_setting, now: at(now) }));
    assert_eq!(task.action(), Action::SetResolution { cpi: task.current_cpi });
    quiet(task.advance(Event::ResolutionDone { ok: true }));
    assert_eq!(task.action(), Action::CheckHealth { cpi: task.current_cpi });
    quiet(task.advance(Event::HealthDone { health: healthy(true), vbus: false }));
    assert!(task.ready);
}

/// Goes from a ready task at the top of its loop, or just armed, to the wait.
fn wait(task: &mut Trackball, now: u64, sleeping: bool, cpi_setting: u16) {
    if task.action() == Action::ReadSettings {
        quiet(task.advance(Event::Settings { trackball_selected: true, sleeping, now: at(now) }));
    }
    assert_eq!(task.action(), Action::ReadArmingState);
    quiet(task.advance(Event::ArmingState { sleeping, cpi_setting }));
    assert_eq!(task.action(), Action::ReadClock);
    quiet(task.advance(Event::Clock { now: at(now) }));
    assert!(matches!(task.action(), Action::WaitMotion { .. }));
}

/// Serves one motion wake with the given sample.
fn sample(task: &mut Trackball, now: u64, sleeping: bool, dx: i16, dy: i16) -> Outcome {
    quiet(task.advance(Event::MotionWoke));
    if !sleeping {
        assert_eq!(task.action(), Action::ReadVbus);
        quiet(task.advance(Event::Vbus { detected: false, now: at(now) }));
    }
    assert_eq!(task.action(), Action::ReadClock);
    quiet(task.advance(Event::Clock { now: at(now) }));
    assert_eq!(task.action(), Action::ReadMotionPending);
    quiet(task.advance(Event::MotionPending { pending: true }));
    assert_eq!(task.action(), Action::ReadMotion);
    let outcome = task.advance(Event::Motion { motion: MotionData { dx, dy }, now: at(now) });
    quiet(task.advance(Event::MotionPending { pending: false }));
    assert_eq!(task.action(), Action::ReadClock);
    outcome
}

#[test]
fn sensor_configuration_follows_the_build() {
    let plain = new_trackball(&BuildFeatures::none(), 2);
    assert_eq!((plain.id, plain.config.res_cpi), (2, 1_000));
    assert!(plain.config.swap_xy && plain.config.smart_mode && !plain.config.force_awake);
    let sensor = new_trackball(&production(), 1);
    assert_eq!(sensor.config.res_cpi, 600);
    assert!(!sensor.config.swap_xy);
    let mut features = BuildFeatures::none();
    features.pmw_force_awake_diag = true;
    assert!(new_trackball(&features, 0).config.force_awake);
    let mut features = BuildFeatures::none();
    features.pmw_smart_off_diag = true;
    assert!(!new_trackball(&features, 0).config.smart_mode);
    assert_eq!(default_cpi(&production()), 600);
}

#[test]
fn ball_resolution_follows_the_setting_except_in_diagnostics() {
    assert_eq!(configured_ball_cpi(&BuildFeatures::none(), 1_400), 1_400);
    assert_eq!(configured_ball_cpi(&production(), 1_400), 1_400);
    let mut features = BuildFeatures::none();
    features.pmw_axes_600 = true;
    assert_eq!(configured_ball_cpi(&features, 1_400), 600);
    let mut features = BuildFeatures::none();
    features.pmw_raw_600_diag = true;
    assert_eq!(configured_ball_cpi(&features, 1_400), 600);
    let mut features = BuildFeatures::none();
    features.pmw_raw_1000_diag = true;
    assert_eq!(configured_ball_cpi(&features, 1_400), 1_000);
}

#[test]
fn full_axes_builds_swap_the_axes() {
    let motion = MotionData { dx: 3, dy: -4 };
    assert_eq!(oriented_motion(&production(), motion), MotionData { dx: -4, dy: 3 });
    assert_eq!(oriented_motion(&BuildFeatures::none(), motion), motion);
}

#[test]
fn vbus_changes_only_against_a_state_that_was_seen() {
    let mut task = Trackball::new_central(&BuildFeatures::none(), 0);
    assert!(!task.vbus_changed(true));
    arm(&mut task, 0, 1_000);
    assert!(task.vbus_changed(true));
    assert!(!task.vbus_changed(false));
}

#[test]
fn distrusted_sensor_publishes_only_after_a_new_set_up() {
    let mut task = Trackball::new_central(&BuildFeatures::none(), 0);
    arm(&mut task, 0, 1_000);
    wait(&mut task, 10 * MS, false, 1_000);
    quiet(task.advance(Event::MotionWoke));
    quiet(task.advance(Event::Vbus { detected: false, now: at(10 * MS) }));
    quiet(task.advance(Event::Clock { now: at(10 * MS) }));
    quiet(task.advance(Event::MotionPending { pending: true }));
    quiet(task.advance(Event::MotionFailed { now: at(10 * MS) }));
    assert!(!task.ready && task.recovery_pending);
    // A set-up that breaks off in the middle does not count.
    quiet(task.advance(Event::Settings { trackball_selected: true, sleeping: false, now: at(10 * MS) }));
    quiet(task.advance(Event::Sleeping { sleeping: false, now: at(10 * MS) }));
    quiet(task.advance(Event::InitDone { ok: true, cpi_setting: 1_000, now: at(10 * MS) }));
    quiet(task.advance(Event::ResolutionDone { ok: true }));
    quiet(task.advance(Event::HealthDone { health: healthy(false), vbus: false }));
    assert!(!task.ready);
    arm(&mut task, 500 * MS, 1_000);
    wait(&mut task, 510 * MS, false, 1_000);
    let report = sample(&mut task, 510 * MS, false, 5, 6).report.unwrap();
    assert_eq!((report.x, report.y), (5, 6));
}

#[test]
fn accumulator_saturates_and_counts_the_loss() {
    assert_eq!(accumulate_motion(10, -3), (7, 0));
    assert_eq!(accumulate_motion(32_000, 1_000), (32_767, 233));
    assert_eq!(accumulate_motion(-32_000, -1_000), (-32_768, 232));
    assert_eq!(accumulate_motion(i32::MAX, 7), (32_767, 2_147_450_880));
    assert_eq!(accumulate_motion(i32::MIN, -7), (-32_768, 2_147_450_880));
}

#[test]
fn report_becomes_a_relative_event() {
    let event = MotionReport { device_id: 4, x: -5, y: 6 }.to_event();
    assert_eq!(event.device_id, 4);
    assert_eq!(event.axes.map(|axis| axis.value), [-5, 6, 0]);
    assert_eq!(event.axes.map(|axis| axis.axis), [Axis::X, Axis::Y, Axis::Z]);
    assert!(event.axes.iter().all(|axis| axis.typ == AxisValType::Rel));
}

#[test]
fn report_intervals_follow_the_half_and_the_build() {
    let none = BuildFeatures::none();
    assert_eq!(Trackball::new_central(&none, 0).report_interval().ticks, 4_000);
    assert_eq!(Trackball::new_peripheral(&none, 1).report_interval().ticks, 8_000);
    assert_eq!(Trackball::new_central(&production(), 0).report_interval().ticks, 4_000);
    assert_eq!(Trackball::new_peripheral(&production(), 1).report_interval().ticks, 15_000);
}

#[test]
fn fast_motion_is_paced_without_loss() {
    let mut task = Trackball::new_central(&BuildFeatures::none(), 3);
    arm(&mut task, 0, 1_000);
    let mut total = 0i32;
    let mut now = 0;
    for _ in 0..5 {
        now += 5 * MS;
        wait(&mut task, now, false, 1_000);
        let outcome = sample(&mut task, now, false, 200, 0);
        let report = outcome.report.unwrap();
        assert_eq!((report.device_id, report.x, report.y), (3, 127, 0));
        total += i32::from(report.x);
        quiet(task.advance(Event::Clock { now: at(now) }));
    }
    while task.acc_x != 0 {
        now += 4 * MS;
        wait(&mut task, now, false, 1_000);
        quiet(task.advance(Event::DeadlineReached));
        quiet(task.advance(Event::Vbus { detected: false, now: at(now) }));
        quiet(task.advance(Event::Clock { now: at(now) }));
        if task.action() == Action::ReadMotionPending {
            quiet(task.advance(Event::MotionPending { pending: false }));
            assert_eq!(task.action(), Action::ReadMotion);
            let outcome = task.advance(Event::Motion { motion: MotionData { dx: 0, dy: 0 }, now: at(now) });
            total += outcome.report.map_or(0, |report| i32::from(report.x));
            quiet(task.advance(Event::MotionPending { pending: false }));
        }
        let outcome = task.advance(Event::Clock { now: at(now) });
        total += outcome.report.map_or(0, |report| i32::from(report.x));
    }
    assert_eq!(total, 1_000);
}

#[test]
fn motion_between_reports_is_accumulated() {
    let mut task = Trackball::new_peripheral(&production(), 1);
    arm(&mut task, 100 * MS, 600);
    wait(&mut task, 101 * MS, false, 600);
    let outcome = sample(&mut task, 101 * MS, false, 3_000, 40);
    assert_eq!(outcome.report, None);
    quiet(task.advance(Event::Clock { now: at(101 * MS) }));
    // Software axes: the pointer moves along the other axis.
    assert_eq!((task.acc_x, task.acc_y), (40, 3_000));
    wait(&mut task, 102 * MS, false, 600);
    assert_eq!(
        task.action(),
        Action::WaitMotion { deadline: Some(at(110 * MS)) }
    );
    let outcome = sample(&mut task, 115 * MS, false, -1_000, 0);
    let report = outcome.report.unwrap();
    assert_eq!((report.x, report.y), (40, 2_000));
    assert_eq!((task.acc_x, task.acc_y), (0, 0));
}

#[test]
fn saturated_accumulator_reports_the_drop() {
    let mut task = Trackball::new_central(&BuildFeatures::none(), 0);
    arm(&mut task, 0, 1_000);
    wait(&mut task, 0, false, 1_000);
    let outcome = sample(&mut task, 0, false, 32_000, 0);
    assert_eq!(outcome.dropped_x, 0);
    quiet(task.advance(Event::Clock { now: at(0) }));
    wait(&mut task, 0, false, 1_000);
    let outcome = sample(&mut task, 0, false, 2_000, -1);
    assert_eq!((outcome.dropped_x, outcome.dropped_y), (1_233, 0));
    assert_eq!(task.acc_x, 32_767);
}

#[test]
fn unavailable_sensor_is_probed_with_backoff() {
    let mut task = Trackball::new_central(&BuildFeatures::none(), 0);
    let mut now = 0;
    for _ in 0..3 {
        quiet(task.advance(Event::Settings { trackball_selected: true, sleeping: false, now: at(now) }));
        if let Action::WaitUntil { at: deadline } = task.action() {
            now = deadline.ticks;
            quiet(task.advance(Event::DeadlineReached));
        }
        quiet(task.advance(Event::Sleeping { sleeping: false, now: at(now) }));
        quiet(task.advance(Event::InitDone { ok: false, cpi_setting: 1_000, now: at(now) }));
        assert_eq!(task.next_probe.ticks, now + 250 * MS);
    }
    let late = 11_000 * MS;
    task.mark_unavailable(at(late));
    assert_eq!(task.next_probe.ticks, late + 2_000 * MS);
    assert_eq!(task.recovery_count, 0);
}

#[test]
fn unhealthy_sensor_is_rejected_before_sampling() {
    let mut task = Trackball::new_central(&BuildFeatures::none(), 0);
    arm(&mut task, 0, 1_000);
    wait(&mut task, 10 * MS, false, 1_000);
    quiet(task.advance(Event::MotionWoke));
    quiet(task.advance(Event::Vbus { detected: true, now: at(20 * MS) }));
    assert_eq!(task.action(), Action::CheckHealth { cpi: 1_000 });
    quiet(task.advance(Event::HealthDone { health: healthy(false), vbus: true }));
    assert!(!task.ready && task.recovery_pending);
    assert_eq!((task.recovery_count, task.next_probe.ticks), (1, 20 * MS));
    assert_eq!(task.action(), Action::ReadSettings);
    // The recovery is counted once.
    arm(&mut task, 30 * MS, 1_000);
    assert_eq!((task.recovery_count, task.recovery_pending), (1, false));
    wait(&mut task, 31 * MS, false, 1_000);
    quiet(task.advance(Event::MotionWoke));
    quiet(task.advance(Event::Vbus { detected: true, now: at(32 * MS) }));
    quiet(task.advance(Event::HealthDone { health: healthy(true), vbus: true }));
    assert!(task.ready);
    assert_eq!(task.action(), Action::ReadClock);
}

#[test]
fn failed_reads_and_resolutions_reject_the_sensor() {
    let mut task = Trackball::new_central(&BuildFeatures::none(), 0);
    arm(&mut task, 0, 1_000);
    wait(&mut task, 0, false, 1_000);
    quiet(task.advance(Event::MotionWoke));
    quiet(task.advance(Event::Vbus { detected: false, now: at(1) }));
    quiet(task.advance(Event::Clock { now: at(1) }));
    quiet(task.advance(Event::MotionPending { pending: true }));
    quiet(task.advance(Event::MotionFailed { now: at(2) }));
    assert!(!task.ready);
    assert_eq!(task.action(), Action::ReadSettings);

    quiet(task.advance(Event::Settings { trackball_selected: true, sleeping: false, now: at(3) }));
    quiet(task.advance(Event::Sleeping { sleeping: false, now: at(3) }));
    quiet(task.advance(Event::InitDone { ok: true, cpi_setting: 5_000, now: at(3) }));
    quiet(task.advance(Event::ResolutionDone { ok: false }));
    assert!(!task.ready);
    assert_eq!(task.next_probe.ticks, 3 + 250 * MS);
}

#[test]
fn stuck_motion_line_yields_after_sixteen_reads() {
    let mut task = Trackball::new_central(&BuildFeatures::none(), 0);
    arm(&mut task, 0, 1_000);
    wait(&mut task, 0, false, 1_000);
    quiet(task.advance(Event::MotionWoke));
    quiet(task.advance(Event::Vbus { detected: false, now: at(1) }));
    quiet(task.advance(Event::Clock { now: at(1) }));
    for _ in 0..16 {
        quiet(task.advance(Event::MotionPending { pending: true }));
        assert_eq!(task.action(), Action::ReadMotion);
        quiet(task.advance(Event::Motion { motion: MotionData { dx: 0, dy: 0 }, now: at(1) }));
    }
    quiet(task.advance(Event::MotionPending { pending: true }));
    assert_eq!(task.action(), Action::PauseMicros(50));
    quiet(task.advance(Event::Paused));
    assert_eq!(task.action(), Action::ReadClock);
}

#[test]
fn lone_step_while_asleep_is_noise() {
    let mut task = Trackball::new_central(&BuildFeatures::none(), 0);
    arm(&mut task, 0, 1_000);
    wait(&mut task, 10 * MS, true, 1_000);
    let outcome = sample(&mut task, 10 * MS, true, 1, 0);
    assert_eq!(outcome.report, None);
    quiet(task.advance(Event::Clock { now: at(10 * MS) }));
    wait(&mut task, 11 * MS, true, 1_000);
    assert_eq!(task.action(), Action::WaitMotion { deadline: Some(at(30 * MS)) });
    quiet(task.advance(Event::DeadlineReached));
    quiet(task.advance(Event::Clock { now: at(30 * MS) }));
    quiet(task.advance(Event::Clock { now: at(30 * MS) }));
    assert_eq!((task.acc_x, task.sleep_motion_deadline), (0, None));
}

#[test]
fn confirmed_motion_while_asleep_is_reported() {
    let mut task = Trackball::new_central(&BuildFeatures::none(), 0);
    arm(&mut task, 0, 1_000);
    wait(&mut task, 10 * MS, true, 1_000);
    sample(&mut task, 10 * MS, true, 1, 0);
    quiet(task.advance(Event::Clock { now: at(10 * MS) }));
    wait(&mut task, 11 * MS, true, 1_000);
    let outcome = sample(&mut task, 12 * MS, true, 1, 0);
    assert_eq!(outcome.report, Some(MotionReport { device_id: 0, x: 2, y: 0 }));
}

#[test]
fn sleep_and_selection_changes_reset_motion() {
    let mut task = Trackball::new_central(&BuildFeatures::none(), 0);
    arm(&mut task, 0, 1_000);
    wait(&mut task, MS, false, 1_000);
    sample(&mut task, MS, false, 50, 50);
    quiet(task.advance(Event::Clock { now: at(MS) }));
    wait(&mut task, 2 * MS, false, 1_000);
    quiet(task.advance(Event::SleepChanged { sleeping: true, now: at(3 * MS) }));
    assert_eq!((task.acc_x, task.acc_y, task.ready), (0, 0, true));
    wait(&mut task, 4 * MS, true, 1_000);
    quiet(task.advance(Event::SleepChanged { sleeping: false, now: at(5 * MS) }));
    assert_eq!(task.next_health_check.ticks, 5 * MS + 60_000 * MS);
    wait(&mut task, 6 * MS, false, 1_000);
    quiet(task.advance(Event::SelectionChanged));
    assert!(!task.ready);
    quiet(task.advance(Event::Settings { trackball_selected: false, sleeping: false, now: at(7 * MS) }));
    assert_eq!(task.action(), Action::WaitSelectionChange);
    quiet(task.advance(Event::SelectionChanged));
    quiet(task.advance(Event::Settings { trackball_selected: true, sleeping: true, now: at(8 * MS) }));
    assert_eq!(task.action(), Action::WaitSelectionOrSleepChange);
    quiet(task.advance(Event::SleepChanged { sleeping: false, now: at(9 * MS) }));
    assert_eq!(task.action(), Action::ReadSettings);
}

#[test]
fn live_resolution_setting_is_applied() {
    let mut task = Trackball::new_peripheral(&production(), 1);
    arm(&mut task, 0, 600);
    quiet(task.advance(Event::ArmingState { sleeping: false, cpi_setting: 1_200 }));
    assert_eq!(task.action(), Action::SetResolution { cpi: 1_200 });
    quiet(task.advance(Event::ResolutionDone { ok: false }));
    assert_eq!(task.current_cpi, 600);
    quiet(task.advance(Event::Clock { now: at(1) }));
    quiet(task.advance(Event::SleepChanged { sleeping: false, now: at(1) }));
    quiet(task.advance(Event::Settings { trackball_selected: true, sleeping: false, now: at(1) }));
    quiet(task.advance(Event::ArmingState { sleeping: false, cpi_setting: 1_200 }));
    quiet(task.advance(Event::ResolutionDone { ok: true }));
    assert_eq!(task.current_cpi, 1_200);
}

#[test]
fn recent_motion_is_followed_by_fallback_polls() {
    let mut task = Trackball::new_central(&BuildFeatures::none(), 0);
    arm(&mut task, 0, 1_000);
    wait(&mut task, 10 * MS, false, 1_000);
    sample(&mut task, 10 * MS, false, 5, 0);
    quiet(task.advance(Event::Clock { now: at(10 * MS) }));
    wait(&mut task, 20 * MS, false, 1_000);
    assert_eq!(task.action(), Action::WaitMotion { deadline: Some(at(28 * MS)) });
    quiet(task.advance(Event::DeadlineReached));
    quiet(task.advance(Event::Vbus { detected: false, now: at(28 * MS) }));
    quiet(task.advance(Event::Clock { now: at(28 * MS) }));
    assert_eq!(task.action(), Action::ReadMotionPending);
    quiet(task.advance(Event::MotionPending { pending: false }));
    assert_eq!(task.action(), Action::ReadMotion);
    quiet(task.advance(Event::Motion { motion: MotionData { dx: 0, dy: 0 }, now: at(28 * MS) }));
    quiet(task.advance(Event::MotionPending { pending: false }));
    quiet(task.advance(Event::Clock { now: at(28 * MS) }));
    wait(&mut task, 800 * MS, false, 1_000);
    assert_eq!(task.action(), Action::WaitMotion { deadline: Some(at(60_000 * MS)) });
}
