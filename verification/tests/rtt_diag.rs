use k04_firmware::features::BuildFeatures;
use k04_firmware::hid::{KeyboardReport, MouseReport, Report};
use k04_firmware::pointing::{Axis, AxisEvent, AxisValType, PointingEvent};
use k04_firmware::rtt_diag::{
    axis_totals, counter_ms, counter_us, record_motion_wake, record_pmw_accum_drop, record_pmw_axis_transform,
    record_pmw_error, record_pmw_error_at, record_pmw_fallback, record_pmw_optics,
    record_pmw_publish, record_pmw_publish_at, record_pmw_raw, record_pmw_raw_at, record_pmw_read,
    record_pmw_read_at, record_pmw_smart_transition, record_scheduler_tick,
    record_scheduler_tick_at, record_split_tx, record_split_tx_at, RawSample, RightDiag,
};
use k04_firmware::rtt_diag_left::{
    record_hid_enqueue, record_hid_enqueue_at, record_hid_write, record_hid_write_at,
    record_mouse_coalesce, record_mouse_slot_wait, record_split_rx, record_split_rx_at, LeftDiag,
};
use k04_firmware::scheduler_probe::{DiagMode, NeverEvent, RttSchedulerProbe};
use k04_firmware::time::Instant;

fn event(x: i16, y: i16) -> PointingEvent {
    PointingEvent {
        device_id: 0,
        axes: [
            AxisEvent { typ: AxisValType::Rel, axis: Axis::X, value: x },
            AxisEvent { typ: AxisValType::Rel, axis: Axis::Y, value: y },
            AxisEvent { typ: AxisValType::Rel, axis: Axis::Z, value: 0 },
        ],
    }
}

fn mouse(x: i8, y: i8) -> Report {
    Report::MouseReport(MouseReport { buttons: 0, x, y, wheel: 0, pan: 0 })
}

#[test]
fn clock_counters_start_over_when_full() {
    assert_eq!(counter_ms(Instant::from_ticks(1_234_567)), 1_234);
    assert_eq!(counter_us(Instant::from_ticks(1_234_567)), 1_234_567);
    assert_eq!(counter_us(Instant::from_ticks(0x1_0000_0005)), 5);
    assert_eq!(counter_ms(Instant::from_ticks(0x1_0000_0005 * 1_000)), 5);
}

#[test]
fn axis_totals_saturate_and_ignore_other_axes() {
    assert_eq!(axis_totals(&event(3, -4)), (3, -4));
    let mut doubled = event(30_000, -30_000);
    doubled.axes[2] = AxisEvent { typ: AxisValType::Rel, axis: Axis::X, value: 10_000 };
    assert_eq!(axis_totals(&doubled), (32_767, -30_000));
    doubled.axes[2] = AxisEvent { typ: AxisValType::Rel, axis: Axis::Y, value: -10_000 };
    assert_eq!(axis_totals(&doubled), (30_000, -32_768));
    doubled.axes[0].typ = AxisValType::Abs;
    assert_eq!(axis_totals(&doubled).0, 0);
}

#[test]
fn reports_come_once_per_second_and_reset_counters() {
    let mut diag = RightDiag::new();
    assert!(record_pmw_read_at(&mut diag, 5, -3, 80, true, 100).is_none());
    assert_eq!(diag.next_log_ms, 1_100);
    assert!(record_pmw_read_at(&mut diag, 0, 0, 120, true, 900).is_none());
    let report = record_pmw_read_at(&mut diag, 1, 1, 90, false, 1_100).unwrap();
    let sensor = report.counters.sensor;
    assert_eq!((sensor.reads, sensor.dx, sensor.dy, sensor.read_max_us), (3, 6, -2, 120));
    assert_eq!(sensor.read_gap.max, 800);
    assert_eq!(report.counters.optics.gpio_low_reads, 2);
    assert_eq!(report.counters.optics.gpio_low_zero, 1);
    assert_eq!((diag.sensor.reads, diag.sensor.dx), (0, 0));
    assert_eq!(diag.sensor.read_gap.last, 1_100);
    assert!(diag.maybe_log_right(2_099).is_none());
    assert!(diag.maybe_log_right(2_100).is_some());
}

#[test]
fn long_pauses_are_no_gaps() {
    let mut diag = RightDiag::new();
    record_pmw_publish_at(&mut diag, 10);
    record_pmw_publish_at(&mut diag, 2_010);
    assert_eq!(diag.sensor.publish_gap.max, 0);
    record_pmw_publish_at(&mut diag, 2_060);
    record_pmw_publish_at(&mut diag, 5_000);
    assert_eq!(diag.sensor.publish_gap.last, 5_000);
}

#[test]
fn raw_signs_count_only_strong_flips() {
    let mut diag = RightDiag::new();
    let sample = |dx, dy| RawSample { motion: 0x80, x_l: 1, y_l: 2, xy_h: 0xf0, dx, dy };
    record_pmw_raw_at(&mut diag, &sample(20, 0), 100);
    record_pmw_raw_at(&mut diag, &sample(-7, 0), 110);
    assert_eq!(diag.raw.x.flips, 0);
    record_pmw_raw_at(&mut diag, &sample(-1_900, 9), 120);
    assert_eq!((diag.raw.x.flips, diag.raw.x.near_saturation), (1, 1));
    assert_eq!((diag.raw.flip.axis, diag.raw.flip.ms, diag.raw.flip.dx), (1, 120, -1_900));
    record_pmw_raw_at(&mut diag, &sample(8, -8), 130);
    assert_eq!(diag.raw.flip.axis, 3);
    record_pmw_raw_at(&mut diag, &sample(0, 8), 900);
    assert_eq!(diag.raw.y.flips, 1);
    assert_eq!((diag.raw.x.positive, diag.raw.x.negative, diag.raw.x.zero), (2, 2, 1));
    assert_eq!((diag.raw.x.positive_sum, diag.raw.x.negative_abs_sum), (28, 1_907));
    assert_eq!((diag.raw.samples, diag.raw.motion_set), (5, 5));
    assert_eq!((diag.raw.xyh_or, diag.raw.xyh_and, diag.raw.xyh_last), (0xf0, 0xf0, 0xf0));
    assert_eq!(diag.raw.x.abs_max, 1_900);
}

#[test]
fn axis_transform_mismatches_are_counted() {
    let mut diag = RightDiag::new();
    record_pmw_axis_transform(&mut diag, 3, -4, -4, 3);
    record_pmw_axis_transform(&mut diag, 3, 0, 3, 0);
    assert_eq!((diag.axes.samples, diag.axes.mismatch), (2, 1));
    assert_eq!((diag.axes.pre_x_sum, diag.axes.post_y_sum), (6, 3));
    diag.next_log_ms = 1;
    let report = diag.maybe_log_right(5).unwrap();
    assert_eq!((report.pre_x_zero, report.pre_y_zero), (0, 1));
    assert_eq!((report.post_x_zero, report.post_y_zero), (0, 1));
    assert_eq!(diag.axes.last_post_x, 3);
}

#[test]
fn optics_are_averaged() {
    let mut diag = RightDiag::new();
    record_pmw_optics(&mut diag, true, 10, 44, 45, false);
    record_pmw_optics(&mut diag, false, 31, 45, 45, false);
    record_pmw_optics(&mut diag, false, 40, 60, 45, true);
    record_pmw_smart_transition(&mut diag, true, 40, 60);
    record_pmw_smart_transition(&mut diag, false, 41, 40);
    diag.next_log_ms = 1;
    let report = diag.maybe_log_right(5).unwrap();
    assert_eq!((report.squal_min, report.squal_avg), (10, 27));
    assert_eq!((report.shutter_min, report.shutter_avg), (44, 49));
    let optics = report.counters.optics;
    assert_eq!((optics.shutter_below, optics.shutter_equal, optics.shutter_above), (1, 1, 1));
    assert_eq!((optics.smart_enables, optics.smart_disables), (1, 1));
    assert!(!optics.smart_disabled);
    let empty = diag.maybe_log_right(2_000).unwrap();
    assert_eq!((empty.squal_min, empty.squal_avg, empty.xyh_and), (0, 0, 0));
    assert_eq!(empty.counters.optics.smart_last_squal, 41);
}

#[test]
fn sensor_task_events_are_counted() {
    let mut diag = RightDiag::new();
    record_motion_wake(&mut diag, 30, false);
    record_motion_wake(&mut diag, 20, true);
    assert_eq!(diag.sensor.motion_wakes, 2);
    assert_eq!((diag.sensor.motion_wait_max_us, diag.sensor.motion_pending_wait_max_us), (30, 20));
    record_pmw_fallback(&mut diag, 0, 0);
    record_pmw_fallback(&mut diag, 0, 1);
    assert_eq!((diag.sensor.fallback_reads, diag.sensor.fallback_hits), (2, 1));
    record_pmw_accum_drop(&mut diag, 5, 6);
    record_pmw_accum_drop(&mut diag, u32::MAX, 0);
    assert_eq!((diag.sensor.accum_dropped_x, diag.sensor.accum_dropped_y), (4, 6));
    record_pmw_error_at(&mut diag, 1);
    assert_eq!(diag.sensor.errors, 1);
    record_scheduler_tick_at(&mut diag, 4_999, 1);
    record_scheduler_tick_at(&mut diag, 5_000, 1);
    assert_eq!((diag.scheduler.ticks, diag.scheduler.late_over_5_ms), (2, 1));
}

#[test]
fn split_transmissions_track_waits() {
    let mut diag = RightDiag::new();
    let pointing = event(7, -8);
    for elapsed in [20_000, 25_000, 100] {
        record_split_tx_at(&mut diag, Some(&pointing), elapsed, true, 10);
    }
    record_split_tx_at(&mut diag, None, 1, false, 10);
    assert_eq!((diag.split_tx.pointing, diag.split_tx.errors), (3, 1));
    assert_eq!((diag.split_tx.dx, diag.split_tx.dy), (21, -24));
    assert_eq!((diag.split_tx.wait.over, diag.split_tx.wait.max, diag.split_tx.wait.current), (2, 2, 0));
    assert_eq!((diag.split_tx.max_us, diag.split_tx.total_us), (25_000, 45_100));
}

#[test]
fn clocked_recordings_use_the_clock() {
    let mut diag = RightDiag::new();
    let before = embassy_time::Instant::now().as_millis() as u32;
    record_pmw_read(&mut diag, 1, 2, 3, false);
    assert!(diag.next_log_ms >= before + 1_000);
    assert!(diag.next_log_ms <= embassy_time::Instant::now().as_millis() as u32 + 1_000);
    record_pmw_raw(&mut diag, 0, 0, 0, 0, 9, 9);
    record_scheduler_tick(&mut diag, 1);
    record_pmw_error(&mut diag);
    record_pmw_publish(&mut diag);
    record_split_tx(&mut diag, None, 1, true);
    assert_eq!((diag.sensor.reads, diag.sensor.errors, diag.sensor.publishes), (1, 1, 1));
    assert_eq!((diag.raw.samples, diag.scheduler.ticks), (1, 1));
    let mut left = LeftDiag::new();
    record_split_rx(&mut left, &event(1, 1), 0);
    record_hid_enqueue(&mut left, true, 3, 0, 0, true, 3);
    record_hid_write(&mut left, &mouse(1, 1), 0, true, 0, 0, 1, 0);
    assert_eq!((left.split_rx.pointing, left.enqueue.mouse, left.write.mouse), (1, 1, 1));
}

#[test]
fn left_half_reports_and_resets() {
    let mut diag = LeftDiag::new();
    record_split_rx_at(&mut diag, &event(9, -9), 0, 10);
    record_hid_enqueue_at(&mut diag, true, 5, 2, 700, true, 5, 20);
    record_hid_enqueue_at(&mut diag, false, 3, 1, 50, false, 3, 30);
    record_hid_write_at(&mut diag, &mouse(-5, 6), 20_000, false, 4, 100_000, 3, 4, 1_000, 40);
    record_hid_write_at(&mut diag, &mouse(1, 1), 10, true, 0, 14_999, 1, 0, 4_000, 50);
    record_hid_write_at(
        &mut diag,
        &Report::KeyboardReport(KeyboardReport::default()),
        10_000,
        true,
        0,
        0,
        0,
        0,
        0,
        60,
    );
    let report = diag.maybe_log_left(1_010, 7).unwrap();
    assert_eq!((report.queue_len, report.mouse_age_avg_us), (7, 57_499));
    let counters = report.counters;
    assert_eq!((counters.split_rx.dx, counters.split_rx.dy), (9, -9));
    assert_eq!((counters.enqueue.all, counters.enqueue.mouse, counters.enqueue.aborted), (1, 1, 1));
    assert_eq!((counters.enqueue.full, counters.enqueue.max_wait_us), (3, 700));
    assert_eq!(counters.queue_high_water, 5);
    let write = counters.write;
    assert_eq!((write.all, write.mouse, write.errors, write.slow), (3, 2, 1, 1));
    assert_eq!((write.dx, write.dy, write.source_reports), (-4, 7, 4));
    assert_eq!((write.age.over_15_ms, write.age.over_30_ms, write.age.over_100_ms), (1, 1, 1));
    assert_eq!((write.mouse_gap_max_us, write.last_mouse_us), (3_000, 4_000));
    assert_eq!((write.wait.over, write.wait.max, write.wait.current), (2, 1, 1));
    assert_eq!(write.total_us, 30_010);
    assert_eq!((diag.write.all, diag.queue_high_water), (0, 0));
    assert_eq!((diag.write.last_mouse_us, diag.write.wait.current), (4_000, 1));
}

#[test]
fn logged_queue_length_is_the_current_one() {
    let mut diag = LeftDiag::new();
    assert!(record_hid_enqueue_at(&mut diag, true, 5, 0, 0, true, 5, 10).is_none());
    let report = record_hid_enqueue_at(&mut diag, true, 9, 0, 0, true, 2, 1_010).unwrap();
    assert_eq!((report.counters.queue_high_water, report.queue_len), (9, 2));
    let report =
        record_hid_write_at(&mut diag, &mouse(1, 1), 0, true, 3, 0, 1, 8, 20, 2_010).unwrap();
    assert_eq!((report.counters.queue_high_water, report.queue_len), (3, 8));
}

#[test]
fn coalescing_counts_clips_and_residuals() {
    let mut diag = LeftDiag::new();
    record_mouse_coalesce(&mut diag, 3, true, 128, -129, i32::MIN, 5);
    record_mouse_coalesce(&mut diag, 1, false, -200, 300, 1, -9);
    record_mouse_coalesce(&mut diag, 0, false, 127, -128, 0, 0);
    let c = diag.coalesce;
    assert_eq!((c.merged, c.split_chunks), (4, 1));
    assert_eq!((c.clip_x_pos, c.clip_x_neg, c.clip_y_pos, c.clip_y_neg), (1, 1, 1, 1));
    assert_eq!((c.residual_x_max, c.residual_y_max), (2_147_483_648, 9));
    record_mouse_slot_wait(&mut diag, 0);
    record_mouse_slot_wait(&mut diag, 40);
    assert_eq!((diag.coalesce.slot_waits, diag.coalesce.slot_wait_max_us), (1, 40));
}

#[test]
fn split_totals_agree_on_both_halves() {
    let mut right = RightDiag::new();
    let mut left = LeftDiag::new();
    for (x, y) in [(30_000, -1), (2_767, 5), (-32_768, 7)] {
        record_split_tx_at(&mut right, Some(&event(x, y)), 1, true, 5);
        record_split_rx_at(&mut left, &event(x, y), 0, 9);
    }
    assert_eq!((right.split_tx.dx, right.split_tx.dy), (left.split_rx.dx, left.split_rx.dy));
}

#[test]
fn scheduler_probe_measures_lateness() {
    let probe = RttSchedulerProbe::new();
    assert_eq!(probe, RttSchedulerProbe);
    assert_eq!(NeverEvent, NeverEvent);
    let deadline = probe.next_deadline(Instant::from_ticks(5));
    assert_eq!(deadline.ticks, 10_005);
    let mut diag = RightDiag::new();
    assert!(probe.tick(&mut diag, deadline, Instant::from_ticks(17_005)).is_none());
    assert_eq!((diag.scheduler.late_max_us, diag.scheduler.late_over_5_ms), (7_000, 1));
    assert_eq!(diag.next_log_ms, 1_017);
}

#[test]
fn scheduler_probe_announces_the_mode() {
    let probe = RttSchedulerProbe::new();
    let mut features = BuildFeatures::none();
    assert_eq!(probe.announcements(&features), vec![DiagMode::Optics]);
    features.pmw_force_awake_diag = true;
    assert_eq!(probe.announcements(&features), vec![DiagMode::ForceAwake]);
    features = BuildFeatures::none();
    features.pmw_smart_off_diag = true;
    assert_eq!(probe.announcements(&features), vec![DiagMode::SmartOff]);
    features.pmw_axes_600_diag = true;
    assert_eq!(probe.announcements(&features), vec![DiagMode::SplitPacing, DiagMode::SmartOff]);
    features = BuildFeatures::none();
    features.pmw_raw_600_diag = true;
    assert_eq!(probe.announcements(&features), vec![DiagMode::Raw600]);
    features = BuildFeatures::none();
    features.pmw_raw_1000_diag = true;
    assert_eq!(probe.announcements(&features), vec![DiagMode::Raw1000]);
}
