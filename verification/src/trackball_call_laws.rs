//! What the functions of the trackball task promise their callers.

use vstd::prelude::*;

use crate::features::BuildFeatures;
use crate::pmw3610::Pmw3610;
use crate::pointing::{Axis, AxisValType, MotionData, PointingEvent};
use crate::time::{Duration, Instant};
use crate::trackball::{
    accumulate_motion, configured_ball_cpi, default_cpi, new_trackball, oriented_motion, Action,
    Event, MotionReport, Outcome, Trackball,
};

verus! {

/// The task names the action that is due and moves as its events say.
pub proof fn law_task_follows_its_events()
    ensures
        forall|task: &Trackball, action: Action| #[trigger]
            call_ensures(Trackball::action, (task,), action) ==> action == (*task).due(),
        forall|task: &mut Trackball, event: Event, outcome: Outcome| #[trigger]
            call_ensures(Trackball::advance, (task, event), outcome) ==> (*final(task), outcome)
                == (*task).next(event),
        forall|features: &BuildFeatures, id: u8, task: Trackball| #[trigger]
            call_ensures(Trackball::new_central, (features, id), task) ==> task
                == Trackball::fresh(*features, id, true),
        forall|features: &BuildFeatures, id: u8, task: Trackball| #[trigger]
            call_ensures(Trackball::new_peripheral, (features, id), task) ==> task
                == Trackball::fresh(*features, id, false),
{
}

/// Awake, motion on either axis is worth a report; asleep, at least two counts
/// on one axis are.
pub proof fn law_motion_worth_a_report()
    ensures
        forall|task: &Trackball, sleeping: bool, reportable: bool| #[trigger]
            call_ensures(Trackball::has_reportable_motion, (task, sleeping), reportable) ==> {
                &&& !sleeping ==> (reportable <==> (*task).acc_x != 0 || (*task).acc_y != 0)
                &&& sleeping ==> (reportable <==> (*task).acc_x >= 2 || (*task).acc_x <= -2
                    || (*task).acc_y >= 2 || (*task).acc_y <= -2)
            },
{
}

/// Reports of the central half are 4 ms apart, those of the peripheral half
/// 15 ms in full-width builds and 8 ms in others.
pub proof fn law_report_intervals()
    ensures
        forall|task: &Trackball, interval: Duration| #[trigger]
            call_ensures(Trackball::report_interval, (task,), interval) ==> {
                let wide = (*task).features.production_v22 || (*task).features.pmw_axes_600_diag;
                &&& (*task).is_central ==> interval.ticks == 4_000
                &&& !(*task).is_central && wide ==> interval.ticks == 15_000
                &&& !(*task).is_central && !wide ==> interval.ticks == 8_000
            },
{
}

/// Taking a report out empties the accumulators into it as far as it reaches,
/// and a task with nothing accumulated gives none.
pub proof fn law_accumulated_motion_is_sent()
    ensures
        forall|task: &mut Trackball, report: Option<MotionReport>| #[trigger]
            call_ensures(Trackball::send_accumulated_motion, (task,), report) ==> {
                let wide = !(*task).is_central && ((*task).features.production_v22
                    || (*task).features.pmw_axes_600_diag);
                &&& report is None <==> (*task).acc_x == 0 && (*task).acc_y == 0
                &&& report is None ==> *final(task) == *task
                &&& report is Some && -32768 <= (*task).acc_x <= 32767 && -32768 <= (*task).acc_y
                    <= 32767 ==> {
                    let sent = report->0;
                    &&& sent.device_id == (*task).device_id
                    &&& sent.x + final(task).acc_x == (*task).acc_x
                    &&& sent.y + final(task).acc_y == (*task).acc_y
                    &&& wide || -128 <= (*task).acc_x <= 127 ==> sent.x == (*task).acc_x
                    &&& wide || -128 <= (*task).acc_y <= 127 ==> sent.y == (*task).acc_y
                    &&& !wide && (*task).acc_x > 127 ==> sent.x == 127
                    &&& !wide && (*task).acc_x < -128 ==> sent.x == -128
                    &&& !wide && (*task).acc_y > 127 ==> sent.y == 127
                    &&& !wide && (*task).acc_y < -128 ==> sent.y == -128
                    &&& final(task).last_report == (*task).last_report
                    &&& final(task).phase == (*task).phase
                }
            },
{
    reveal(Trackball::sent);
    reveal(Trackball::next_report);
}

/// Parking for sleep drops what is accumulated, and a resumed task keeps only
/// motion of two counts or more on an axis.
pub proof fn law_sleep_drops_unconfirmed_motion()
    ensures
        forall|task: &mut Trackball, now: Instant| #[trigger]
            call_ensures(Trackball::park_for_sleep, (task, now), ()) ==> *final(task) == (
            Trackball {
                acc_x: 0,
                acc_y: 0,
                last_report: now,
                last_motion_activity: None,
                sleep_motion_deadline: None,
                next_health_check: Instant { ticks: 0 },
                ..*task
            }),
        forall|task: &mut Trackball, now: Instant| #[trigger]
            call_ensures(Trackball::resume_from_sleep, (task, now), ()) && now.ticks + 60_000_000
                <= u64::MAX ==> {
                let worth = (*task).acc_x >= 2 || (*task).acc_x <= -2 || (*task).acc_y >= 2
                    || (*task).acc_y <= -2;
                &&& worth ==> final(task).acc_x == (*task).acc_x && final(task).acc_y
                    == (*task).acc_y
                &&& !worth ==> final(task).acc_x == 0 && final(task).acc_y == 0
                &&& final(task).sleep_motion_deadline is None
                &&& (*task).ready ==> final(task).next_health_check.ticks == now.ticks + (
                if (*task).features.pmw_axes_600 {
                    1_000_000int
                } else {
                    60_000_000int
                })
                &&& !(*task).ready ==> final(task).next_health_check == (*task).next_health_check
                &&& final(task).ready == (*task).ready && final(task).last_report
                    == (*task).last_report && final(task).last_motion_activity
                    == (*task).last_motion_activity && final(task).phase == (*task).phase
            },
{
}

/// A missing sensor is probed 250 ms later during the first ten seconds and two
/// seconds later from then on, and nothing of its motion is kept.
pub proof fn law_missing_sensor_is_probed_again()
    ensures
        forall|task: &mut Trackball, now: Instant| #[trigger]
            call_ensures(Trackball::mark_unavailable, (task, now), ()) && now.ticks + 2_000_000
                <= u64::MAX ==> {
                let long = (*task).unavailable_since matches Some(since) && now.ticks - since.ticks
                    >= 10_000_000;
                &&& !final(task).ready && final(task).acc_x == 0 && final(task).acc_y == 0
                &&& final(task).next_probe.ticks == now.ticks + (if long {
                    2_000_000int
                } else {
                    250_000int
                })
                &&& final(task).unavailable_since == (if (*task).unavailable_since is Some {
                    (*task).unavailable_since
                } else {
                    Some(now)
                })
                &&& final(task).next_health_check.ticks == 0
                &&& final(task).last_motion_activity is None
                &&& final(task).sleep_motion_deadline is None
                &&& final(task).recovery_pending == (*task).recovery_pending
                &&& final(task).recovery_count == (*task).recovery_count
                &&& final(task).phase == (*task).phase
            },
{
}

/// A rejected sensor is missing too. Its recovery is counted once, and it is
/// probed at once where that was asked for.
pub proof fn law_rejected_sensor_is_recovered()
    ensures
        forall|task: &mut Trackball, now: Instant, at_once: bool| #[trigger]
            call_ensures(Trackball::reject_sensor_configuration, (task, now, at_once), ())
                && now.ticks + 2_000_000 <= u64::MAX ==> {
                let long = (*task).unavailable_since matches Some(since) && now.ticks - since.ticks
                    >= 10_000_000;
                &&& !final(task).ready && final(task).acc_x == 0 && final(task).acc_y == 0
                &&& final(task).recovery_pending
                &&& (*task).recovery_pending ==> final(task).recovery_count
                    == (*task).recovery_count
                &&& !(*task).recovery_pending && (*task).recovery_count < 0xffff_ffff
                    ==> final(task).recovery_count == (*task).recovery_count + 1
                &&& final(task).next_probe.ticks == now.ticks + (if at_once {
                    0int
                } else if long {
                    2_000_000int
                } else {
                    250_000int
                })
                &&& final(task).next_health_check.ticks == 0
                &&& final(task).phase == (*task).phase
            },
{
}

/// A deselected task forgets everything but its identity, its resolution and
/// its count of recoveries.
pub proof fn law_deactivation_forgets_the_sensor()
    ensures
        forall|task: &mut Trackball| #[trigger]
            call_ensures(Trackball::deactivate, (task,), ()) ==> *final(task) == (Trackball {
                ready: false,
                acc_x: 0,
                acc_y: 0,
                last_report: Instant { ticks: 0 },
                last_motion_activity: None,
                sleep_motion_deadline: None,
                next_probe: Instant { ticks: 0 },
                next_health_check: Instant { ticks: 0 },
                unavailable_since: None,
                last_vbus_detect: None,
                recovery_pending: false,
                ..*task
            }),
{
}

/// USB power changed exactly where it was seen before and was the other way.
pub proof fn law_power_change_needs_a_past()
    ensures
        forall|task: &Trackball, detected: bool, changed: bool| #[trigger]
            call_ensures(Trackball::vbus_changed, (task, detected), changed) ==> (changed
                <==> (*task).last_vbus_detect == Some(!detected)),
{
}

/// Full-axes builds swap the axes of a sample, others leave it alone.
pub proof fn law_axes_are_swapped_in_software()
    ensures
        forall|features: &BuildFeatures, motion: MotionData, output: MotionData| #[trigger]
            call_ensures(oriented_motion, (features, motion), output) ==> {
                &&& (*features).pmw_axes_600 ==> output.dx == motion.dy && output.dy == motion.dx
                &&& !(*features).pmw_axes_600 ==> output == motion
            },
{
}

/// A sum in the i16 range is kept whole; beyond it the nearest bound is kept and
/// the rest is told.
pub proof fn law_accumulation_tells_its_loss()
    ensures
        forall|current: i32, delta: i16, result: (i32, u32)| #[trigger]
            call_ensures(accumulate_motion, (current, delta), result) ==> {
                let sum = current + delta;
                &&& -32768 <= sum <= 32767 ==> result.0 == sum && result.1 == 0
                &&& 32767 < sum <= 0x7fff_ffff ==> result.0 == 32767 && result.1 == sum - 32767
                &&& -0x8000_0000 <= sum < -32768 ==> result.0 == -32768 && result.1 == -32768 - sum
            },
{
}

/// A raw build and a full-axes build start from 600, others from 1000; raw and
/// full-axes diagnostics keep to their resolution, and other images follow the
/// setting.
pub proof fn law_resolution_of_a_build()
    ensures
        forall|features: &BuildFeatures, cpi: u16| #[trigger]
            call_ensures(default_cpi, (features,), cpi) ==> {
                let low = (*features).pmw_raw_600_diag || (*features).pmw_axes_600;
                &&& low ==> cpi == 600
                &&& !low ==> cpi == 1000
            },
        forall|features: &BuildFeatures, setting: u16, cpi: u16| #[trigger]
            call_ensures(configured_ball_cpi, (features, setting), cpi) ==> {
                let low = (*features).pmw_raw_600_diag || ((*features).pmw_axes_600
                    && !(*features).production_v22);
                &&& low ==> cpi == 600
                &&& !low && (*features).pmw_raw_1000_diag ==> cpi == 1000
                &&& !low && !(*features).pmw_raw_1000_diag ==> cpi == setting
            },
{
}

/// The sensor of a half swaps its axes itself unless the build does, inverts
/// none, and is kept awake or without smart tracking only by a diagnostic build.
pub proof fn law_sensor_of_a_build()
    ensures
        forall|features: &BuildFeatures, id: u8, sensor: Pmw3610| #[trigger]
            call_ensures(new_trackball, (features, id), sensor) ==> {
                &&& sensor.id == id && !sensor.smart_flag
                &&& sensor.config.res_cpi == (if (*features).pmw_raw_600_diag
                    || (*features).pmw_axes_600 {
                    600int
                } else {
                    1000int
                })
                &&& sensor.config.swap_xy != (*features).pmw_axes_600
                &&& !sensor.config.invert_x && !sensor.config.invert_y
                &&& sensor.config.force_awake == (*features).pmw_force_awake_diag
                &&& sensor.config.smart_mode != (*features).pmw_smart_off_diag
            },
{
}

/// The event of a report moves its device by the report on the first two axes
/// and by nothing on the third.
pub proof fn law_report_becomes_an_event()
    ensures
        forall|report: &MotionReport, event: PointingEvent| #[trigger]
            call_ensures(MotionReport::to_event, (report,), event) ==> {
                &&& event.device_id == (*report).device_id
                &&& event.axes@.len() == 3
                &&& event.axes@[0].typ == AxisValType::Rel && event.axes@[0].axis == Axis::X
                    && event.axes@[0].value == (*report).x
                &&& event.axes@[1].typ == AxisValType::Rel && event.axes@[1].axis == Axis::Y
                    && event.axes@[1].value == (*report).y
                &&& event.axes@[2].typ == AxisValType::Rel && event.axes@[2].axis == Axis::Z
                    && event.axes@[2].value == 0
            },
{
}

} // verus!
