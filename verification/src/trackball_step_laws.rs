//! What single steps of the trackball task do with motion, time and the sensor.

use vstd::prelude::*;

use crate::features::BuildFeatures;
use crate::pmw3610::Pmw3610Health;
use crate::pointing::MotionData;
use crate::time::Instant;
use crate::trackball::{Action, Event, Phase, Trackball};

verus! {

/// Motion does not wait once it is due: a sample of an awake task is reported
/// exactly where it leaves motion on either axis and one report interval has
/// passed since the last report. While the keyboard sleeps, at least two counts
/// on one axis are asked for.
pub proof fn law_due_sample_is_reported(
    task: Trackball,
    motion: MotionData,
    now: Instant,
    interval: int,
    x: int,
    y: int,
)
    requires
        task.phase is Sampling,
        x == task.acc_x + (if task.features.pmw_axes_600 {
            motion.dy
        } else {
            motion.dx
        }),
        y == task.acc_y + (if task.features.pmw_axes_600 {
            motion.dx
        } else {
            motion.dy
        }),
        interval == (if task.is_central {
            4_000int
        } else if task.features.production_v22 || task.features.pmw_axes_600_diag {
            15_000int
        } else {
            8_000int
        }),
    ensures
        !task.phase->Sampling_sleeping ==> (task.next(Event::Motion { motion, now }).1.report is Some
            <==> (x != 0 || y != 0) && now.ticks - task.last_report.ticks >= interval),
        task.phase->Sampling_sleeping ==> (task.next(Event::Motion { motion, now }).1.report is Some
            <==> (x >= 2 || x <= -2 || y >= 2 || y <= -2) && now.ticks - task.last_report.ticks
            >= interval),
{
    reveal(Trackball::next);
    reveal(Trackball::next_report);
}

/// The report of a sample carries the motion of the sample and what was
/// accumulated before it, as far as it fits: the i8 range, or the i16 range on
/// the peripheral half of a full-width build. What does not fit stays
/// accumulated, and only a sum beyond the i16 range is cut, which is told.
pub proof fn law_sample_report_carries_its_motion(
    task: Trackball,
    motion: MotionData,
    now: Instant,
    x: int,
    y: int,
)
    requires
        task.phase is Sampling,
        task.next(Event::Motion { motion, now }).1.report is Some,
        now.ticks + 20_000 <= u64::MAX,
        -32768 <= task.acc_x <= 32767,
        -32768 <= task.acc_y <= 32767,
        x == task.acc_x + (if task.features.pmw_axes_600 {
            motion.dy
        } else {
            motion.dx
        }),
        y == task.acc_y + (if task.features.pmw_axes_600 {
            motion.dx
        } else {
            motion.dy
        }),
    ensures
        ({
            let (rest, outcome) = task.next(Event::Motion { motion, now });
            let report = outcome.report->0;
            let wide = !task.is_central && (task.features.production_v22
                || task.features.pmw_axes_600_diag);
            let opens_window = task.phase->Sampling_sleeping && task.acc_x == 0 && task.acc_y == 0
                && (motion.dx != 0 || motion.dy != 0);
            &&& report.device_id == task.device_id
            &&& rest.last_report == now
            &&& -32768 <= x <= 32767 ==> outcome.dropped_x == 0 && report.x + rest.acc_x == x
            &&& -32768 <= y <= 32767 ==> outcome.dropped_y == 0 && report.y + rest.acc_y == y
            &&& x > 32767 ==> outcome.dropped_x == x - 32767 && report.x + rest.acc_x == 32767
            &&& y > 32767 ==> outcome.dropped_y == y - 32767 && report.y + rest.acc_y == 32767
            &&& x < -32768 ==> outcome.dropped_x == -32768 - x && report.x + rest.acc_x == -32768
            &&& y < -32768 ==> outcome.dropped_y == -32768 - y && report.y + rest.acc_y == -32768
            &&& wide ==> rest.acc_x == 0 && rest.acc_y == 0
            &&& -128 <= x <= 127 ==> report.x == x
            &&& -128 <= y <= 127 ==> report.y == y
            &&& !wide && x > 127 ==> report.x == 127
            &&& !wide && x < -128 ==> report.x == -128
            &&& !wide && y > 127 ==> report.y == 127
            &&& !wide && y < -128 ==> report.y == -128
            &&& rest.acc_x == 0 && rest.acc_y == 0 ==> rest.sleep_motion_deadline is None
            &&& !(rest.acc_x == 0 && rest.acc_y == 0) && opens_window ==> (
            rest.sleep_motion_deadline matches Some(deadline) && deadline.ticks == now.ticks
                + 20_000)
            &&& !(rest.acc_x == 0 && rest.acc_y == 0) && !opens_window
                ==> rest.sleep_motion_deadline == task.sleep_motion_deadline
        }),
{
    let sleeping = task.phase->Sampling_sleeping;
    let fallback_poll = task.phase->Sampling_fallback_poll;
    let reads = task.phase->Sampling_reads;
    let after_phase = Phase::Reading { sleeping, fallback_poll, reads };
    assert(task.next(Event::Motion { motion, now }) == task.sampled(
        motion,
        sleeping,
        now,
        after_phase,
    )) by {
        reveal(Trackball::next);
    }
    reveal(Trackball::next_report);
    reveal(Trackball::sent);
}

/// A sample that is not reported stays accumulated, within the i16 range, and
/// leaves the time of the last report alone. What the range cuts off is told.
pub proof fn law_unreported_sample_stays(
    task: Trackball,
    motion: MotionData,
    now: Instant,
    x: int,
    y: int,
)
    requires
        task.phase is Sampling,
        task.next(Event::Motion { motion, now }).1.report is None,
        x == task.acc_x + (if task.features.pmw_axes_600 {
            motion.dy
        } else {
            motion.dx
        }),
        y == task.acc_y + (if task.features.pmw_axes_600 {
            motion.dx
        } else {
            motion.dy
        }),
    ensures
        ({
            let (rest, outcome) = task.next(Event::Motion { motion, now });
            &&& rest.last_report == task.last_report
            &&& -32768 <= x <= 32767 ==> rest.acc_x == x && outcome.dropped_x == 0
            &&& -32768 <= y <= 32767 ==> rest.acc_y == y && outcome.dropped_y == 0
            &&& 32767 < x <= 70_000 ==> rest.acc_x == 32767 && outcome.dropped_x == x - 32767
            &&& 32767 < y <= 70_000 ==> rest.acc_y == 32767 && outcome.dropped_y == y - 32767
            &&& -70_000 <= x < -32768 ==> rest.acc_x == -32768 && outcome.dropped_x == -32768 - x
            &&& -70_000 <= y < -32768 ==> rest.acc_y == -32768 && outcome.dropped_y == -32768 - y
        }),
{
    reveal(Trackball::next);
    reveal(Trackball::next_report);
}

/// A sample counts as motion exactly where it moved on an axis, and the first
/// movement of a sleeping keyboard opens a confirmation window of 20 ms. The
/// line is looked at again after every sample, and nothing else changes.
pub proof fn law_sample_is_remembered(task: Trackball, motion: MotionData, now: Instant)
    requires
        task.phase is Sampling,
        now.ticks + 20_000 <= u64::MAX,
    ensures
        ({
            let (rest, outcome) = task.next(Event::Motion { motion, now });
            let moved = motion.dx != 0 || motion.dy != 0;
            &&& rest.last_motion_activity == (if moved {
                Some(now)
            } else {
                task.last_motion_activity
            })
            &&& outcome.report is None && task.phase->Sampling_sleeping && moved && task.acc_x == 0
                && task.acc_y == 0 ==> (rest.sleep_motion_deadline matches Some(deadline)
                && deadline.ticks == now.ticks + 20_000)
            &&& outcome.report is None && !(task.phase->Sampling_sleeping && moved && task.acc_x
                == 0 && task.acc_y == 0) ==> rest.sleep_motion_deadline
                == task.sleep_motion_deadline
            &&& rest.phase == (Phase::Reading {
                sleeping: task.phase->Sampling_sleeping,
                fallback_poll: task.phase->Sampling_fallback_poll,
                reads: task.phase->Sampling_reads,
            })
            &&& rest.due() == Action::ReadMotionPending
            &&& rest.ready == task.ready && rest.next_probe == task.next_probe
            &&& rest.next_health_check == task.next_health_check
            &&& rest.unavailable_since == task.unavailable_since
            &&& rest.current_cpi == task.current_cpi
            &&& rest.last_vbus_detect == task.last_vbus_detect
            &&& rest.recovery_pending == task.recovery_pending
            &&& rest.recovery_count == task.recovery_count
        }),
{
    let sleeping = task.phase->Sampling_sleeping;
    let fallback_poll = task.phase->Sampling_fallback_poll;
    let reads = task.phase->Sampling_reads;
    let after_phase = Phase::Reading { sleeping, fallback_poll, reads };
    assert(task.next(Event::Motion { motion, now }) == task.sampled(
        motion,
        sleeping,
        now,
        after_phase,
    )) by {
        reveal(Trackball::next);
    }
    reveal(Trackball::next_report);
    reveal(Trackball::sent);
}

/// A pass ends with a report exactly where motion is due: on an awake task
/// either axis holds motion and one report interval has passed; on a sleeping
/// one an axis holds at least two counts, and the interval or the confirmation
/// window is over.
pub proof fn law_due_motion_is_flushed(task: Trackball, now: Instant, interval: int)
    requires
        task.phase is Flush,
        interval == (if task.is_central {
            4_000int
        } else if task.features.production_v22 || task.features.pmw_axes_600_diag {
            15_000int
        } else {
            8_000int
        }),
    ensures
        !task.phase->Flush_sleeping ==> (task.next(Event::Clock { now }).1.report is Some <==> (
        task.acc_x != 0 || task.acc_y != 0) && now.ticks - task.last_report.ticks >= interval),
        task.phase->Flush_sleeping ==> (task.next(Event::Clock { now }).1.report is Some <==> (
        task.acc_x >= 2 || task.acc_x <= -2 || task.acc_y >= 2 || task.acc_y <= -2) && (now.ticks
            - task.last_report.ticks >= interval || (task.sleep_motion_deadline matches Some(
            deadline,
        ) && now.ticks >= deadline.ticks))),
{
    reveal(Trackball::next);
    reveal(Trackball::next_report);
}

/// The report at the end of a pass carries the accumulated motion as far as it
/// fits, and what does not fit stays accumulated.
pub proof fn law_flushed_report_carries_its_motion(task: Trackball, now: Instant)
    requires
        task.phase is Flush,
        -32768 <= task.acc_x <= 32767,
        -32768 <= task.acc_y <= 32767,
    ensures
        ({
            let (rest, outcome) = task.next(Event::Clock { now });
            let wide = !task.is_central && (task.features.production_v22
                || task.features.pmw_axes_600_diag);
            &&& rest.phase == Phase::Top
            &&& outcome.dropped_x == 0 && outcome.dropped_y == 0
            &&& outcome.report matches Some(report) ==> {
                &&& report.device_id == task.device_id
                &&& rest.last_report == now
                &&& report.x + rest.acc_x == task.acc_x && report.y + rest.acc_y == task.acc_y
                &&& wide || -128 <= task.acc_x <= 127 ==> report.x == task.acc_x
                &&& wide || -128 <= task.acc_y <= 127 ==> report.y == task.acc_y
                &&& !wide && task.acc_x > 127 ==> report.x == 127
                &&& !wide && task.acc_x < -128 ==> report.x == -128
                &&& !wide && task.acc_y > 127 ==> report.y == 127
                &&& !wide && task.acc_y < -128 ==> report.y == -128
                &&& rest.sleep_motion_deadline == (if rest.acc_x == 0 && rest.acc_y == 0 {
                    None
                } else {
                    task.sleep_motion_deadline
                })
            }
        }),
{
    reveal(Trackball::next);
    reveal(Trackball::next_report);
    reveal(Trackball::sent);
}

/// The end of a pass without a report forgets motion only where the keyboard
/// sleeps and the confirmation window is over. Otherwise everything is kept.
pub proof fn law_unflushed_motion_stays(task: Trackball, now: Instant)
    requires
        task.phase is Flush,
        task.next(Event::Clock { now }).1.report is None,
    ensures
        ({
            let rest = task.next(Event::Clock { now }).0;
            let expired = task.phase->Flush_sleeping && (task.sleep_motion_deadline matches Some(
                deadline,
            ) && now.ticks >= deadline.ticks);
            &&& rest.last_report == task.last_report
            &&& expired ==> rest.acc_x == 0 && rest.acc_y == 0 && rest.sleep_motion_deadline is None
            &&& !expired ==> rest.acc_x == task.acc_x && rest.acc_y == task.acc_y
                && rest.sleep_motion_deadline == task.sleep_motion_deadline
        }),
{
    reveal(Trackball::next);
    reveal(Trackball::next_report);
}

/// The end of a pass touches nothing but motion, its report and its window.
pub proof fn law_flush_keeps_the_sensor_state(task: Trackball, now: Instant)
    requires
        task.phase is Flush,
    ensures
        ({
            let rest = task.next(Event::Clock { now }).0;
            &&& rest.ready == task.ready && rest.next_probe == task.next_probe
            &&& rest.last_motion_activity == task.last_motion_activity
            &&& rest.next_health_check == task.next_health_check
            &&& rest.unavailable_since == task.unavailable_since
            &&& rest.current_cpi == task.current_cpi
            &&& rest.last_vbus_detect == task.last_vbus_detect
            &&& rest.recovery_pending == task.recovery_pending
            &&& rest.recovery_count == task.recovery_count
            &&& rest.due() == Action::ReadSettings
        }),
{
    reveal(Trackball::next);
    reveal(Trackball::sent);
}

/// Nothing but a sample or the end of a pass brings a report, and only a sample
/// drops motion.
pub proof fn law_reports_come_from_samples_and_flushes(task: Trackball, event: Event)
    ensures
        task.next(event).1.report is Some ==> (task.phase is Sampling && event is Motion) || (
        task.phase is Flush && event is Clock),
        task.next(event).1.dropped_x != 0 || task.next(event).1.dropped_y != 0 ==> task.phase
            is Sampling && event is Motion,
{
    reveal(Trackball::next);
}

/// No step changes which half, device or build a task serves.
pub proof fn law_identity_is_kept(task: Trackball, event: Event)
    ensures
        task.next(event).0.features == task.features,
        task.next(event).0.device_id == task.device_id,
        task.next(event).0.is_central == task.is_central,
{
    reveal(Trackball::next);
    reveal(Trackball::sent);
}

// The wait for motion

/// The wait of an awake task ends in time for everything that is due: the next
/// health check, the report of accumulated motion, and a fallback poll every
/// 8 ms until 750 ms after the last motion. It ends for nothing else.
pub proof fn law_awake_wait_ends_in_time(task: Trackball, now: Instant, interval: int)
    requires
        task.phase == (Phase::Deadline { sleeping: false }),
        task.last_report.ticks <= now.ticks,
        task.last_motion_activity matches Some(moved) ==> moved.ticks <= now.ticks,
        now.ticks + 1_000_000 <= u64::MAX,
        interval == (if task.is_central {
            4_000int
        } else if task.features.production_v22 || task.features.pmw_axes_600_diag {
            15_000int
        } else {
            8_000int
        }),
    ensures
        task.next(Event::Clock { now }).0.due() matches Action::WaitMotion { deadline: Some(at) }
            && {
            let report_at = task.last_report.ticks + interval;
            let pending = task.acc_x != 0 || task.acc_y != 0;
            let polling = task.last_motion_activity matches Some(moved) && now.ticks < moved.ticks
                + 750_000;
            let polled_until = task.last_motion_activity->0.ticks + 750_000;
            &&& at.ticks <= task.next_health_check.ticks
            &&& pending ==> at.ticks <= report_at
            &&& polling ==> at.ticks <= now.ticks + 8_000 && at.ticks <= polled_until
            &&& {
                ||| at.ticks == task.next_health_check.ticks
                ||| pending && at.ticks == report_at
                ||| polling && (at.ticks == now.ticks + 8_000 || at.ticks == polled_until)
            }
        },
{
    reveal(Trackball::next);
}

/// The wait of a sleeping task ends for motion that is worth a report and for
/// the end of a confirmation window, whichever comes first, and otherwise not
/// before MOTION or a change.
pub proof fn law_sleeping_wait_ends_for_motion_only(task: Trackball, now: Instant, interval: int)
    requires
        task.phase == (Phase::Deadline { sleeping: true }),
        task.last_report.ticks <= now.ticks,
        now.ticks + 1_000_000 <= u64::MAX,
        interval == (if task.is_central {
            4_000int
        } else if task.features.production_v22 || task.features.pmw_axes_600_diag {
            15_000int
        } else {
            8_000int
        }),
    ensures
        task.next(Event::Clock { now }).0.due() matches Action::WaitMotion { deadline } && {
            let report_at = task.last_report.ticks + interval;
            let worth = task.acc_x >= 2 || task.acc_x <= -2 || task.acc_y >= 2 || task.acc_y <= -2;
            &&& deadline is None <==> !worth && task.sleep_motion_deadline is None
            &&& deadline matches Some(at) ==> {
                &&& worth ==> at.ticks <= report_at
                &&& task.sleep_motion_deadline matches Some(noise) ==> at.ticks <= noise.ticks
                &&& (worth && at.ticks == report_at) || Some(at) == task.sleep_motion_deadline
            }
        },
{
    reveal(Trackball::next);
}

/// An awake task that motion or a deadline woke looks at the USB power first; a
/// sleeping one goes on to decide on a poll. Neither changes anything else.
pub proof fn law_wake_is_verified_first(task: Trackball, event: Event)
    requires
        task.phase is MotionWait,
        event == Event::MotionWoke || event == Event::DeadlineReached,
    ensures
        ({
            let rest = task.next(event).0;
            &&& rest == (Trackball { phase: rest.phase, ..task })
            &&& !task.phase->MotionWait_sleeping ==> rest.phase == (Phase::Verify {
                fallback: task.phase->MotionWait_fallback,
                woke: event == Event::MotionWoke,
            }) && rest.due() == Action::ReadVbus
            &&& task.phase->MotionWait_sleeping ==> rest.phase == (Phase::PollDecision {
                sleeping: true,
                fallback: task.phase->MotionWait_fallback,
                woke: event == Event::MotionWoke,
            }) && rest.due() == Action::ReadClock
        }),
{
    let fallback = task.phase->MotionWait_fallback;
    let woke = event == Event::MotionWoke;
    if task.phase->MotionWait_sleeping {
        assert(task.next(event).0 == task.at(
            Phase::PollDecision { sleeping: true, fallback, woke },
        )) by {
            reveal(Trackball::next);
        }
    } else {
        assert(task.next(event).0 == task.at(Phase::Verify { fallback, woke })) by {
            reveal(Trackball::next);
        }
    }
}

/// The fallback deadline that a wait remembers is that of the next poll of an
/// awake gesture.
pub proof fn law_wait_remembers_its_poll(task: Trackball, now: Instant)
    requires
        task.phase is Deadline,
        task.last_motion_activity matches Some(moved) ==> moved.ticks <= now.ticks,
        now.ticks + 1_000_000 <= u64::MAX,
    ensures
        ({
            let rest = task.next(Event::Clock { now }).0;
            let polling = !task.phase->Deadline_sleeping && (
            task.last_motion_activity matches Some(moved) && now.ticks < moved.ticks + 750_000);
            let until = task.last_motion_activity->0.ticks + 750_000;
            &&& rest == (Trackball { phase: rest.phase, ..task })
            &&& rest.phase is MotionWait
            &&& rest.phase->MotionWait_sleeping == task.phase->Deadline_sleeping
            &&& rest.phase->MotionWait_fallback is Some <==> polling
            &&& polling ==> rest.phase->MotionWait_fallback->0.ticks == (if now.ticks + 8_000
                < until {
                now.ticks + 8_000
            } else {
                until
            })
        }),
{
    let sleeping = task.phase->Deadline_sleeping;
    assert(task.next(Event::Clock { now }).0 == task.at(
        Phase::MotionWait {
            sleeping,
            deadline: task.motion_deadline(sleeping, now),
            fallback: task.fallback_deadline(sleeping, now),
        },
    )) by {
        reveal(Trackball::next);
    }
}

/// The sensor is read exactly where MOTION woke the task, or where a fallback
/// poll is due. Otherwise the pass ends.
pub proof fn law_reads_need_motion_or_a_poll(task: Trackball, now: Instant)
    requires
        task.phase is PollDecision,
    ensures
        ({
            let rest = task.next(Event::Clock { now }).0;
            let poll_due = task.phase->PollDecision_fallback matches Some(at) && now.ticks
                >= at.ticks;
            &&& rest == (Trackball { phase: rest.phase, ..task })
            &&& task.phase->PollDecision_woke ==> rest.phase == (Phase::Reading {
                sleeping: task.phase->PollDecision_sleeping,
                fallback_poll: false,
                reads: 0,
            })
            &&& !task.phase->PollDecision_woke && poll_due ==> rest.phase == (Phase::Reading {
                sleeping: task.phase->PollDecision_sleeping,
                fallback_poll: true,
                reads: 0,
            })
            &&& !task.phase->PollDecision_woke && !poll_due ==> rest.phase == (Phase::Flush {
                sleeping: task.phase->PollDecision_sleeping,
            }) && rest.due() == Action::ReadClock
            &&& task.phase->PollDecision_woke || poll_due ==> rest.due()
                == Action::ReadMotionPending
        }),
{
    let sleeping = task.phase->PollDecision_sleeping;
    let poll_due = task.phase->PollDecision_fallback matches Some(at) && now.ticks >= at.ticks;
    let fallback_poll = !task.phase->PollDecision_woke && poll_due;
    assert(task.next(Event::Clock { now }).0 == task.at(
        if task.phase->PollDecision_woke || fallback_poll {
            Phase::Reading { sleeping, fallback_poll, reads: 0 }
        } else {
            Phase::Flush { sleeping }
        },
    )) by {
        reveal(Trackball::next);
    }
}

/// Reads go on while MOTION is asserted, up to sixteen; a fallback poll reads
/// once even without it. A line that is still asserted after sixteen reads
/// gives way for 50 microseconds, and then the pass ends.
pub proof fn law_reads_follow_the_line(task: Trackball, pending: bool)
    requires
        task.phase is Reading,
        task.phase->Reading_reads <= 16,
    ensures
        ({
            let rest = task.next(Event::MotionPending { pending }).0;
            let reads = task.phase->Reading_reads;
            let wanted = pending || (task.phase->Reading_fallback_poll && reads == 0);
            let ended = if task.ready {
                Phase::Flush { sleeping: task.phase->Reading_sleeping }
            } else {
                Phase::Top
            };
            &&& rest == (Trackball { phase: rest.phase, ..task })
            &&& reads < 16 && wanted ==> rest.phase == (Phase::Sampling {
                sleeping: task.phase->Reading_sleeping,
                fallback_poll: task.phase->Reading_fallback_poll,
                reads: (reads + 1) as usize,
            }) && rest.due() == Action::ReadMotion
            &&& reads < 16 && !wanted ==> rest.phase == ended
            &&& reads == 16 && pending ==> rest.due() == Action::PauseMicros(50) && rest.next(
                Event::Paused,
            ).0 == (Trackball { phase: ended, ..task })
            &&& reads == 16 && !pending ==> rest.phase == ended
        }),
{
    let sleeping = task.phase->Reading_sleeping;
    let fallback_poll = task.phase->Reading_fallback_poll;
    let reads = task.phase->Reading_reads;
    let rest = task.next(Event::MotionPending { pending }).0;
    assert(rest == task.at(
        if reads < 16 && (pending || (fallback_poll && reads == 0)) {
            Phase::Sampling { sleeping, fallback_poll, reads: (reads + 1) as usize }
        } else if reads == 16 && pending {
            Phase::Yielding { sleeping }
        } else {
            task.after_reads(sleeping)
        },
    )) by {
        reveal(Trackball::next);
    }
    if reads == 16 && pending {
        assert(rest.next(Event::Paused).0 == rest.at(rest.after_reads(sleeping))) by {
            reveal(Trackball::next);
        }
    }
}

// The sensor's configuration

/// Before a burst is read, the configuration is validated exactly where the USB
/// power state changed or a health check is due. The next check is due a second
/// later on full-axes builds and a minute later on others.
pub proof fn law_configuration_is_validated_when_due(
    task: Trackball,
    detected: bool,
    now: Instant,
)
    requires
        task.phase is Verify,
        now.ticks + 60_000_000 <= u64::MAX,
    ensures
        ({
            let rest = task.next(Event::Vbus { detected, now }).0;
            let due = task.last_vbus_detect == Some(!detected) || now.ticks
                >= task.next_health_check.ticks;
            &&& due ==> rest.due() == (Action::CheckHealth { cpi: task.current_cpi })
                && rest.phase == (Phase::RunHealth {
                now,
                fallback: task.phase->Verify_fallback,
                woke: task.phase->Verify_woke,
            }) && rest.last_vbus_detect == Some(detected) && rest.next_health_check.ticks
                == now.ticks + (if task.features.pmw_axes_600 {
                1_000_000int
            } else {
                60_000_000int
            })
            &&& !due ==> rest.phase == (Phase::PollDecision {
                sleeping: false,
                fallback: task.phase->Verify_fallback,
                woke: task.phase->Verify_woke,
            }) && rest.last_vbus_detect == task.last_vbus_detect && rest.next_health_check
                == task.next_health_check
            &&& rest == (Trackball {
                phase: rest.phase,
                last_vbus_detect: rest.last_vbus_detect,
                next_health_check: rest.next_health_check,
                ..task
            })
        }),
{
    reveal(Trackball::next);
}

/// A validated sensor is read on without a change. One that is not valid is
/// given up at once: its motion is forgotten, it is probed without delay, and
/// the recovery is counted unless one is under way.
pub proof fn law_validation_decides_on_the_sensor(
    task: Trackball,
    health: Option<Pmw3610Health>,
    vbus: bool,
)
    requires
        task.phase is RunHealth,
        task.phase->RunHealth_now.ticks + 60_000_000 <= u64::MAX,
    ensures
        ({
            let rest = task.next(Event::HealthDone { health, vbus }).0;
            let valid = health matches Some(registers) && registers.healthy();
            &&& valid ==> rest == (Trackball {
                phase: Phase::PollDecision {
                    sleeping: false,
                    fallback: task.phase->RunHealth_fallback,
                    woke: task.phase->RunHealth_woke,
                },
                ..task
            })
            &&& !valid ==> {
                &&& rest.phase == Phase::Top && !rest.ready
                &&& rest.acc_x == 0 && rest.acc_y == 0
                &&& rest.last_motion_activity is None && rest.sleep_motion_deadline is None
                &&& rest.next_probe == task.phase->RunHealth_now
                &&& rest.next_health_check.ticks == 0
                &&& rest.recovery_pending
                &&& rest.recovery_count == (if task.recovery_pending || task.recovery_count
                    == 0xffff_ffff {
                    task.recovery_count as int
                } else {
                    task.recovery_count + 1
                })
                &&& rest.unavailable_since == (if task.unavailable_since is Some {
                    task.unavailable_since
                } else {
                    Some(task.phase->RunHealth_now)
                })
                &&& rest.current_cpi == task.current_cpi
                &&& rest.last_report == task.last_report
                &&& rest.last_vbus_detect == task.last_vbus_detect
            }
        }),
{
    reveal(Trackball::next);
}

/// A failed read gives the sensor up as a failed validation does. After the
/// sixteenth read of a wake the line is looked at once more; otherwise a new
/// pass begins.
pub proof fn law_failed_read_gives_the_sensor_up(task: Trackball, now: Instant)
    requires
        task.phase is Sampling,
        now.ticks + 60_000_000 <= u64::MAX,
    ensures
        ({
            let rest = task.next(Event::MotionFailed { now }).0;
            &&& !rest.ready && rest.acc_x == 0 && rest.acc_y == 0
            &&& rest.last_motion_activity is None && rest.sleep_motion_deadline is None
            &&& rest.next_probe == now && rest.next_health_check.ticks == 0
            &&& rest.recovery_pending
            &&& rest.recovery_count == (if task.recovery_pending || task.recovery_count
                == 0xffff_ffff {
                task.recovery_count as int
            } else {
                task.recovery_count + 1
            })
            &&& rest.unavailable_since == (if task.unavailable_since is Some {
                task.unavailable_since
            } else {
                Some(now)
            })
            &&& rest.current_cpi == task.current_cpi
            &&& rest.last_report == task.last_report
            &&& rest.last_vbus_detect == task.last_vbus_detect
            &&& task.phase->Sampling_reads != 16 ==> rest.phase == Phase::Top
            &&& task.phase->Sampling_reads == 16 ==> rest.phase == (Phase::Reading {
                sleeping: task.phase->Sampling_sleeping,
                fallback_poll: task.phase->Sampling_fallback_poll,
                reads: 16,
            })
        }),
{
    reveal(Trackball::next);
}

// Passes, probing and set-up

/// A new pass of an unselected module starts over and waits for the selection.
/// A ready sensor is served; one that is not ready is left alone while the
/// keyboard sleeps, and is probed once its probe is due.
pub proof fn law_pass_follows_the_settings(
    task: Trackball,
    trackball_selected: bool,
    sleeping: bool,
    now: Instant,
)
    requires
        task.phase == Phase::Top,
    ensures
        ({
            let rest = task.next(Event::Settings { trackball_selected, sleeping, now }).0;
            &&& !trackball_selected ==> rest.due() == Action::WaitSelectionChange && !rest.ready
            &&& trackball_selected ==> rest == (Trackball { phase: rest.phase, ..task })
            &&& trackball_selected && task.ready ==> rest.due() == Action::ReadArmingState
            &&& trackball_selected && !task.ready && sleeping ==> rest.due()
                == Action::WaitSelectionOrSleepChange
            &&& trackball_selected && !task.ready && !sleeping && now.ticks < task.next_probe.ticks
                ==> rest.due() == (Action::WaitUntil { at: task.next_probe })
            &&& trackball_selected && !task.ready && !sleeping && now.ticks
                >= task.next_probe.ticks ==> rest.due() == Action::ReadSleeping
        }),
{
    let event = Event::Settings { trackball_selected, sleeping, now };
    assert(task.next(event).0 == (if !trackball_selected {
        task.deactivated().at(Phase::Deselected)
    } else if task.ready {
        task.at(Phase::Arming)
    } else if sleeping {
        task.at(Phase::AsleepUnready)
    } else if now.ticks < task.next_probe.ticks {
        task.at(Phase::ProbeWait)
    } else {
        task.at(Phase::PreInit)
    })) by {
        reveal(Trackball::next);
    }
}

/// A change of the selection during a wait, and a pass without the selection,
/// forget the sensor: it counts as never seen, its motion is gone, and it is
/// probed at once when it is selected again.
pub proof fn law_deselection_forgets_the_sensor(task: Trackball, event: Event)
    requires
        (task.phase == Phase::Top && (event matches Event::Settings { trackball_selected, .. }
            && !trackball_selected)) || (event == Event::SelectionChanged && (task.phase
            is AsleepUnready || task.phase is ProbeWait || task.phase is MotionWait)),
    ensures
        ({
            let rest = task.next(event).0;
            &&& !rest.ready && rest.acc_x == 0 && rest.acc_y == 0
            &&& rest.last_report.ticks == 0
            &&& rest.last_motion_activity is None && rest.sleep_motion_deadline is None
            &&& rest.next_probe.ticks == 0 && rest.next_health_check.ticks == 0
            &&& rest.unavailable_since is None && rest.last_vbus_detect is None
            &&& !rest.recovery_pending && rest.recovery_count == task.recovery_count
            &&& rest.current_cpi == task.current_cpi
            &&& event == Event::SelectionChanged ==> rest.due() == Action::ReadSettings
        }),
{
    reveal(Trackball::next);
}

/// An unselected task begins a new pass with the next change of the selection,
/// and is otherwise as it was.
pub proof fn law_selection_begins_a_pass(task: Trackball)
    requires
        task.phase == Phase::Deselected,
    ensures
        task.next(Event::SelectionChanged).0 == (Trackball { phase: Phase::Top, ..task }),
{
    reveal(Trackball::next);
}

/// Falling asleep during a wait drops what is accumulated and starts the report
/// interval over; the next health check is due at once.
pub proof fn law_falling_asleep_parks_the_task(task: Trackball, now: Instant)
    requires
        task.phase is ProbeWait || task.phase is MotionWait,
    ensures
        task.next(Event::SleepChanged { sleeping: true, now }).0 == (Trackball {
            acc_x: 0,
            acc_y: 0,
            last_report: now,
            last_motion_activity: None,
            sleep_motion_deadline: None,
            next_health_check: Instant { ticks: 0 },
            phase: Phase::Top,
            ..task
        }),
{
    reveal(Trackball::next);
}

/// Waking up during a wait keeps motion of at least two counts on an axis and
/// drops anything less as noise. A ready sensor is checked one health interval
/// later.
pub proof fn law_waking_up_keeps_confirmed_motion(task: Trackball, now: Instant)
    requires
        task.phase is AsleepUnready || task.phase is ProbeWait || task.phase is MotionWait,
        now.ticks + 60_000_000 <= u64::MAX,
    ensures
        ({
            let rest = task.next(Event::SleepChanged { sleeping: false, now }).0;
            let worth = task.acc_x >= 2 || task.acc_x <= -2 || task.acc_y >= 2 || task.acc_y <= -2;
            &&& worth ==> rest.acc_x == task.acc_x && rest.acc_y == task.acc_y
            &&& !worth ==> rest.acc_x == 0 && rest.acc_y == 0
            &&& rest.sleep_motion_deadline is None
            &&& task.ready ==> rest.next_health_check.ticks == now.ticks + (
            if task.features.pmw_axes_600 {
                1_000_000int
            } else {
                60_000_000int
            })
            &&& !task.ready ==> rest.next_health_check == task.next_health_check
            &&& rest == (Trackball {
                acc_x: rest.acc_x,
                acc_y: rest.acc_y,
                sleep_motion_deadline: None,
                next_health_check: rest.next_health_check,
                phase: Phase::Top,
                ..task
            })
        }),
{
    reveal(Trackball::next);
}

/// A change that reaches a sensor that is neither ready nor probed counts as
/// waking up, whatever it says.
pub proof fn law_unready_sleeper_wakes_on_any_change(
    task: Trackball,
    sleeping: bool,
    now: Instant,
)
    requires
        task.phase == Phase::AsleepUnready,
    ensures
        task.next(Event::SleepChanged { sleeping, now }).0 == task.next(
            Event::SleepChanged { sleeping: false, now },
        ).0,
{
    reveal(Trackball::next);
}

/// A probe whose time has come starts unless the keyboard fell asleep meanwhile,
/// which parks the task instead.
pub proof fn law_probe_starts_unless_asleep(task: Trackball, sleeping: bool, now: Instant)
    requires
        task.phase == Phase::ProbeWait,
    ensures
        ({
            let due = task.next(Event::DeadlineReached).0;
            let rest = due.next(Event::Sleeping { sleeping, now }).0;
            &&& due == (Trackball { phase: due.phase, ..task })
            &&& due.due() == Action::ReadSleeping
            &&& !sleeping ==> rest == (Trackball { phase: Phase::Initializing, ..task })
                && rest.due() == Action::InitSensor
            &&& sleeping ==> rest == (Trackball {
                acc_x: 0,
                acc_y: 0,
                last_report: now,
                last_motion_activity: None,
                sleep_motion_deadline: None,
                next_health_check: Instant { ticks: 0 },
                phase: Phase::Top,
                ..task
            })
        }),
{
    reveal(Trackball::next);
}

/// A sensor that was initialized gets the resolution that the build and the
/// user ask for, and then has its configuration checked for the same
/// resolution. Only a sensor found valid becomes ready, with nothing
/// accumulated and its health check, report interval and USB power state
/// counted from then on.
pub proof fn law_set_up_ends_in_a_verified_sensor(
    task: Trackball,
    cpi_setting: u16,
    now: Instant,
    health: Pmw3610Health,
    vbus: bool,
)
    requires
        task.phase == Phase::Initializing,
        now.ticks + 60_000_000 <= u64::MAX,
        health.healthy(),
    ensures
        ({
            let initialized = task.next(Event::InitDone { ok: true, cpi_setting, now }).0;
            let resolved = initialized.next(Event::ResolutionDone { ok: true }).0;
            let ready = resolved.next(Event::HealthDone { health: Some(health), vbus }).0;
            let cpi = if task.features.pmw_raw_600_diag || (task.features.pmw_axes_600
                && !task.features.production_v22) {
                600u16
            } else if task.features.pmw_raw_1000_diag {
                1000u16
            } else {
                cpi_setting
            };
            &&& initialized.due() == (Action::SetResolution { cpi })
            &&& resolved.due() == (Action::CheckHealth { cpi })
            &&& initialized.ready == task.ready && resolved.ready == task.ready
            &&& ready.due() == Action::ReadArmingState
            &&& ready.ready && ready.acc_x == 0 && ready.acc_y == 0
            &&& ready.current_cpi == cpi
            &&& ready.last_report == now && ready.last_motion_activity is None
            &&& ready.next_health_check.ticks == now.ticks + (if task.features.pmw_axes_600 {
                1_000_000int
            } else {
                60_000_000int
            })
            &&& ready.unavailable_since is None && ready.last_vbus_detect == Some(vbus)
            &&& !ready.recovery_pending && ready.recovery_count == task.recovery_count
            &&& ready.sleep_motion_deadline == task.sleep_motion_deadline
            &&& ready.next_probe == task.next_probe
        }),
{
    reveal(Trackball::next);
}

/// A sensor that cannot be initialized is probed again: 250 ms later during the
/// first ten seconds without it, and two seconds later from then on. It counts
/// as missing since the first failure, and no recovery is counted.
pub proof fn law_failed_probe_is_repeated(task: Trackball, cpi_setting: u16, now: Instant)
    requires
        task.phase == Phase::Initializing,
        now.ticks + 60_000_000 <= u64::MAX,
        task.unavailable_since matches Some(since) ==> since.ticks <= now.ticks,
    ensures
        ({
            let rest = task.next(Event::InitDone { ok: false, cpi_setting, now }).0;
            let missing = task.unavailable_since matches Some(since) && now.ticks - since.ticks
                >= 10_000_000;
            &&& rest.phase == Phase::Top && !rest.ready
            &&& rest.acc_x == 0 && rest.acc_y == 0
            &&& rest.next_probe.ticks - now.ticks == (if missing {
                2_000_000int
            } else {
                250_000int
            })
            &&& rest.unavailable_since == (if task.unavailable_since is Some {
                task.unavailable_since
            } else {
                Some(now)
            })
            &&& rest.next_health_check.ticks == 0
            &&& rest.last_motion_activity is None && rest.sleep_motion_deadline is None
            &&& rest.recovery_pending == task.recovery_pending
            &&& rest.recovery_count == task.recovery_count
            &&& rest.current_cpi == task.current_cpi && rest.last_report == task.last_report
            &&& rest.last_vbus_detect == task.last_vbus_detect
        }),
{
    reveal(Trackball::next);
}

/// A sensor that answers but takes no resolution, or is not found valid, is
/// probed again no sooner than one that does not answer, and its recovery is
/// counted unless one is under way.
pub proof fn law_failed_set_up_is_repeated(task: Trackball, event: Event, now: Instant)
    requires
        (task.phase == (Phase::InitResolution { now }) && event == (Event::ResolutionDone {
            ok: false,
        })) || (task.phase == (Phase::InitHealth { now }) && (
        event matches Event::HealthDone { health, .. } && !(health matches Some(registers)
            && registers.healthy()))),
        now.ticks + 60_000_000 <= u64::MAX,
        task.unavailable_since matches Some(since) ==> since.ticks <= now.ticks,
    ensures
        ({
            let rest = task.next(event).0;
            let missing = task.unavailable_since matches Some(since) && now.ticks - since.ticks
                >= 10_000_000;
            &&& rest.phase == Phase::Top && !rest.ready
            &&& rest.acc_x == 0 && rest.acc_y == 0
            &&& rest.next_probe.ticks - now.ticks == (if missing {
                2_000_000int
            } else {
                250_000int
            })
            &&& rest.unavailable_since == (if task.unavailable_since is Some {
                task.unavailable_since
            } else {
                Some(now)
            })
            &&& rest.next_health_check.ticks == 0
            &&& rest.last_motion_activity is None && rest.sleep_motion_deadline is None
            &&& rest.recovery_pending
            &&& rest.recovery_count == (if task.recovery_pending || task.recovery_count
                == 0xffff_ffff {
                task.recovery_count as int
            } else {
                task.recovery_count + 1
            })
            &&& rest.current_cpi == task.current_cpi && rest.last_report == task.last_report
            &&& rest.last_vbus_detect == task.last_vbus_detect
        }),
{
    reveal(Trackball::next);
}

/// An awake task follows the resolution setting before it waits for motion; a
/// sleeping one leaves the sensor alone. Only a resolution that the sensor took
/// counts as its own.
pub proof fn law_resolution_setting_is_followed(
    task: Trackball,
    sleeping: bool,
    cpi_setting: u16,
    ok: bool,
)
    requires
        task.phase == Phase::Arming,
    ensures
        ({
            let rest = task.next(Event::ArmingState { sleeping, cpi_setting }).0;
            let applied = rest.next(Event::ResolutionDone { ok }).0;
            let cpi = if task.features.pmw_raw_600_diag || (task.features.pmw_axes_600
                && !task.features.production_v22) {
                600u16
            } else if task.features.pmw_raw_1000_diag {
                1000u16
            } else {
                cpi_setting
            };
            &&& rest == (Trackball { phase: rest.phase, ..task })
            &&& !sleeping && cpi != task.current_cpi ==> {
                &&& rest.due() == (Action::SetResolution { cpi })
                &&& applied == (Trackball {
                    current_cpi: if ok {
                        cpi
                    } else {
                        task.current_cpi
                    },
                    phase: Phase::Deadline { sleeping: false },
                    ..task
                })
            }
            &&& sleeping || cpi == task.current_cpi ==> rest.phase == (Phase::Deadline {
                sleeping,
            }) && rest.due() == Action::ReadClock
        }),
{
    let cpi = crate::trackball::ball_cpi(task.features, cpi_setting);
    let rest = task.next(Event::ArmingState { sleeping, cpi_setting }).0;
    let applying = !sleeping && cpi != task.current_cpi;
    assert(rest == task.at(
        if applying {
            Phase::ApplyCpi { cpi }
        } else {
            Phase::Deadline { sleeping }
        },
    )) by {
        reveal(Trackball::next);
    }
    if applying {
        assert(rest.next(Event::ResolutionDone { ok }).0 == (Trackball {
            current_cpi: if ok {
                cpi
            } else {
                task.current_cpi
            },
            phase: Phase::Deadline { sleeping: false },
            ..task
        })) by {
            reveal(Trackball::next);
        }
    }
}

/// A task begins its first pass with nothing accumulated, its sensor unseen and
/// due for a probe, and the resolution of its build: 600 on raw and full-axes
/// builds, and 1000 on others.
pub proof fn law_first_pass_probes_the_sensor(
    features: BuildFeatures,
    device_id: u8,
    is_central: bool,
    now: Instant,
)
    ensures
        ({
            let task = Trackball::fresh(features, device_id, is_central);
            &&& task.features == features && task.device_id == device_id && task.is_central
                == is_central
            &&& !task.ready && task.acc_x == 0 && task.acc_y == 0
            &&& task.last_report.ticks == 0 && task.last_motion_activity is None
            &&& task.sleep_motion_deadline is None && task.next_health_check.ticks == 0
            &&& task.unavailable_since is None && task.last_vbus_detect is None
            &&& !task.recovery_pending && task.recovery_count == 0
            &&& task.current_cpi == (if features.pmw_raw_600_diag || features.pmw_axes_600 {
                600
            } else {
                1000int
            })
            &&& task.due() == Action::ReadSettings
            &&& task.next(
                Event::Settings { trackball_selected: true, sleeping: false, now },
            ).0.due() == Action::ReadSleeping
        }),
{
    reveal(Trackball::next);
}

/// Accumulating on one axis keeps the sum within the i16 range.
pub proof fn law_accumulators_stay_in_range(task: Trackball, event: Event)
    requires
        -32768 <= task.acc_x <= 32767,
        -32768 <= task.acc_y <= 32767,
    ensures
        -32768 <= task.next(event).0.acc_x <= 32767,
        -32768 <= task.next(event).0.acc_y <= 32767,
{
    match (task.phase, event) {
        (
            Phase::Sampling { sleeping, fallback_poll, reads },
            Event::Motion { motion, now },
        ) => {
            let after_phase = Phase::Reading { sleeping, fallback_poll, reads };
            assert(task.next(event) == task.sampled(motion, sleeping, now, after_phase)) by {
                reveal(Trackball::next);
            }
            reveal(Trackball::sent);
        },
        (Phase::Flush { sleeping }, Event::Clock { now }) => {
            assert(task.next(event) == task.flushed(sleeping, now)) by {
                reveal(Trackball::next);
            }
            reveal(Trackball::sent);
        },
        _ => {
            reveal(Trackball::next);
        },
    }
}

} // verus!
