//! What the diagnostic counters count.

use vstd::prelude::*;

use crate::hid::{MouseReport, Report};
use crate::pointing::{Axis, AxisEvent, AxisValType, PointingEvent};
use crate::rtt_diag::{
    axis_totals, counter_ms, counter_us, record_motion_wake, record_pmw_accum_drop,
    record_pmw_axis_transform, record_pmw_error, record_pmw_error_at, record_pmw_fallback,
    record_pmw_optics, record_pmw_publish, record_pmw_publish_at, record_pmw_raw_at,
    record_pmw_read, record_pmw_read_at, record_pmw_smart_transition, record_scheduler_tick,
    record_scheduler_tick_at, record_split_tx_at, AxisCounters, Gap, OpticsCounters, RawAxis,
    RawCounters, RawSample, RightDiag, RightReport, SignCounts, WaitStreak,
};
use crate::rtt_diag_left::{
    record_hid_enqueue_at, record_hid_write_at, record_mouse_coalesce, record_mouse_slot_wait,
    record_split_rx, record_split_rx_at, AgeCounters, CoalesceCounters, LeftDiag, LeftReport, WriteCounters,
};
use crate::time::Instant;

verus! {

// Motion totals

/// Only relative events of an axis move it, one after the other, and the sum
/// never leaves the i16 range.
pub proof fn law_axis_total_adds_relative_events(
    axes: Seq<AxisEvent>,
    event: AxisEvent,
    axis: Axis,
)
    ensures
        ({
            let before = crate::rtt_diag::axis_total(axes, axis);
            let after = crate::rtt_diag::axis_total(axes.push(event), axis);
            let counts = event.typ == AxisValType::Rel && event.axis == axis;
            let sum = before + event.value;
            &&& !counts ==> after == before
            &&& counts && -32768 <= sum <= 32767 ==> after == sum
            &&& counts && sum > 32767 ==> after == 32767
            &&& counts && sum < -32768 ==> after == -32768
        }),
        crate::rtt_diag::axis_total(Seq::empty(), axis) == 0,
{
    assert(axes.push(event).drop_last() =~= axes);
}

/// The totals of an event are those of its first two axes.
pub proof fn law_totals_are_those_of_two_axes()
    ensures
        forall|event: &PointingEvent, totals: (i16, i16)| #[trigger]
            call_ensures(axis_totals, (event,), totals) ==> totals.0
                == crate::rtt_diag::axis_total((*event).axes@, Axis::X) && totals.1
                == crate::rtt_diag::axis_total((*event).axes@, Axis::Y),
{
}

/// Clock readings become counts that start over after the largest one.
pub proof fn law_clock_counts_start_over()
    ensures
        forall|at: Instant, ms: u32| #[trigger]
            call_ensures(counter_ms, (at,), ms) ==> (at.ticks / 1_000 - ms) % 0x1_0000_0000 == 0,
        forall|at: Instant, us: u32| #[trigger]
            call_ensures(counter_us, (at,), us) ==> (at.ticks - us) % 0x1_0000_0000 == 0,
{
}

// Gaps, waits and the log slot

/// A gap counts between two occurrences that are at most two seconds apart, and
/// the longest one is kept. The first occurrence has no gap.
pub proof fn law_longest_gap_is_kept(gap: Gap, now: u32)
    ensures
        ({
            let rest = gap.recorded(now);
            let length = now - gap.last;
            &&& rest.last == now
            &&& rest.max >= gap.max
            &&& gap.last == 0 || length > 2_000 ==> rest.max == gap.max
            &&& gap.last != 0 && 0 <= length <= 2_000 ==> rest.max >= length && (rest.max == length
                || rest.max == gap.max)
            &&& length < 0 ==> rest.max == gap.max
        }),
{
}

/// Long waits are counted, and so is the longest series of them; a wait that is
/// not long ends the series.
pub proof fn law_series_of_waits(streak: WaitStreak, long: bool)
    ensures
        ({
            let rest = streak.recorded(long);
            &&& !long ==> rest == (WaitStreak { current: 0, ..streak })
            &&& long ==> rest.over == streak.over.wrapping_add(1) && rest.current
                == streak.current.wrapping_add(1)
            &&& long && streak.current < 0xffff_ffff ==> rest.max >= streak.current + 1 && rest.max
                >= streak.max && (rest.max == streak.current + 1 || rest.max == streak.max)
            &&& long && streak.current == 0xffff_ffff ==> rest.max == 0xffff_ffff
        }),
{
}

/// The first recording opens an interval of one second, and a recording at its
/// end or later takes the slot and opens the next.
pub proof fn law_slot_comes_every_second(next: u32, now: u32)
    ensures
        crate::rtt_diag::slot_taken(next, now) <==> next != 0 && now >= next,
        next == 0 || now >= next ==> crate::rtt_diag::slot_after(next, now) == (if now
            <= 0xffff_ffff - 1_000 {
            now + 1_000
        } else {
            0xffff_ffff
        }),
        next != 0 && now < next ==> crate::rtt_diag::slot_after(next, now) == next,
{
}

/// The average of some values is their sum divided by their number, rounded
/// down, and zero without any.
pub proof fn law_average_rounds_down(sum: u32, samples: u32)
    ensures
        samples == 0 ==> crate::rtt_diag::average(sum, samples) == 0,
        samples > 0 ==> samples * crate::rtt_diag::average(sum, samples) <= sum < samples
            * crate::rtt_diag::average(sum, samples) + samples,
        crate::rtt_diag::seen_min(sum) == (if sum == 0xffff_ffff {
            0
        } else {
            sum
        }),
{
    if samples > 0 {
        let q: int = sum as int / samples as int;
        assert(samples * q <= sum < samples * q + samples) by (nonlinear_arith)
            requires
                samples > 0,
                sum >= 0,
                q == sum as int / samples as int,
        ;
    }
}

// Raw deltas

/// A delta is counted by its sign, with its size added to the sum of that sign;
/// the largest size is kept, and one of 1900 or more is near saturation.
pub proof fn law_delta_is_counted_by_its_sign(axis: RawAxis, value: i16, now: u32)
    ensures
        ({
            let rest = axis.recorded(value, now);
            let size = if value < 0 {
                -(value as int)
            } else {
                value as int
            };
            &&& value == 0 ==> rest == (RawAxis { zero: axis.zero.wrapping_add(1), ..axis })
            &&& value != 0 ==> rest.zero == axis.zero
            &&& value > 0 ==> rest.positive == axis.positive.wrapping_add(1) && rest.positive_sum
                == axis.positive_sum.wrapping_add(value as u32) && rest.negative == axis.negative
                && rest.negative_abs_sum == axis.negative_abs_sum
            &&& value < 0 ==> rest.negative == axis.negative.wrapping_add(1)
                && rest.negative_abs_sum == axis.negative_abs_sum.wrapping_add(size as u32)
                && rest.positive == axis.positive && rest.positive_sum == axis.positive_sum
            &&& value != 0 ==> rest.abs_max >= size && rest.abs_max >= axis.abs_max && (
            rest.abs_max == size || rest.abs_max == axis.abs_max)
            &&& size >= 1_900 ==> rest.near_saturation == axis.near_saturation.wrapping_add(1)
            &&& size < 1_900 ==> rest.near_saturation == axis.near_saturation
        }),
{
}

/// The direction flips where a delta of eight or more turns round the last such
/// delta no more than 750 ms after it. Smaller deltas neither flip nor count as
/// a direction.
pub proof fn law_direction_flips_on_strong_deltas(axis: RawAxis, value: i16, now: u32)
    requires
        -1 <= axis.last_sign <= 1,
    ensures
        ({
            let rest = axis.recorded(value, now);
            let strong = value >= 8 || value <= -8;
            let turned = (axis.last_sign == 1 && value < 0) || (axis.last_sign == -1 && value > 0);
            let flips = strong && turned && now - axis.last_sign_ms <= 750;
            &&& axis.flipped(value, now) <==> flips
            &&& flips ==> rest.flips == axis.flips.wrapping_add(1)
            &&& !flips ==> rest.flips == axis.flips
            &&& strong ==> rest.last_sign_ms == now && rest.last_sign == (if value < 0 {
                -1int
            } else {
                1int
            })
            &&& !strong ==> rest.last_sign_ms == axis.last_sign_ms && rest.last_sign
                == axis.last_sign
        }),
{
}

/// A sample counts on both axes. Its shared high byte is gathered by its set and
/// its clear bits, and the last sample that flipped an axis is kept whole.
pub proof fn law_sample_counts_on_both_axes(raw: RawCounters, sample: RawSample, now: u32)
    ensures
        ({
            let rest = raw.recorded(sample, now);
            let x_flips = raw.x.flipped(sample.dx, now);
            let y_flips = raw.y.flipped(sample.dy, now);
            &&& rest.samples == raw.samples.wrapping_add(1)
            &&& sample.motion >= 128 ==> rest.motion_set == raw.motion_set.wrapping_add(1)
            &&& sample.motion < 128 ==> rest.motion_set == raw.motion_set
            &&& rest.x == raw.x.recorded(sample.dx, now)
            &&& rest.y == raw.y.recorded(sample.dy, now)
            &&& rest.xyh_last == sample.xy_h
            &&& rest.xyh_or == raw.xyh_or | sample.xy_h as u32
            &&& rest.xyh_and == raw.xyh_and & sample.xy_h as u32
            &&& !x_flips && !y_flips ==> rest.flip == raw.flip
            &&& x_flips || y_flips ==> {
                &&& rest.flip.ms == now
                &&& rest.flip.axis % 2 == 1 <==> x_flips
                &&& rest.flip.axis >= 2 <==> y_flips
                &&& rest.flip.axis <= 3
                &&& rest.flip.motion == sample.motion && rest.flip.x_l == sample.x_l
                &&& rest.flip.y_l == sample.y_l && rest.flip.xy_h == sample.xy_h
                &&& rest.flip.dx == sample.dx && rest.flip.dy == sample.dy
            }
        }),
{
    let motion = sample.motion;
    assert((motion & 0x80u8 != 0) == (motion >= 128)) by (bit_vector);
}

// The software axes

/// A transform counts both sides by sign, sums them up and remembers them. It is
/// a mismatch unless it swapped the axes.
pub proof fn law_transform_is_compared_with_a_swap(
    axes: AxisCounters,
    pre_x: i16,
    pre_y: i16,
    post_x: i16,
    post_y: i16,
)
    ensures
        ({
            let rest = axes.recorded(pre_x, pre_y, post_x, post_y);
            &&& rest.samples == axes.samples.wrapping_add(1)
            &&& rest.pre_x == axes.pre_x.recorded(pre_x) && rest.pre_y == axes.pre_y.recorded(pre_y)
            &&& rest.post_x == axes.post_x.recorded(post_x)
            &&& rest.post_y == axes.post_y.recorded(post_y)
            &&& rest.pre_x_sum == axes.pre_x_sum.wrapping_add(pre_x as i32)
            &&& rest.pre_y_sum == axes.pre_y_sum.wrapping_add(pre_y as i32)
            &&& rest.post_x_sum == axes.post_x_sum.wrapping_add(post_x as i32)
            &&& rest.post_y_sum == axes.post_y_sum.wrapping_add(post_y as i32)
            &&& post_x == pre_y && post_y == pre_x ==> rest.mismatch == axes.mismatch
            &&& post_x != pre_y || post_y != pre_x ==> rest.mismatch == axes.mismatch.wrapping_add(
                1,
            )
            &&& rest.last_pre_x == pre_x && rest.last_pre_y == pre_y
            &&& rest.last_post_x == post_x && rest.last_post_y == post_y
        }),
{
}

/// Signs are counted apart, and what of the samples had neither is the rest.
pub proof fn law_signs_are_counted_apart(counts: SignCounts, value: i16, samples: u32)
    ensures
        value > 0 ==> counts.recorded(value) == (SignCounts {
            positive: counts.positive.wrapping_add(1),
            negative: counts.negative,
        }),
        value < 0 ==> counts.recorded(value) == (SignCounts {
            positive: counts.positive,
            negative: counts.negative.wrapping_add(1),
        }),
        value == 0 ==> counts.recorded(value) == counts,
        counts.positive + counts.negative <= samples ==> counts.positive + counts.negative
            + counts.zeros(samples) == samples,
        counts.positive + counts.negative > samples ==> counts.zeros(samples) == 0,
{
}

// Optics

/// A burst counts by its motion flag, adds its quality and shutter to their sums
/// and bounds, and falls on one side of the threshold.
pub proof fn law_burst_is_weighed(
    optics: OpticsCounters,
    motion_set: bool,
    squal: u8,
    shutter: u16,
    threshold: u16,
    smart_disabled: bool,
)
    ensures
        ({
            let rest = optics.recorded(motion_set, squal, shutter, threshold, smart_disabled);
            &&& rest.samples == optics.samples.wrapping_add(1)
            &&& motion_set ==> rest.motion_set == optics.motion_set.wrapping_add(1)
                && rest.motion_clear == optics.motion_clear
            &&& !motion_set ==> rest.motion_clear == optics.motion_clear.wrapping_add(1)
                && rest.motion_set == optics.motion_set
            &&& rest.squal_sum == optics.squal_sum.wrapping_add(squal as u32)
            &&& rest.squal_min <= squal <= rest.squal_max
            &&& rest.squal_min <= optics.squal_min && optics.squal_max <= rest.squal_max
            &&& rest.squal_min == squal || rest.squal_min == optics.squal_min
            &&& rest.squal_max == squal || rest.squal_max == optics.squal_max
            &&& rest.shutter_sum == optics.shutter_sum.wrapping_add(shutter as u32)
            &&& rest.shutter_min <= shutter <= rest.shutter_max
            &&& rest.shutter_min <= optics.shutter_min && optics.shutter_max <= rest.shutter_max
            &&& rest.shutter_min == shutter || rest.shutter_min == optics.shutter_min
            &&& rest.shutter_max == shutter || rest.shutter_max == optics.shutter_max
            &&& rest.shutter_below == (if shutter < threshold {
                optics.shutter_below.wrapping_add(1)
            } else {
                optics.shutter_below
            })
            &&& rest.shutter_equal == (if shutter == threshold {
                optics.shutter_equal.wrapping_add(1)
            } else {
                optics.shutter_equal
            })
            &&& rest.shutter_above == (if shutter > threshold {
                optics.shutter_above.wrapping_add(1)
            } else {
                optics.shutter_above
            })
            &&& rest.smart_disabled == smart_disabled
            &&& rest.gpio_low_reads == optics.gpio_low_reads
            &&& rest.gpio_low_zero == optics.gpio_low_zero
            &&& rest.smart_enables == optics.smart_enables
            &&& rest.smart_disables == optics.smart_disables
            &&& rest.smart_last_squal == optics.smart_last_squal
            &&& rest.smart_last_shutter == optics.smart_last_shutter
        }),
{
}

/// A change of smart tracking is counted by its direction and remembered with
/// the optics that led to it. Nothing else changes.
pub proof fn law_smart_changes_are_counted(
    optics: OpticsCounters,
    disabled: bool,
    squal: u8,
    shutter: u16,
)
    ensures
        optics.switched(disabled, squal, shutter) == (OpticsCounters {
            smart_disables: if disabled {
                optics.smart_disables.wrapping_add(1)
            } else {
                optics.smart_disables
            },
            smart_enables: if disabled {
                optics.smart_enables
            } else {
                optics.smart_enables.wrapping_add(1)
            },
            smart_disabled: disabled,
            smart_last_squal: squal as u32,
            smart_last_shutter: shutter as u32,
            ..optics
        }),
{
}

// The right half

/// A read adds its deltas, keeps the longest duration and gap, and is counted
/// once more where the line was low, and again where it then brought nothing.
pub proof fn law_read_is_counted(
    diag: RightDiag,
    dx: i16,
    dy: i16,
    elapsed_us: u32,
    gpio_low: bool,
    now: u32,
)
    ensures
        ({
            let rest = diag.read_recorded(dx, dy, elapsed_us, gpio_low, now);
            &&& rest.sensor.reads == diag.sensor.reads.wrapping_add(1)
            &&& rest.sensor.dx == diag.sensor.dx.wrapping_add(dx as i32)
            &&& rest.sensor.dy == diag.sensor.dy.wrapping_add(dy as i32)
            &&& rest.sensor.read_max_us >= elapsed_us && rest.sensor.read_max_us
                >= diag.sensor.read_max_us && (rest.sensor.read_max_us == elapsed_us
                || rest.sensor.read_max_us == diag.sensor.read_max_us)
            &&& rest.sensor.read_gap == diag.sensor.read_gap.recorded(now)
            &&& rest.optics.gpio_low_reads == (if gpio_low {
                diag.optics.gpio_low_reads.wrapping_add(1)
            } else {
                diag.optics.gpio_low_reads
            })
            &&& rest.optics.gpio_low_zero == (if gpio_low && dx == 0 && dy == 0 {
                diag.optics.gpio_low_zero.wrapping_add(1)
            } else {
                diag.optics.gpio_low_zero
            })
            &&& rest.optics == (OpticsCounters {
                gpio_low_reads: rest.optics.gpio_low_reads,
                gpio_low_zero: rest.optics.gpio_low_zero,
                ..diag.optics
            })
            &&& rest.sensor == (crate::rtt_diag::SensorCounters {
                reads: rest.sensor.reads,
                dx: rest.sensor.dx,
                dy: rest.sensor.dy,
                read_max_us: rest.sensor.read_max_us,
                read_gap: rest.sensor.read_gap,
                ..diag.sensor
            })
            &&& rest.next_log_ms == diag.next_log_ms && rest.raw == diag.raw && rest.axes
                == diag.axes
            &&& rest.scheduler == diag.scheduler && rest.split_tx == diag.split_tx
        }),
{
}

/// A tick is late from 5 ms on, and the largest lateness is kept.
pub proof fn law_late_ticks_are_counted(diag: RightDiag, late_us: u32)
    ensures
        ({
            let rest = diag.tick_recorded(late_us);
            &&& rest == (RightDiag { scheduler: rest.scheduler, ..diag })
            &&& rest.scheduler.ticks == diag.scheduler.ticks.wrapping_add(1)
            &&& rest.scheduler.late_max_us >= late_us && rest.scheduler.late_max_us
                >= diag.scheduler.late_max_us && (rest.scheduler.late_max_us == late_us
                || rest.scheduler.late_max_us == diag.scheduler.late_max_us)
            &&& late_us >= 5_000 ==> rest.scheduler.late_over_5_ms
                == diag.scheduler.late_over_5_ms.wrapping_add(1)
            &&& late_us < 5_000 ==> rest.scheduler.late_over_5_ms == diag.scheduler.late_over_5_ms
        }),
{
}

/// Errors and published events are counted, and nothing else is.
pub proof fn law_errors_and_events_are_counted(diag: RightDiag, now: u32)
    ensures
        ({
            let failed = diag.error_recorded();
            let published = diag.publish_recorded(now);
            &&& failed == (RightDiag {
                sensor: crate::rtt_diag::SensorCounters {
                    errors: diag.sensor.errors.wrapping_add(1),
                    ..diag.sensor
                },
                ..diag
            })
            &&& published == (RightDiag {
                sensor: crate::rtt_diag::SensorCounters {
                    publishes: diag.sensor.publishes.wrapping_add(1),
                    publish_gap: diag.sensor.publish_gap.recorded(now),
                    ..diag.sensor
                },
                ..diag
            })
        }),
{
}

/// A pointing notification adds its totals and its duration, which is a long
/// wait from 20 ms on. A failed notification is an error, whatever it carried.
pub proof fn law_notifications_are_counted(
    diag: RightDiag,
    event: PointingEvent,
    elapsed_us: u32,
    ok: bool,
    now: u32,
)
    ensures
        ({
            let carried = diag.split_tx_recorded(Some(&event), elapsed_us, ok, now).split_tx;
            let plain = diag.split_tx_recorded(None, elapsed_us, ok, now).split_tx;
            let before = diag.split_tx;
            let errors = if ok {
                before.errors
            } else {
                before.errors.wrapping_add(1)
            };
            &&& carried.pointing == before.pointing.wrapping_add(1)
            &&& carried.dx == before.dx.wrapping_add(
                crate::rtt_diag::axis_total(event.axes@, Axis::X) as i32,
            )
            &&& carried.dy == before.dy.wrapping_add(
                crate::rtt_diag::axis_total(event.axes@, Axis::Y) as i32,
            )
            &&& carried.max_us >= elapsed_us && carried.max_us >= before.max_us && (carried.max_us
                == elapsed_us || carried.max_us == before.max_us)
            &&& carried.total_us == before.total_us.wrapping_add(elapsed_us)
            &&& carried.gap == before.gap.recorded(now)
            &&& carried.wait == before.wait.recorded(elapsed_us >= 20_000)
            &&& carried.errors == errors
            &&& plain == (crate::rtt_diag::SplitTxCounters { errors, ..before })
        }),
{
}

/// A report that is due hands out the counters of its interval and what follows
/// from them, and the next interval counts from nothing. The signs, values and
/// times that were seen last are kept, and so is a series of waits.
pub proof fn law_right_report_hands_out_its_interval(diag: RightDiag, now: u32)
    requires
        diag.next_log_ms != 0,
        now >= diag.next_log_ms,
    ensures
        ({
            let (rest, logged) = diag.logged(now);
            let report = logged->0;
            &&& logged is Some
            &&& rest.next_log_ms == crate::rtt_diag::slot_after(diag.next_log_ms, now)
            &&& report.counters.raw == diag.raw && report.counters.axes == diag.axes
            &&& report.counters.optics == diag.optics && report.counters.sensor == diag.sensor
            &&& report.counters.scheduler == diag.scheduler && report.counters.split_tx
                == diag.split_tx
            &&& report.xyh_and == (if diag.raw.samples == 0 {
                0
            } else {
                diag.raw.xyh_and
            })
            &&& report.pre_x_zero == diag.axes.pre_x.zeros(diag.axes.samples)
            &&& report.pre_y_zero == diag.axes.pre_y.zeros(diag.axes.samples)
            &&& report.post_x_zero == diag.axes.post_x.zeros(diag.axes.samples)
            &&& report.post_y_zero == diag.axes.post_y.zeros(diag.axes.samples)
            &&& report.squal_min == crate::rtt_diag::seen_min(diag.optics.squal_min)
            &&& report.shutter_min == crate::rtt_diag::seen_min(diag.optics.shutter_min)
            &&& report.squal_avg == crate::rtt_diag::average(
                diag.optics.squal_sum,
                diag.optics.samples,
            )
            &&& report.shutter_avg == crate::rtt_diag::average(
                diag.optics.shutter_sum,
                diag.optics.samples,
            )
            &&& rest.raw.samples == 0 && rest.raw.motion_set == 0 && rest.raw.xyh_or == 0
            &&& rest.raw.xyh_and == 0xff && rest.raw.xyh_last == diag.raw.xyh_last
            &&& rest.raw.flip == (crate::rtt_diag::RawFlip { ms: 0, ..diag.raw.flip })
            &&& rest.raw.x == (RawAxis {
                positive: 0,
                negative: 0,
                zero: 0,
                positive_sum: 0,
                negative_abs_sum: 0,
                abs_max: 0,
                near_saturation: 0,
                flips: 0,
                ..diag.raw.x
            })
            &&& rest.raw.y == (RawAxis {
                positive: 0,
                negative: 0,
                zero: 0,
                positive_sum: 0,
                negative_abs_sum: 0,
                abs_max: 0,
                near_saturation: 0,
                flips: 0,
                ..diag.raw.y
            })
        }),
{
}

/// The optical and axis counters of a new interval start from nothing seen, and
/// remember what was seen last.
pub proof fn law_right_interval_starts_empty(diag: RightDiag, now: u32)
    requires
        diag.next_log_ms != 0,
        now >= diag.next_log_ms,
    ensures
        ({
            let rest = diag.logged(now).0;
            let none = SignCounts { positive: 0, negative: 0 };
            &&& rest.axes == (AxisCounters {
                samples: 0,
                pre_x: none,
                pre_y: none,
                post_x: none,
                post_y: none,
                pre_x_sum: 0,
                pre_y_sum: 0,
                post_x_sum: 0,
                post_y_sum: 0,
                mismatch: 0,
                ..diag.axes
            })
            &&& rest.optics == (OpticsCounters {
                samples: 0,
                motion_set: 0,
                motion_clear: 0,
                gpio_low_reads: 0,
                gpio_low_zero: 0,
                squal_sum: 0,
                squal_min: 0xffff_ffff,
                squal_max: 0,
                shutter_sum: 0,
                shutter_min: 0xffff_ffff,
                shutter_max: 0,
                shutter_below: 0,
                shutter_equal: 0,
                shutter_above: 0,
                smart_enables: 0,
                smart_disables: 0,
                ..diag.optics
            })
            &&& rest.sensor == (crate::rtt_diag::SensorCounters {
                reads: 0,
                publishes: 0,
                errors: 0,
                dx: 0,
                dy: 0,
                accum_dropped_x: 0,
                accum_dropped_y: 0,
                read_max_us: 0,
                read_gap: Gap { max: 0, ..diag.sensor.read_gap },
                publish_gap: Gap { max: 0, ..diag.sensor.publish_gap },
                motion_wakes: 0,
                motion_wait_max_us: 0,
                motion_pending_wait_max_us: 0,
                fallback_reads: 0,
                fallback_hits: 0,
            })
            &&& rest.scheduler.ticks == 0 && rest.scheduler.late_max_us == 0
            &&& rest.scheduler.late_over_5_ms == 0
            &&& rest.split_tx == (crate::rtt_diag::SplitTxCounters {
                pointing: 0,
                errors: 0,
                dx: 0,
                dy: 0,
                max_us: 0,
                gap: Gap { max: 0, ..diag.split_tx.gap },
                total_us: 0,
                wait: WaitStreak { over: 0, max: 0, current: diag.split_tx.wait.current },
            })
        }),
{
}

/// A recording before the end of an interval keeps every count and reports
/// nothing.
pub proof fn law_right_interval_is_not_cut_short(diag: RightDiag, now: u32)
    requires
        diag.next_log_ms == 0 || now < diag.next_log_ms,
    ensures
        diag.logged(now).1 is None,
        diag.logged(now).0 == (RightDiag {
            next_log_ms: crate::rtt_diag::slot_after(diag.next_log_ms, now),
            ..diag
        }),
{
}

/// New counters have counted nothing, and a minimum starts from the largest
/// value.
pub proof fn law_new_counters_are_empty()
    ensures
        ({
            let diag = RightDiag::fresh();
            &&& diag.next_log_ms == 0 && diag.raw.samples == 0 && diag.raw.xyh_and == 0xff
            &&& diag.raw.x.last_sign == 0 && diag.raw.y.last_sign == 0
            &&& diag.raw.x.flips == 0 && diag.raw.y.flips == 0 && diag.raw.xyh_or == 0
            &&& diag.axes.samples == 0 && diag.axes.mismatch == 0
            &&& diag.optics.samples == 0 && diag.optics.squal_min == 0xffff_ffff
            &&& diag.optics.shutter_min == 0xffff_ffff && !diag.optics.smart_disabled
            &&& diag.sensor.reads == 0 && diag.sensor.dx == 0 && diag.sensor.dy == 0
            &&& diag.sensor.read_gap.last == 0 && diag.sensor.publish_gap.last == 0
            &&& diag.scheduler.ticks == 0 && diag.split_tx.pointing == 0
            &&& diag.split_tx.gap.last == 0 && diag.split_tx.wait.current == 0
        }),
        ({
            let diag = LeftDiag::fresh();
            &&& diag.next_log_ms == 0 && diag.split_rx.pointing == 0 && diag.split_rx.gap.last == 0
            &&& diag.enqueue.all == 0 && diag.queue_high_water == 0 && diag.write.all == 0
            &&& diag.write.last_mouse_us == 0 && diag.write.wait.current == 0
            &&& diag.coalesce.merged == 0 && diag.coalesce.slot_waits == 0
        }),
        forall|diag: RightDiag| #[trigger]
            call_ensures(RightDiag::new, (), diag) ==> diag == RightDiag::fresh(),
        forall|diag: LeftDiag| #[trigger]
            call_ensures(LeftDiag::new, (), diag) ==> diag == LeftDiag::fresh(),
{
}

/// Every recording of the right half counts what it is about, and then looks at
/// the log slot where it has a clock reading.
pub proof fn law_right_recordings_count_and_log()
    ensures
        forall|
            diag: &mut RightDiag,
            dx: i16,
            dy: i16,
            elapsed_us: u32,
            low: bool,
            now: u32,
            report: Option<RightReport>,
        | #[trigger]
            call_ensures(record_pmw_read_at, (diag, dx, dy, elapsed_us, low, now), report) ==> (
                *final(diag),
                report,
            ) == (*diag).read_recorded(dx, dy, elapsed_us, low, now).logged(now),
        forall|diag: &mut RightDiag, sample: &RawSample, now: u32| #[trigger]
            call_ensures(record_pmw_raw_at, (diag, sample, now), ()) ==> *final(diag) == (
            RightDiag { raw: (*diag).raw.recorded(*sample, now), ..*diag }),
        forall|diag: &mut RightDiag, pre_x: i16, pre_y: i16, post_x: i16, post_y: i16| #[trigger]
            call_ensures(record_pmw_axis_transform, (diag, pre_x, pre_y, post_x, post_y), ())
                ==> *final(diag) == (RightDiag {
                axes: (*diag).axes.recorded(pre_x, pre_y, post_x, post_y),
                ..*diag
            }),
        forall|
            diag: &mut RightDiag,
            motion: bool,
            squal: u8,
            shutter: u16,
            threshold: u16,
            disabled: bool,
        | #[trigger]
            call_ensures(
                record_pmw_optics,
                (diag, motion, squal, shutter, threshold, disabled),
                (),
            ) ==> *final(diag) == (RightDiag {
                optics: (*diag).optics.recorded(motion, squal, shutter, threshold, disabled),
                ..*diag
            }),
        forall|diag: &mut RightDiag, disabled: bool, squal: u8, shutter: u16| #[trigger]
            call_ensures(record_pmw_smart_transition, (diag, disabled, squal, shutter), ())
                ==> *final(diag) == (RightDiag {
                optics: (*diag).optics.switched(disabled, squal, shutter),
                ..*diag
            }),
        forall|diag: &mut RightDiag, late_us: u32, now: u32, report: Option<RightReport>| #[trigger]
            call_ensures(record_scheduler_tick_at, (diag, late_us, now), report) ==> (
                *final(diag),
                report,
            ) == (*diag).tick_recorded(late_us).logged(now),
        forall|diag: &mut RightDiag, now: u32, report: Option<RightReport>| #[trigger]
            call_ensures(record_pmw_error_at, (diag, now), report) ==> (*final(diag), report)
                == (*diag).error_recorded().logged(now),
        forall|diag: &mut RightDiag, now: u32, report: Option<RightReport>| #[trigger]
            call_ensures(record_pmw_publish_at, (diag, now), report) ==> (*final(diag), report)
                == (*diag).publish_recorded(now).logged(now),
        forall|
            diag: &mut RightDiag,
            pointing: Option<&PointingEvent>,
            elapsed_us: u32,
            ok: bool,
            now: u32,
            report: Option<RightReport>,
        | #[trigger]
            call_ensures(record_split_tx_at, (diag, pointing, elapsed_us, ok, now), report) ==> (
                *final(diag),
                report,
            ) == (*diag).split_tx_recorded(pointing, elapsed_us, ok, now).logged(now),
        forall|diag: &mut RightDiag, now: u32, report: Option<RightReport>| #[trigger]
            call_ensures(RightDiag::maybe_log_right, (diag, now), report) ==> (*final(diag), report)
                == (*diag).logged(now),
{
}

/// A wake counts with its longest wait, and once more where MOTION was pending
/// already; a fallback read is a hit where it brought motion; dropped motion is
/// added up.
pub proof fn law_wakes_polls_and_drops_are_counted()
    ensures
        forall|diag: &mut RightDiag, wait_us: u32, pending: bool| #[trigger]
            call_ensures(record_motion_wake, (diag, wait_us, pending), ()) ==> {
                let before = (*diag).sensor;
                let after = final(diag).sensor;
                &&& after.motion_wakes == before.motion_wakes.wrapping_add(1)
                &&& after.motion_wait_max_us >= wait_us && after.motion_wait_max_us
                    >= before.motion_wait_max_us && (after.motion_wait_max_us == wait_us
                    || after.motion_wait_max_us == before.motion_wait_max_us)
                &&& pending ==> after.motion_pending_wait_max_us >= wait_us
                    && after.motion_pending_wait_max_us >= before.motion_pending_wait_max_us && (
                after.motion_pending_wait_max_us == wait_us || after.motion_pending_wait_max_us
                    == before.motion_pending_wait_max_us)
                &&& !pending ==> after.motion_pending_wait_max_us
                    == before.motion_pending_wait_max_us
                &&& after.reads == before.reads && after.dx == before.dx && after.dy == before.dy
            },
        forall|diag: &mut RightDiag, dx: i16, dy: i16| #[trigger]
            call_ensures(record_pmw_fallback, (diag, dx, dy), ()) ==> {
                let before = (*diag).sensor;
                let after = final(diag).sensor;
                &&& after.fallback_reads == before.fallback_reads.wrapping_add(1)
                &&& dx != 0 || dy != 0 ==> after.fallback_hits == before.fallback_hits.wrapping_add(
                    1,
                )
                &&& dx == 0 && dy == 0 ==> after.fallback_hits == before.fallback_hits
                &&& after.reads == before.reads && after.dx == before.dx && after.dy == before.dy
            },
        forall|diag: &mut RightDiag, dropped_x: u32, dropped_y: u32| #[trigger]
            call_ensures(record_pmw_accum_drop, (diag, dropped_x, dropped_y), ()) ==> {
                let before = (*diag).sensor;
                let after = final(diag).sensor;
                &&& after.accum_dropped_x == before.accum_dropped_x.wrapping_add(dropped_x)
                &&& after.accum_dropped_y == before.accum_dropped_y.wrapping_add(dropped_y)
                &&& after.reads == before.reads && after.dx == before.dx && after.dy == before.dy
            },
{
}

// The left half

/// The age of motion adds to its sum and its maximum, and counts as old from 15,
/// 30 and 100 ms on.
pub proof fn law_old_motion_is_counted(age: AgeCounters, age_us: u32)
    ensures
        ({
            let rest = age.recorded(age_us);
            &&& rest.samples == age.samples.wrapping_add(1)
            &&& rest.total_us == age.total_us.wrapping_add(age_us)
            &&& rest.max_us >= age_us && rest.max_us >= age.max_us && (rest.max_us == age_us
                || rest.max_us == age.max_us)
            &&& rest.over_15_ms == (if age_us >= 15_000 {
                age.over_15_ms.wrapping_add(1)
            } else {
                age.over_15_ms
            })
            &&& rest.over_30_ms == (if age_us >= 30_000 {
                age.over_30_ms.wrapping_add(1)
            } else {
                age.over_30_ms
            })
            &&& rest.over_100_ms == (if age_us >= 100_000 {
                age.over_100_ms.wrapping_add(1)
            } else {
                age.over_100_ms
            })
        }),
{
}

/// A written mouse report adds its deltas, its sources and its age, and the
/// longest gap of at most two seconds between two of them is kept.
pub proof fn law_written_motion_is_counted(
    write: WriteCounters,
    x: i8,
    y: i8,
    age_us: u32,
    sources: u32,
    now_us: u32,
)
    ensures
        ({
            let rest = write.mouse_written(x, y, age_us, sources, now_us);
            let gap = now_us.wrapping_sub(write.last_mouse_us);
            let counts = write.last_mouse_us != 0 && gap <= 2_000_000;
            &&& rest.mouse == write.mouse.wrapping_add(1)
            &&& rest.dx == write.dx.wrapping_add(x as i32)
            &&& rest.dy == write.dy.wrapping_add(y as i32)
            &&& rest.source_reports == write.source_reports.wrapping_add(sources)
            &&& rest.age == write.age.recorded(age_us)
            &&& rest.last_mouse_us == now_us
            &&& !counts ==> rest.mouse_gap_max_us == write.mouse_gap_max_us
            &&& counts ==> rest.mouse_gap_max_us >= gap && rest.mouse_gap_max_us
                >= write.mouse_gap_max_us && (rest.mouse_gap_max_us == gap || rest.mouse_gap_max_us
                == write.mouse_gap_max_us)
            &&& rest.all == write.all && rest.errors == write.errors && rest.slow == write.slow
            &&& rest.max_us == write.max_us && rest.total_us == write.total_us && rest.wait
                == write.wait
        }),
{
}

/// Any notification adds its duration. It is slow from 20 ms on and a long wait
/// from 10 ms on, and a failed one is an error.
pub proof fn law_written_reports_are_counted(write: WriteCounters, elapsed_us: u32, ok: bool)
    ensures
        ({
            let rest = write.written(elapsed_us, ok);
            &&& rest.all == write.all.wrapping_add(1)
            &&& rest.errors == (if ok {
                write.errors
            } else {
                write.errors.wrapping_add(1)
            })
            &&& rest.slow == (if elapsed_us >= 20_000 {
                write.slow.wrapping_add(1)
            } else {
                write.slow
            })
            &&& rest.max_us >= elapsed_us && rest.max_us >= write.max_us && (rest.max_us
                == elapsed_us || rest.max_us == write.max_us)
            &&& rest.total_us == write.total_us.wrapping_add(elapsed_us)
            &&& rest.wait == write.wait.recorded(elapsed_us >= 10_000)
            &&& rest.mouse == write.mouse && rest.dx == write.dx && rest.dy == write.dy
            &&& rest.age == write.age && rest.last_mouse_us == write.last_mouse_us
            &&& rest.source_reports == write.source_reports && rest.mouse_gap_max_us
                == write.mouse_gap_max_us
        }),
{
}

/// Coalescing counts merged reports, residuals, and motion beyond the i8 range
/// by axis and direction, and keeps the largest residual of each axis.
pub proof fn law_coalescing_is_counted(
    coalesce: CoalesceCounters,
    merged: u32,
    has_residual: bool,
    x: i32,
    y: i32,
    residual_x: i32,
    residual_y: i32,
)
    ensures
        ({
            let rest = coalesce.recorded(merged, has_residual, x, y, residual_x, residual_y);
            let size_x = if residual_x < 0 {
                -(residual_x as int)
            } else {
                residual_x as int
            };
            let size_y = if residual_y < 0 {
                -(residual_y as int)
            } else {
                residual_y as int
            };
            &&& rest.merged == coalesce.merged.wrapping_add(merged)
            &&& rest.split_chunks == (if has_residual {
                coalesce.split_chunks.wrapping_add(1)
            } else {
                coalesce.split_chunks
            })
            &&& rest.clip_x_pos == (if x > 127 {
                coalesce.clip_x_pos.wrapping_add(1)
            } else {
                coalesce.clip_x_pos
            })
            &&& rest.clip_x_neg == (if x < -128 {
                coalesce.clip_x_neg.wrapping_add(1)
            } else {
                coalesce.clip_x_neg
            })
            &&& rest.clip_y_pos == (if y > 127 {
                coalesce.clip_y_pos.wrapping_add(1)
            } else {
                coalesce.clip_y_pos
            })
            &&& rest.clip_y_neg == (if y < -128 {
                coalesce.clip_y_neg.wrapping_add(1)
            } else {
                coalesce.clip_y_neg
            })
            &&& rest.residual_x_max >= size_x && rest.residual_x_max >= coalesce.residual_x_max && (
            rest.residual_x_max == size_x || rest.residual_x_max == coalesce.residual_x_max)
            &&& rest.residual_y_max >= size_y && rest.residual_y_max >= coalesce.residual_y_max && (
            rest.residual_y_max == size_y || rest.residual_y_max == coalesce.residual_y_max)
            &&& rest.slot_waits == coalesce.slot_waits && rest.slot_wait_max_us
                == coalesce.slot_wait_max_us
        }),
{
}

/// A received notification adds its totals, and an attempt to queue a report is
/// counted as delivered or given up, with the fullest queue and the longest wait
/// kept.
pub proof fn law_reception_and_queueing_are_counted(
    diag: LeftDiag,
    event: PointingEvent,
    now: u32,
    is_mouse: bool,
    queue_len: u32,
    full_retries: u32,
    elapsed_us: u32,
    delivered: bool,
)
    ensures
        ({
            let rest = diag.split_rx_recorded(event, now);
            &&& rest == (LeftDiag { split_rx: rest.split_rx, ..diag })
            &&& rest.split_rx.pointing == diag.split_rx.pointing.wrapping_add(1)
            &&& rest.split_rx.dx == diag.split_rx.dx.wrapping_add(
                crate::rtt_diag::axis_total(event.axes@, Axis::X) as i32,
            )
            &&& rest.split_rx.dy == diag.split_rx.dy.wrapping_add(
                crate::rtt_diag::axis_total(event.axes@, Axis::Y) as i32,
            )
            &&& rest.split_rx.gap == diag.split_rx.gap.recorded(now)
        }),
        ({
            let rest = diag.enqueue_recorded(
                is_mouse,
                queue_len,
                full_retries,
                elapsed_us,
                delivered,
            );
            let before = diag.enqueue;
            &&& rest == (LeftDiag {
                enqueue: rest.enqueue,
                queue_high_water: rest.queue_high_water,
                ..diag
            })
            &&& rest.enqueue.all == (if delivered {
                before.all.wrapping_add(1)
            } else {
                before.all
            })
            &&& rest.enqueue.mouse == (if delivered && is_mouse {
                before.mouse.wrapping_add(1)
            } else {
                before.mouse
            })
            &&& rest.enqueue.aborted == (if delivered {
                before.aborted
            } else {
                before.aborted.wrapping_add(1)
            })
            &&& rest.enqueue.full == before.full.wrapping_add(full_retries)
            &&& rest.enqueue.max_wait_us >= elapsed_us && rest.enqueue.max_wait_us
                >= before.max_wait_us && (rest.enqueue.max_wait_us == elapsed_us
                || rest.enqueue.max_wait_us == before.max_wait_us)
            &&& rest.queue_high_water >= queue_len && rest.queue_high_water >= diag.queue_high_water
                && (rest.queue_high_water == queue_len || rest.queue_high_water
                == diag.queue_high_water)
        }),
{
}

/// A written report counts as any notification does, and a mouse report also by
/// its motion. The fullest queue that the writer saw is kept.
pub proof fn law_writing_counts_mouse_reports_twice(
    diag: LeftDiag,
    mouse: MouseReport,
    report: Report,
    elapsed_us: u32,
    ok: bool,
    queue_len: u32,
    age_us: u32,
    sources: u32,
    now_us: u32,
)
    requires
        !(report is MouseReport),
    ensures
        ({
            let moved = diag.write_recorded(
                Report::MouseReport(mouse),
                elapsed_us,
                ok,
                queue_len,
                age_us,
                sources,
                now_us,
            );
            let other = diag.write_recorded(
                report,
                elapsed_us,
                ok,
                queue_len,
                age_us,
                sources,
                now_us,
            );
            &&& moved.write == diag.write.mouse_written(
                mouse.x,
                mouse.y,
                age_us,
                sources,
                now_us,
            ).written(elapsed_us, ok)
            &&& other.write == diag.write.written(elapsed_us, ok)
            &&& moved.queue_high_water == other.queue_high_water
            &&& moved.queue_high_water >= queue_len && moved.queue_high_water
                >= diag.queue_high_water && (moved.queue_high_water == queue_len
                || moved.queue_high_water == diag.queue_high_water)
            &&& moved == (LeftDiag {
                write: moved.write,
                queue_high_water: moved.queue_high_water,
                ..diag
            })
            &&& other == (LeftDiag {
                write: other.write,
                queue_high_water: other.queue_high_water,
                ..diag
            })
        }),
{
}

/// A report of the left half hands out its interval, the queue's length and the
/// average age of motion. The next interval starts from nothing but the times of
/// the last events and a series of waits.
pub proof fn law_left_report_hands_out_its_interval(diag: LeftDiag, now: u32, queue_len: u32)
    ensures
        ({
            let (rest, logged) = diag.logged(now, queue_len);
            let due = diag.next_log_ms != 0 && now >= diag.next_log_ms;
            &&& logged is Some <==> due
            &&& !due ==> rest == (LeftDiag { next_log_ms: rest.next_log_ms, ..diag })
            &&& logged matches Some(report) ==> {
                &&& report.counters.split_rx == diag.split_rx && report.counters.enqueue
                    == diag.enqueue
                &&& report.counters.queue_high_water == diag.queue_high_water
                &&& report.counters.write == diag.write && report.counters.coalesce == diag.coalesce
                &&& report.queue_len == queue_len
                &&& report.mouse_age_avg_us == crate::rtt_diag::average(
                    diag.write.age.total_us,
                    diag.write.age.samples,
                )
                &&& rest.split_rx.gap == (Gap { max: 0, ..diag.split_rx.gap })
                &&& rest.split_rx.pointing == 0 && rest.split_rx.dx == 0 && rest.split_rx.dy == 0
                &&& rest.enqueue.all == 0 && rest.enqueue.mouse == 0 && rest.enqueue.full == 0
                &&& rest.enqueue.aborted == 0 && rest.enqueue.max_wait_us == 0
                &&& rest.queue_high_water == 0
                &&& rest.write.all == 0 && rest.write.mouse == 0 && rest.write.errors == 0
                &&& rest.write.slow == 0 && rest.write.max_us == 0 && rest.write.dx == 0
                &&& rest.write.dy == 0 && rest.write.source_reports == 0
                &&& rest.write.age.samples == 0 && rest.write.age.total_us == 0
                &&& rest.write.age.max_us == 0 && rest.write.age.over_15_ms == 0
                &&& rest.write.age.over_30_ms == 0 && rest.write.age.over_100_ms == 0
                &&& rest.write.last_mouse_us == diag.write.last_mouse_us
                &&& rest.write.mouse_gap_max_us == 0 && rest.write.total_us == 0
                &&& rest.write.wait.over == 0 && rest.write.wait.max == 0
                &&& rest.write.wait.current == diag.write.wait.current
                &&& rest.coalesce.merged == 0 && rest.coalesce.split_chunks == 0
                &&& rest.coalesce.clip_x_pos == 0 && rest.coalesce.clip_x_neg == 0
                &&& rest.coalesce.clip_y_pos == 0 && rest.coalesce.clip_y_neg == 0
                &&& rest.coalesce.residual_x_max == 0 && rest.coalesce.residual_y_max == 0
                &&& rest.coalesce.slot_waits == 0 && rest.coalesce.slot_wait_max_us == 0
            }
            &&& rest.next_log_ms == crate::rtt_diag::slot_after(diag.next_log_ms, now)
        }),
{
}

/// Every recording of the left half counts what it is about, and then looks at
/// the log slot where it has a clock reading.
pub proof fn law_left_recordings_count_and_log()
    ensures
        forall|
            diag: &mut LeftDiag,
            event: &PointingEvent,
            queue_len: u32,
            now: u32,
            report: Option<LeftReport>,
        | #[trigger]
            call_ensures(record_split_rx_at, (diag, event, queue_len, now), report) ==> (
                *final(diag),
                report,
            ) == (*diag).split_rx_recorded(*event, now).logged(now, queue_len),
        forall|
            diag: &mut LeftDiag,
            mouse: bool,
            queue_len: u32,
            retries: u32,
            elapsed_us: u32,
            delivered: bool,
            len: u32,
            now: u32,
            report: Option<LeftReport>,
        | #[trigger]
            call_ensures(
                record_hid_enqueue_at,
                (diag, mouse, queue_len, retries, elapsed_us, delivered, len, now),
                report,
            ) ==> (*final(diag), report) == (*diag).enqueue_recorded(
                mouse,
                queue_len,
                retries,
                elapsed_us,
                delivered,
            ).logged(now, len),
        forall|
            diag: &mut LeftDiag,
            written: &Report,
            elapsed_us: u32,
            ok: bool,
            queue_len: u32,
            age_us: u32,
            sources: u32,
            len: u32,
            us: u32,
            ms: u32,
            report: Option<LeftReport>,
        | #[trigger]
            call_ensures(
                record_hid_write_at,
                (diag, written, elapsed_us, ok, queue_len, age_us, sources, len, us, ms),
                report,
            ) ==> (*final(diag), report) == (*diag).write_recorded(
                *written,
                elapsed_us,
                ok,
                queue_len,
                age_us,
                sources,
                us,
            ).logged(ms, len),
        forall|
            diag: &mut LeftDiag,
            merged: u32,
            residual: bool,
            x: i32,
            y: i32,
            rest_x: i32,
            rest_y: i32,
        | #[trigger]
            call_ensures(record_mouse_coalesce, (diag, merged, residual, x, y, rest_x, rest_y), ())
                ==> *final(diag) == (LeftDiag {
                coalesce: (*diag).coalesce.recorded(merged, residual, x, y, rest_x, rest_y),
                ..*diag
            }),
        forall|diag: &mut LeftDiag, elapsed_us: u32| #[trigger]
            call_ensures(record_mouse_slot_wait, (diag, elapsed_us), ()) ==> {
                let before = (*diag).coalesce;
                let after = final(diag).coalesce;
                &&& elapsed_us == 0 ==> *final(diag) == *diag
                &&& elapsed_us > 0 ==> after.slot_waits == before.slot_waits.wrapping_add(1)
                    && after.slot_wait_max_us >= elapsed_us && after.slot_wait_max_us
                    >= before.slot_wait_max_us && (after.slot_wait_max_us == elapsed_us
                    || after.slot_wait_max_us == before.slot_wait_max_us) && after.merged
                    == before.merged
            },
        forall|diag: &mut LeftDiag, now: u32, queue_len: u32, report: Option<LeftReport>| #[trigger]
            call_ensures(LeftDiag::maybe_log_left, (diag, now, queue_len), report) ==> (
                *final(diag),
                report,
            ) == (*diag).logged(now, queue_len),
{
}

/// A recording that reads the clock itself counts as one at the time that it
/// read.
pub proof fn law_recordings_read_the_clock_once()
    ensures
        forall|
            diag: &mut RightDiag,
            dx: i16,
            dy: i16,
            elapsed_us: u32,
            low: bool,
            report: Option<RightReport>,
        | #[trigger]
            call_ensures(record_pmw_read, (diag, dx, dy, elapsed_us, low), report) ==> exists|
                now: u32,
            |
                (*final(diag), report) == (#[trigger] (*diag).read_recorded(
                    dx,
                    dy,
                    elapsed_us,
                    low,
                    now,
                )).logged(now),
        forall|diag: &mut RightDiag, late_us: u32, report: Option<RightReport>| #[trigger]
            call_ensures(record_scheduler_tick, (diag, late_us), report) ==> exists|now: u32|
                (*final(diag), report) == #[trigger] (*diag).tick_recorded(late_us).logged(now),
        forall|diag: &mut RightDiag, report: Option<RightReport>| #[trigger]
            call_ensures(record_pmw_error, (diag,), report) ==> exists|now: u32|
                (*final(diag), report) == #[trigger] (*diag).error_recorded().logged(now),
        forall|diag: &mut RightDiag, report: Option<RightReport>| #[trigger]
            call_ensures(record_pmw_publish, (diag,), report) ==> exists|now: u32|
                (*final(diag), report) == (#[trigger] (*diag).publish_recorded(now)).logged(now),
        forall|diag: &mut LeftDiag, event: &PointingEvent, len: u32, report: Option<LeftReport>|
         #[trigger]
            call_ensures(record_split_rx, (diag, event, len), report) ==> exists|now: u32|
                (*final(diag), report) == (#[trigger] (*diag).split_rx_recorded(
                    *event,
                    now,
                )).logged(now, len),
{
}

} // verus!
