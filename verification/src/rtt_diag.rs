//! Low-rate RTT diagnostics for the K:04 pointing path.
//!
//! Counters are updated in hot paths and emitted at most once per second. This
//! avoids changing scheduler timing with one log record per motion packet. A
//! recording function returns the report that is due, if one is.

use vstd::prelude::*;

use crate::pointing::{Axis, AxisEvent, AxisValType, PointingEvent};
use crate::time::Instant;

verus! {

pub const REPORT_INTERVAL_MS: u32 = 1_000;

pub const MAX_RELEVANT_GAP_MS: u32 = 2_000;

pub const MAX_RELEVANT_GAP_US: u32 = 2_000_000;

pub const SLOW_GATT_US: u32 = 20_000;

pub const WAITING_GATT_US: u32 = 10_000;

pub const WAITING_SPLIT_US: u32 = 20_000;

pub const RAW_SIGN_MIN_ABS: u32 = 8;

pub const RAW_SIGN_CONTINUITY_MS: u32 = 750;

pub const RAW_NEAR_SATURATION_ABS: u32 = 1_900;

pub const LATE_TICK_US: u32 = 5_000;

// Counter arithmetic. Counters wrap around.

pub open spec fn bumped(counter: u32, amount: u32) -> u32 {
    counter.wrapping_add(amount)
}

pub open spec fn bumped_if(counter: u32, condition: bool) -> u32 {
    if condition {
        counter.wrapping_add(1)
    } else {
        counter
    }
}

pub open spec fn largest(counter: u32, value: u32) -> u32 {
    if value > counter {
        value
    } else {
        counter
    }
}

pub open spec fn smallest(counter: u32, value: u32) -> u32 {
    if value < counter {
        value
    } else {
        counter
    }
}

/// The distance from `earlier` on to `later`, zero if it lies behind.
pub open spec fn distance(earlier: u32, later: u32) -> int {
    if later >= earlier {
        later - earlier
    } else {
        0
    }
}

pub open spec fn magnitude(value: i16) -> u32 {
    (if value < 0 {
        -value
    } else {
        value as int
    }) as u32
}

fn bump_if(counter: u32, condition: bool) -> (result: u32)
    ensures
        result == bumped_if(counter, condition),
{
    if condition {
        counter.wrapping_add(1)
    } else {
        counter
    }
}

pub(crate) fn max_of(counter: u32, value: u32) -> (result: u32)
    ensures
        result == largest(counter, value),
{
    if value > counter {
        value
    } else {
        counter
    }
}

fn min_of(counter: u32, value: u32) -> (result: u32)
    ensures
        result == smallest(counter, value),
{
    if value < counter {
        value
    } else {
        counter
    }
}

pub(crate) fn add_i32(counter: i32, value: i16) -> (result: i32)
    ensures
        result == counter.wrapping_add(value as i32),
{
    counter.wrapping_add(value as i32)
}

fn abs_of(value: i16) -> (result: u32)
    ensures
        result == magnitude(value),
{
    if value < 0 {
        (-(value as i32)) as u32
    } else {
        value as u32
    }
}

/// Milliseconds of a clock reading, in the width of the counters: they start
/// over where the counter is full.
pub fn counter_ms(at: Instant) -> (ms: u32)
    ensures
        ms == (at.ticks / 1_000) % 0x1_0000_0000,
{
    let millis: u64 = at.as_millis();
    assert(millis as u32 == millis % 0x1_0000_0000) by (bit_vector);
    millis as u32
}

/// Microseconds of a clock reading, in the width of the counters: they start
/// over where the counter is full.
pub fn counter_us(at: Instant) -> (us: u32)
    ensures
        us == at.ticks % 0x1_0000_0000,
{
    let micros: u64 = at.as_micros();
    assert(micros as u32 == micros % 0x1_0000_0000) by (bit_vector);
    micros as u32
}

/// Milliseconds of the clock, in the width of the counters. Every count can
/// occur, so nothing is said of the result; `counter_ms` says how it follows
/// from the reading.
pub(crate) fn now_ms() -> (now: u32) {
    counter_ms(Instant::now())
}

/// Microseconds of the clock, in the width of the counters. Every count can
/// occur, so nothing is said of the result; `counter_us` says how it follows
/// from the reading.
pub(crate) fn now_us() -> (now: u32) {
    counter_us(Instant::now())
}

// Motion totals

pub open spec fn saturated_i16(value: int) -> int {
    crate::motion_pacing::clamp(value, i16::MIN as int, i16::MAX as int)
}

/// The relative motion of one axis over a series of axis events, saturating
/// after each of them.
pub open spec fn axis_total(axes: Seq<AxisEvent>, axis: Axis) -> int
    decreases axes.len(),
{
    if axes.len() == 0 {
        0
    } else {
        let total = axis_total(axes.drop_last(), axis);
        if axes.last().typ == AxisValType::Rel && axes.last().axis == axis {
            saturated_i16(total + axes.last().value)
        } else {
            total
        }
    }
}

fn add_saturating(total: i16, value: i16) -> (sum: i16)
    ensures
        sum == saturated_i16(total + value),
{
    let wide: i32 = total as i32 + value as i32;
    if wide < -32768 {
        -32768
    } else if wide > 32767 {
        32767
    } else {
        wide as i16
    }
}

pub fn axis_totals(event: &PointingEvent) -> (totals: (i16, i16))
    ensures
        totals.0 == axis_total(event.axes@, Axis::X),
        totals.1 == axis_total(event.axes@, Axis::Y),
{
    let mut x: i16 = 0;
    let mut y: i16 = 0;
    let mut i: usize = 0;
    assert(event.axes@.take(0) =~= Seq::<AxisEvent>::empty());
    while i < 3
        invariant
            i <= 3,
            event.axes@.len() == 3,
            x == axis_total(event.axes@.take(i as int), Axis::X),
            y == axis_total(event.axes@.take(i as int), Axis::Y),
        decreases 3 - i,
    {
        let axis = event.axes[i];
        assert(event.axes@.take(i as int + 1).drop_last() =~= event.axes@.take(i as int));
        if axis.typ == AxisValType::Rel {
            if axis.axis == Axis::X {
                x = add_saturating(x, axis.value);
            } else if axis.axis == Axis::Y {
                y = add_saturating(y, axis.value);
            }
        }
        i = i + 1;
    }
    assert(event.axes@.take(3) =~= event.axes@);
    (x, y)
}

// Gaps between recurring events

/// The longest relevant gap between two occurrences.
#[derive(Clone, Copy, Debug, PartialEq, Eq, Structural)]
pub struct Gap {
    /// When it last occurred, zero for never.
    pub last: u32,
    pub max: u32,
}

impl Gap {
    /// An occurrence at `now`. Pauses that are longer than the relevant gap do
    /// not count.
    pub open spec fn recorded(self, now: u32) -> Gap {
        Gap {
            last: now,
            max: if self.last != 0 && distance(self.last, now) <= MAX_RELEVANT_GAP_MS {
                largest(self.max, distance(self.last, now) as u32)
            } else {
                self.max
            },
        }
    }

    pub open spec fn cleared(self) -> Gap {
        Gap { max: 0, ..self }
    }

    pub(crate) fn record_bounded_gap(&mut self, now: u32)
        ensures
            *final(self) == old(self).recorded(now),
    {
        let previous: u32 = self.last;
        self.last = now;
        if previous == 0 {
            return;
        }
        let gap: u32 = now.saturating_sub(previous);
        if gap <= MAX_RELEVANT_GAP_MS {
            self.max = max_of(self.max, gap);
        }
    }
}

// The log slot

/// When the next report is due, zero before the first recording.
pub open spec fn slot_taken(next: u32, now: u32) -> bool {
    next != 0 && now >= next
}

pub open spec fn slot_after(next: u32, now: u32) -> u32 {
    if next == 0 || now >= next {
        (if now + REPORT_INTERVAL_MS > u32::MAX {
            u32::MAX as int
        } else {
            now + REPORT_INTERVAL_MS
        }) as u32
    } else {
        next
    }
}

/// Takes the log slot where it is due. The first call only opens the interval.
pub(crate) fn take_log_slot(next: &mut u32, now: u32) -> (taken: bool)
    ensures
        taken == slot_taken(*old(next), now),
        *final(next) == slot_after(*old(next), now),
{
    let deadline: u32 = *next;
    if deadline == 0 {
        *next = now.saturating_add(REPORT_INTERVAL_MS);
        return false;
    }
    if now < deadline {
        return false;
    }
    *next = now.saturating_add(REPORT_INTERVAL_MS);
    true
}

/// Reports come at most once per second: within a second of a report that took
/// the slot, the slot is not given again.
pub proof fn law_at_most_one_report_per_second(next: u32, now: u32, later: u32)
    requires
        slot_taken(next, now) || next == 0,
        now <= later < now + REPORT_INTERVAL_MS,
        now <= u32::MAX - REPORT_INTERVAL_MS,
    ensures
        !slot_taken(slot_after(next, now), later),
        slot_after(slot_after(next, now), later) == slot_after(next, now),
{
}

// Raw sensor deltas

/// Signs and magnitudes of one native axis.
#[derive(Clone, Copy, Debug, PartialEq, Eq, Structural)]
pub struct RawAxis {
    pub positive: u32,
    pub negative: u32,
    pub zero: u32,
    pub positive_sum: u32,
    pub negative_abs_sum: u32,
    pub abs_max: u32,
    pub near_saturation: u32,
    pub flips: u32,
    pub last_sign: i32,
    pub last_sign_ms: u32,
}

impl RawAxis {
    pub open spec fn sign_of(value: i16) -> i32 {
        if value < 0 {
            -1i32
        } else {
            1i32
        }
    }

    /// A strong delta turned the direction of the last strong delta round,
    /// shortly after it.
    pub open spec fn flipped(self, value: i16, now: u32) -> bool {
        &&& magnitude(value) >= RAW_SIGN_MIN_ABS
        &&& self.last_sign != 0
        &&& self.last_sign != RawAxis::sign_of(value)
        &&& distance(self.last_sign_ms, now) <= RAW_SIGN_CONTINUITY_MS
    }

    pub open spec fn recorded(self, value: i16, now: u32) -> RawAxis {
        if value == 0 {
            RawAxis { zero: bumped(self.zero, 1), ..self }
        } else {
            let strong = magnitude(value) >= RAW_SIGN_MIN_ABS;
            RawAxis {
                positive: bumped_if(self.positive, value > 0),
                negative: bumped_if(self.negative, value < 0),
                zero: self.zero,
                positive_sum: if value > 0 {
                    bumped(self.positive_sum, magnitude(value))
                } else {
                    self.positive_sum
                },
                negative_abs_sum: if value < 0 {
                    bumped(self.negative_abs_sum, magnitude(value))
                } else {
                    self.negative_abs_sum
                },
                abs_max: largest(self.abs_max, magnitude(value)),
                near_saturation: bumped_if(
                    self.near_saturation,
                    magnitude(value) >= RAW_NEAR_SATURATION_ABS,
                ),
                flips: bumped_if(self.flips, self.flipped(value, now)),
                last_sign: if strong {
                    RawAxis::sign_of(value)
                } else {
                    self.last_sign
                },
                last_sign_ms: if strong {
                    now
                } else {
                    self.last_sign_ms
                },
            }
        }
    }

    pub open spec fn cleared(self) -> RawAxis {
        RawAxis {
            positive: 0,
            negative: 0,
            zero: 0,
            positive_sum: 0,
            negative_abs_sum: 0,
            abs_max: 0,
            near_saturation: 0,
            flips: 0,
            ..self
        }
    }

    fn record_raw_axis(&mut self, value: i16, now: u32) -> (flip: bool)
        ensures
            *final(self) == old(self).recorded(value, now),
            flip == old(self).flipped(value, now),
    {
        if value == 0 {
            self.zero = self.zero.wrapping_add(1);
            return false;
        }
        let size: u32 = abs_of(value);
        self.abs_max = max_of(self.abs_max, size);
        if value > 0 {
            self.positive = self.positive.wrapping_add(1);
            self.positive_sum = self.positive_sum.wrapping_add(size);
        } else {
            self.negative = self.negative.wrapping_add(1);
            self.negative_abs_sum = self.negative_abs_sum.wrapping_add(size);
        }
        if size >= RAW_NEAR_SATURATION_ABS {
            self.near_saturation = self.near_saturation.wrapping_add(1);
        }
        if size < RAW_SIGN_MIN_ABS {
            return false;
        }
        let sign: i32 = if value < 0 {
            -1
        } else {
            1
        };
        let previous_sign: i32 = self.last_sign;
        let previous_ms: u32 = self.last_sign_ms;
        self.last_sign = sign;
        self.last_sign_ms = now;
        let changed: bool = previous_sign != 0 && previous_sign != sign && now.saturating_sub(
            previous_ms,
        ) <= RAW_SIGN_CONTINUITY_MS;
        if changed {
            self.flips = self.flips.wrapping_add(1);
        }
        changed
    }
}

/// The last sign flip, with the bytes that brought it.
#[derive(Clone, Copy, Debug, PartialEq, Eq, Structural)]
pub struct RawFlip {
    pub ms: u32,
    /// Bit 0 for the X axis, bit 1 for the Y axis.
    pub axis: u32,
    pub motion: u32,
    pub x_l: u32,
    pub y_l: u32,
    pub xy_h: u32,
    pub dx: i32,
    pub dy: i32,
}

#[derive(Clone, Copy, Debug, PartialEq, Eq, Structural)]
pub struct RawCounters {
    pub samples: u32,
    pub motion_set: u32,
    pub x: RawAxis,
    pub y: RawAxis,
    pub xyh_or: u32,
    pub xyh_and: u32,
    pub xyh_last: u32,
    pub flip: RawFlip,
}

/// The bytes of a motion burst that carry its deltas, and the decoded deltas.
#[derive(Clone, Copy, Debug, PartialEq, Eq, Structural)]
pub struct RawSample {
    pub motion: u8,
    pub x_l: u8,
    pub y_l: u8,
    pub xy_h: u8,
    pub dx: i16,
    pub dy: i16,
}

impl RawCounters {
    pub open spec fn recorded(self, sample: RawSample, now: u32) -> RawCounters {
        let x_flipped = self.x.flipped(sample.dx, now);
        let y_flipped = self.y.flipped(sample.dy, now);
        RawCounters {
            samples: bumped(self.samples, 1),
            motion_set: bumped_if(self.motion_set, sample.motion & 0x80u8 != 0),
            x: self.x.recorded(sample.dx, now),
            y: self.y.recorded(sample.dy, now),
            xyh_or: self.xyh_or | sample.xy_h as u32,
            xyh_and: self.xyh_and & sample.xy_h as u32,
            xyh_last: sample.xy_h as u32,
            flip: if x_flipped || y_flipped {
                RawFlip {
                    ms: now,
                    axis: if x_flipped && y_flipped {
                        3u32
                    } else if y_flipped {
                        2u32
                    } else {
                        1u32
                    },
                    motion: sample.motion as u32,
                    x_l: sample.x_l as u32,
                    y_l: sample.y_l as u32,
                    xy_h: sample.xy_h as u32,
                    dx: sample.dx as i32,
                    dy: sample.dy as i32,
                }
            } else {
                self.flip
            },
        }
    }

    pub open spec fn cleared(self) -> RawCounters {
        RawCounters {
            samples: 0,
            motion_set: 0,
            x: self.x.cleared(),
            y: self.y.cleared(),
            xyh_or: 0,
            xyh_and: 0xff,
            xyh_last: self.xyh_last,
            flip: RawFlip { ms: 0, ..self.flip },
        }
    }

    fn record(&mut self, sample: &RawSample, now: u32)
        ensures
            *final(self) == old(self).recorded(*sample, now),
    {
        self.samples = self.samples.wrapping_add(1);
        self.motion_set = bump_if(self.motion_set, sample.motion & 0x80 != 0);
        self.xyh_or = self.xyh_or | sample.xy_h as u32;
        self.xyh_and = self.xyh_and & sample.xy_h as u32;
        self.xyh_last = sample.xy_h as u32;
        let x_flipped: bool = self.x.record_raw_axis(sample.dx, now);
        let y_flipped: bool = self.y.record_raw_axis(sample.dy, now);
        if x_flipped || y_flipped {
            self.flip = RawFlip {
                ms: now,
                axis: if x_flipped && y_flipped {
                    3
                } else if y_flipped {
                    2
                } else {
                    1
                },
                motion: sample.motion as u32,
                x_l: sample.x_l as u32,
                y_l: sample.y_l as u32,
                xy_h: sample.xy_h as u32,
                dx: sample.dx as i32,
                dy: sample.dy as i32,
            };
        }
    }
}

// The software axis transform

#[derive(Clone, Copy, Debug, PartialEq, Eq, Structural)]
pub struct SignCounts {
    pub positive: u32,
    pub negative: u32,
}

impl SignCounts {
    pub open spec fn recorded(self, value: i16) -> SignCounts {
        SignCounts {
            positive: bumped_if(self.positive, value > 0),
            negative: bumped_if(self.negative, value < 0),
        }
    }

    /// How many of `samples` had neither sign.
    pub open spec fn zeros(self, samples: u32) -> int {
        let signed = if self.positive + self.negative > u32::MAX {
            u32::MAX as int
        } else {
            self.positive + self.negative
        };
        if samples >= signed {
            samples - signed
        } else {
            0
        }
    }

    fn record_axis_sign(&mut self, value: i16)
        ensures
            *final(self) == old(self).recorded(value),
    {
        if value > 0 {
            self.positive = self.positive.wrapping_add(1);
        } else if value < 0 {
            self.negative = self.negative.wrapping_add(1);
        }
    }

    fn zero_count(&self, samples: u32) -> (count: u32)
        ensures
            count == self.zeros(samples),
    {
        samples.saturating_sub(self.positive.saturating_add(self.negative))
    }
}

#[derive(Clone, Copy, Debug, PartialEq, Eq, Structural)]
pub struct AxisCounters {
    pub samples: u32,
    pub pre_x: SignCounts,
    pub pre_y: SignCounts,
    pub post_x: SignCounts,
    pub post_y: SignCounts,
    pub pre_x_sum: i32,
    pub pre_y_sum: i32,
    pub post_x_sum: i32,
    pub post_y_sum: i32,
    pub mismatch: u32,
    pub last_pre_x: i32,
    pub last_pre_y: i32,
    pub last_post_x: i32,
    pub last_post_y: i32,
}

impl AxisCounters {
    pub open spec fn recorded(self, pre_x: i16, pre_y: i16, post_x: i16, post_y: i16) -> AxisCounters {
        AxisCounters {
            samples: bumped(self.samples, 1),
            pre_x: self.pre_x.recorded(pre_x),
            pre_y: self.pre_y.recorded(pre_y),
            post_x: self.post_x.recorded(post_x),
            post_y: self.post_y.recorded(post_y),
            pre_x_sum: self.pre_x_sum.wrapping_add(pre_x as i32),
            pre_y_sum: self.pre_y_sum.wrapping_add(pre_y as i32),
            post_x_sum: self.post_x_sum.wrapping_add(post_x as i32),
            post_y_sum: self.post_y_sum.wrapping_add(post_y as i32),
            mismatch: bumped_if(self.mismatch, post_x != pre_y || post_y != pre_x),
            last_pre_x: pre_x as i32,
            last_pre_y: pre_y as i32,
            last_post_x: post_x as i32,
            last_post_y: post_y as i32,
        }
    }

    pub open spec fn cleared(self) -> AxisCounters {
        let none = SignCounts { positive: 0, negative: 0 };
        AxisCounters {
            samples: 0,
            pre_x: none,
            pre_y: none,
            post_x: none,
            post_y: none,
            pre_x_sum: 0,
            pre_y_sum: 0,
            post_x_sum: 0,
            post_y_sum: 0,
            mismatch: 0,
            ..self
        }
    }
}

// Optical quality

#[derive(Clone, Copy, Debug, PartialEq, Eq, Structural)]
pub struct OpticsCounters {
    pub samples: u32,
    pub motion_set: u32,
    pub motion_clear: u32,
    pub gpio_low_reads: u32,
    pub gpio_low_zero: u32,
    pub squal_sum: u32,
    pub squal_min: u32,
    pub squal_max: u32,
    pub shutter_sum: u32,
    pub shutter_min: u32,
    pub shutter_max: u32,
    pub shutter_below: u32,
    pub shutter_equal: u32,
    pub shutter_above: u32,
    pub smart_enables: u32,
    pub smart_disables: u32,
    pub smart_disabled: bool,
    pub smart_last_squal: u32,
    pub smart_last_shutter: u32,
}

impl OpticsCounters {
    pub open spec fn recorded(
        self,
        motion_set: bool,
        squal: u8,
        shutter: u16,
        threshold: u16,
        smart_disabled: bool,
    ) -> OpticsCounters {
        OpticsCounters {
            samples: bumped(self.samples, 1),
            motion_set: bumped_if(self.motion_set, motion_set),
            motion_clear: bumped_if(self.motion_clear, !motion_set),
            squal_sum: bumped(self.squal_sum, squal as u32),
            squal_min: smallest(self.squal_min, squal as u32),
            squal_max: largest(self.squal_max, squal as u32),
            shutter_sum: bumped(self.shutter_sum, shutter as u32),
            shutter_min: smallest(self.shutter_min, shutter as u32),
            shutter_max: largest(self.shutter_max, shutter as u32),
            shutter_below: bumped_if(self.shutter_below, shutter < threshold),
            shutter_equal: bumped_if(self.shutter_equal, shutter == threshold),
            shutter_above: bumped_if(self.shutter_above, shutter > threshold),
            smart_disabled,
            ..self
        }
    }

    pub open spec fn switched(self, disabled: bool, squal: u8, shutter: u16) -> OpticsCounters {
        OpticsCounters {
            smart_disables: bumped_if(self.smart_disables, disabled),
            smart_enables: bumped_if(self.smart_enables, !disabled),
            smart_disabled: disabled,
            smart_last_squal: squal as u32,
            smart_last_shutter: shutter as u32,
            ..self
        }
    }

    pub open spec fn cleared(self) -> OpticsCounters {
        OpticsCounters {
            samples: 0,
            motion_set: 0,
            motion_clear: 0,
            gpio_low_reads: 0,
            gpio_low_zero: 0,
            squal_sum: 0,
            squal_min: u32::MAX,
            squal_max: 0,
            shutter_sum: 0,
            shutter_min: u32::MAX,
            shutter_max: 0,
            shutter_below: 0,
            shutter_equal: 0,
            shutter_above: 0,
            smart_enables: 0,
            smart_disables: 0,
            ..self
        }
    }
}

// The trackball task

#[derive(Clone, Copy, Debug, PartialEq, Eq, Structural)]
pub struct SensorCounters {
    pub reads: u32,
    pub publishes: u32,
    pub errors: u32,
    pub dx: i32,
    pub dy: i32,
    pub accum_dropped_x: u32,
    pub accum_dropped_y: u32,
    pub read_max_us: u32,
    pub read_gap: Gap,
    pub publish_gap: Gap,
    pub motion_wakes: u32,
    pub motion_wait_max_us: u32,
    pub motion_pending_wait_max_us: u32,
    pub fallback_reads: u32,
    pub fallback_hits: u32,
}

impl SensorCounters {
    pub open spec fn cleared(self) -> SensorCounters {
        SensorCounters {
            reads: 0,
            publishes: 0,
            errors: 0,
            dx: 0,
            dy: 0,
            accum_dropped_x: 0,
            accum_dropped_y: 0,
            read_max_us: 0,
            read_gap: self.read_gap.cleared(),
            publish_gap: self.publish_gap.cleared(),
            motion_wakes: 0,
            motion_wait_max_us: 0,
            motion_pending_wait_max_us: 0,
            fallback_reads: 0,
            fallback_hits: 0,
        }
    }
}

#[derive(Clone, Copy, Debug, PartialEq, Eq, Structural)]
pub struct SchedulerCounters {
    pub ticks: u32,
    pub late_max_us: u32,
    pub late_over_5_ms: u32,
}

/// Waits that were long, and the current and longest series of them.
#[derive(Clone, Copy, Debug, PartialEq, Eq, Structural)]
pub struct WaitStreak {
    pub over: u32,
    pub current: u32,
    pub max: u32,
}

impl WaitStreak {
    pub open spec fn recorded(self, long: bool) -> WaitStreak {
        if long {
            WaitStreak {
                over: bumped(self.over, 1),
                current: bumped(self.current, 1),
                max: largest(
                    self.max,
                    if self.current == u32::MAX {
                        u32::MAX
                    } else {
                        (self.current + 1) as u32
                    },
                ),
            }
        } else {
            WaitStreak { current: 0, ..self }
        }
    }

    pub open spec fn cleared(self) -> WaitStreak {
        WaitStreak { over: 0, max: 0, ..self }
    }

    pub(crate) fn record(&mut self, long: bool)
        ensures
            *final(self) == old(self).recorded(long),
    {
        if long {
            self.over = self.over.wrapping_add(1);
            let streak: u32 = self.current.saturating_add(1);
            self.current = self.current.wrapping_add(1);
            self.max = max_of(self.max, streak);
        } else {
            self.current = 0;
        }
    }
}

#[derive(Clone, Copy, Debug, PartialEq, Eq, Structural)]
pub struct SplitTxCounters {
    pub pointing: u32,
    pub errors: u32,
    pub dx: i32,
    pub dy: i32,
    pub max_us: u32,
    pub gap: Gap,
    pub total_us: u32,
    pub wait: WaitStreak,
}

impl SplitTxCounters {
    /// A pointing notification with these totals was sent.
    pub open spec fn pointing_sent(self, x: int, y: int, elapsed_us: u32, now: u32) -> SplitTxCounters {
        SplitTxCounters {
            pointing: bumped(self.pointing, 1),
            errors: self.errors,
            dx: self.dx.wrapping_add(x as i32),
            dy: self.dy.wrapping_add(y as i32),
            max_us: largest(self.max_us, elapsed_us),
            gap: self.gap.recorded(now),
            total_us: bumped(self.total_us, elapsed_us),
            wait: self.wait.recorded(elapsed_us >= WAITING_SPLIT_US),
        }
    }

    pub open spec fn cleared(self) -> SplitTxCounters {
        SplitTxCounters {
            pointing: 0,
            errors: 0,
            dx: 0,
            dy: 0,
            max_us: 0,
            gap: self.gap.cleared(),
            total_us: 0,
            wait: self.wait.cleared(),
        }
    }
}

// The right half

/// The counters of a half that owns a trackball.
#[derive(Clone, Copy, Debug, PartialEq, Eq, Structural)]
pub struct RightDiag {
    pub next_log_ms: u32,
    pub raw: RawCounters,
    pub axes: AxisCounters,
    pub optics: OpticsCounters,
    pub sensor: SensorCounters,
    pub scheduler: SchedulerCounters,
    pub split_tx: SplitTxCounters,
}

/// One log record of the right half: the counters of the interval and what is
/// derived from them.
#[derive(Clone, Copy, Debug, PartialEq, Eq, Structural)]
pub struct RightReport {
    pub counters: RightDiag,
    pub xyh_and: u32,
    pub pre_x_zero: u32,
    pub pre_y_zero: u32,
    pub post_x_zero: u32,
    pub post_y_zero: u32,
    pub squal_min: u32,
    pub squal_avg: u32,
    pub shutter_min: u32,
    pub shutter_avg: u32,
}

/// The average of `samples` values, zero without any.
pub open spec fn average(sum: u32, samples: u32) -> u32 {
    if samples == 0 {
        0
    } else {
        sum / samples
    }
}

pub(crate) fn average_of(sum: u32, samples: u32) -> (result: u32)
    ensures
        result == average(sum, samples),
{
    if samples == 0 {
        0
    } else {
        sum / samples
    }
}

pub open spec fn seen_min(min: u32) -> u32 {
    if min == u32::MAX {
        0
    } else {
        min
    }
}

impl RightDiag {
    pub open spec fn report(self) -> RightReport {
        RightReport {
            counters: self,
            xyh_and: if self.raw.samples == 0 {
                0
            } else {
                self.raw.xyh_and
            },
            pre_x_zero: self.axes.pre_x.zeros(self.axes.samples) as u32,
            pre_y_zero: self.axes.pre_y.zeros(self.axes.samples) as u32,
            post_x_zero: self.axes.post_x.zeros(self.axes.samples) as u32,
            post_y_zero: self.axes.post_y.zeros(self.axes.samples) as u32,
            squal_min: seen_min(self.optics.squal_min),
            squal_avg: average(self.optics.squal_sum, self.optics.samples),
            shutter_min: seen_min(self.optics.shutter_min),
            shutter_avg: average(self.optics.shutter_sum, self.optics.samples),
        }
    }

    /// The counters at the start of a new interval. What was last seen, and
    /// what spans intervals, is kept.
    pub open spec fn cleared(self) -> RightDiag {
        RightDiag {
            next_log_ms: self.next_log_ms,
            raw: self.raw.cleared(),
            axes: self.axes.cleared(),
            optics: self.optics.cleared(),
            sensor: self.sensor.cleared(),
            scheduler: SchedulerCounters { ticks: 0, late_max_us: 0, late_over_5_ms: 0 },
            split_tx: self.split_tx.cleared(),
        }
    }

    /// The counters and the report after the log slot was looked at.
    pub open spec fn logged(self, now: u32) -> (RightDiag, Option<RightReport>) {
        let rest = RightDiag { next_log_ms: slot_after(self.next_log_ms, now), ..self };
        if slot_taken(self.next_log_ms, now) {
            (rest.cleared(), Some(rest.report()))
        } else {
            (rest, None)
        }
    }

    pub open spec fn fresh() -> RightDiag {
        let gap = Gap { last: 0, max: 0 };
        let axis = RawAxis {
            positive: 0,
            negative: 0,
            zero: 0,
            positive_sum: 0,
            negative_abs_sum: 0,
            abs_max: 0,
            near_saturation: 0,
            flips: 0,
            last_sign: 0,
            last_sign_ms: 0,
        };
        let none = SignCounts { positive: 0, negative: 0 };
        RightDiag {
            next_log_ms: 0,
            raw: RawCounters {
                samples: 0,
                motion_set: 0,
                x: axis,
                y: axis,
                xyh_or: 0,
                xyh_and: 0xff,
                xyh_last: 0,
                flip: RawFlip { ms: 0, axis: 0, motion: 0, x_l: 0, y_l: 0, xy_h: 0, dx: 0, dy: 0 },
            },
            axes: AxisCounters {
                samples: 0,
                pre_x: none,
                pre_y: none,
                post_x: none,
                post_y: none,
                pre_x_sum: 0,
                pre_y_sum: 0,
                post_x_sum: 0,
                post_y_sum: 0,
                mismatch: 0,
                last_pre_x: 0,
                last_pre_y: 0,
                last_post_x: 0,
                last_post_y: 0,
            },
            optics: OpticsCounters {
                samples: 0,
                motion_set: 0,
                motion_clear: 0,
                gpio_low_reads: 0,
                gpio_low_zero: 0,
                squal_sum: 0,
                squal_min: u32::MAX,
                squal_max: 0,
                shutter_sum: 0,
                shutter_min: u32::MAX,
                shutter_max: 0,
                shutter_below: 0,
                shutter_equal: 0,
                shutter_above: 0,
                smart_enables: 0,
                smart_disables: 0,
                smart_disabled: false,
                smart_last_squal: 0,
                smart_last_shutter: 0,
            },
            sensor: SensorCounters {
                reads: 0,
                publishes: 0,
                errors: 0,
                dx: 0,
                dy: 0,
                accum_dropped_x: 0,
                accum_dropped_y: 0,
                read_max_us: 0,
                read_gap: gap,
                publish_gap: gap,
                motion_wakes: 0,
                motion_wait_max_us: 0,
                motion_pending_wait_max_us: 0,
                fallback_reads: 0,
                fallback_hits: 0,
            },
            scheduler: SchedulerCounters { ticks: 0, late_max_us: 0, late_over_5_ms: 0 },
            split_tx: SplitTxCounters {
                pointing: 0,
                errors: 0,
                dx: 0,
                dy: 0,
                max_us: 0,
                gap,
                total_us: 0,
                wait: WaitStreak { over: 0, current: 0, max: 0 },
            },
        }
    }

    pub fn new() -> (diag: RightDiag)
        ensures
            diag == RightDiag::fresh(),
    {
        let gap = Gap { last: 0, max: 0 };
        let axis = RawAxis {
            positive: 0,
            negative: 0,
            zero: 0,
            positive_sum: 0,
            negative_abs_sum: 0,
            abs_max: 0,
            near_saturation: 0,
            flips: 0,
            last_sign: 0,
            last_sign_ms: 0,
        };
        let none = SignCounts { positive: 0, negative: 0 };
        RightDiag {
            next_log_ms: 0,
            raw: RawCounters {
                samples: 0,
                motion_set: 0,
                x: axis,
                y: axis,
                xyh_or: 0,
                xyh_and: 0xff,
                xyh_last: 0,
                flip: RawFlip { ms: 0, axis: 0, motion: 0, x_l: 0, y_l: 0, xy_h: 0, dx: 0, dy: 0 },
            },
            axes: AxisCounters {
                samples: 0,
                pre_x: none,
                pre_y: none,
                post_x: none,
                post_y: none,
                pre_x_sum: 0,
                pre_y_sum: 0,
                post_x_sum: 0,
                post_y_sum: 0,
                mismatch: 0,
                last_pre_x: 0,
                last_pre_y: 0,
                last_post_x: 0,
                last_post_y: 0,
            },
            optics: OpticsCounters {
                samples: 0,
                motion_set: 0,
                motion_clear: 0,
                gpio_low_reads: 0,
                gpio_low_zero: 0,
                squal_sum: 0,
                squal_min: u32::MAX,
                squal_max: 0,
                shutter_sum: 0,
                shutter_min: u32::MAX,
                shutter_max: 0,
                shutter_below: 0,
                shutter_equal: 0,
                shutter_above: 0,
                smart_enables: 0,
                smart_disables: 0,
                smart_disabled: false,
                smart_last_squal: 0,
                smart_last_shutter: 0,
            },
            sensor: SensorCounters {
                reads: 0,
                publishes: 0,
                errors: 0,
                dx: 0,
                dy: 0,
                accum_dropped_x: 0,
                accum_dropped_y: 0,
                read_max_us: 0,
                read_gap: gap,
                publish_gap: gap,
                motion_wakes: 0,
                motion_wait_max_us: 0,
                motion_pending_wait_max_us: 0,
                fallback_reads: 0,
                fallback_hits: 0,
            },
            scheduler: SchedulerCounters { ticks: 0, late_max_us: 0, late_over_5_ms: 0 },
            split_tx: SplitTxCounters {
                pointing: 0,
                errors: 0,
                dx: 0,
                dy: 0,
                max_us: 0,
                gap,
                total_us: 0,
                wait: WaitStreak { over: 0, current: 0, max: 0 },
            },
        }
    }

    fn make_report(&self) -> (report: RightReport)
        ensures
            report == self.report(),
    {
        RightReport {
            counters: *self,
            xyh_and: if self.raw.samples == 0 {
                0
            } else {
                self.raw.xyh_and
            },
            pre_x_zero: self.axes.pre_x.zero_count(self.axes.samples),
            pre_y_zero: self.axes.pre_y.zero_count(self.axes.samples),
            post_x_zero: self.axes.post_x.zero_count(self.axes.samples),
            post_y_zero: self.axes.post_y.zero_count(self.axes.samples),
            squal_min: if self.optics.squal_min == u32::MAX {
                0
            } else {
                self.optics.squal_min
            },
            squal_avg: average_of(self.optics.squal_sum, self.optics.samples),
            shutter_min: if self.optics.shutter_min == u32::MAX {
                0
            } else {
                self.optics.shutter_min
            },
            shutter_avg: average_of(self.optics.shutter_sum, self.optics.samples),
        }
    }

    /// Takes the report of the interval where it is due, and starts a new
    /// interval.
    pub fn maybe_log_right(&mut self, now: u32) -> (report: Option<RightReport>)
        ensures
            (*final(self), report) == old(self).logged(now),
    {
        if !take_log_slot(&mut self.next_log_ms, now) {
            return None;
        }
        let report = self.make_report();
        let kept = *self;
        let mut next = RightDiag::new();
        next.next_log_ms = kept.next_log_ms;
        next.raw.x.last_sign = kept.raw.x.last_sign;
        next.raw.x.last_sign_ms = kept.raw.x.last_sign_ms;
        next.raw.y.last_sign = kept.raw.y.last_sign;
        next.raw.y.last_sign_ms = kept.raw.y.last_sign_ms;
        next.raw.xyh_last = kept.raw.xyh_last;
        next.raw.flip = kept.raw.flip;
        next.raw.flip.ms = 0;
        next.axes.last_pre_x = kept.axes.last_pre_x;
        next.axes.last_pre_y = kept.axes.last_pre_y;
        next.axes.last_post_x = kept.axes.last_post_x;
        next.axes.last_post_y = kept.axes.last_post_y;
        next.optics.smart_disabled = kept.optics.smart_disabled;
        next.optics.smart_last_squal = kept.optics.smart_last_squal;
        next.optics.smart_last_shutter = kept.optics.smart_last_shutter;
        next.sensor.read_gap.last = kept.sensor.read_gap.last;
        next.sensor.publish_gap.last = kept.sensor.publish_gap.last;
        next.split_tx.gap.last = kept.split_tx.gap.last;
        next.split_tx.wait.current = kept.split_tx.wait.current;
        *self = next;
        Some(report)
    }

    // What each recording makes of the counters.

    pub open spec fn read_recorded(
        self,
        dx: i16,
        dy: i16,
        elapsed_us: u32,
        gpio_low: bool,
        now: u32,
    ) -> RightDiag {
        RightDiag {
            sensor: SensorCounters {
                reads: bumped(self.sensor.reads, 1),
                dx: self.sensor.dx.wrapping_add(dx as i32),
                dy: self.sensor.dy.wrapping_add(dy as i32),
                read_max_us: largest(self.sensor.read_max_us, elapsed_us),
                read_gap: self.sensor.read_gap.recorded(now),
                ..self.sensor
            },
            optics: OpticsCounters {
                gpio_low_reads: bumped_if(self.optics.gpio_low_reads, gpio_low),
                gpio_low_zero: bumped_if(
                    self.optics.gpio_low_zero,
                    gpio_low && dx == 0 && dy == 0,
                ),
                ..self.optics
            },
            ..self
        }
    }

    pub open spec fn tick_recorded(self, late_us: u32) -> RightDiag {
        RightDiag {
            scheduler: SchedulerCounters {
                ticks: bumped(self.scheduler.ticks, 1),
                late_max_us: largest(self.scheduler.late_max_us, late_us),
                late_over_5_ms: bumped_if(self.scheduler.late_over_5_ms, late_us >= LATE_TICK_US),
            },
            ..self
        }
    }

    pub open spec fn error_recorded(self) -> RightDiag {
        RightDiag {
            sensor: SensorCounters { errors: bumped(self.sensor.errors, 1), ..self.sensor },
            ..self
        }
    }

    pub open spec fn publish_recorded(self, now: u32) -> RightDiag {
        RightDiag {
            sensor: SensorCounters {
                publishes: bumped(self.sensor.publishes, 1),
                publish_gap: self.sensor.publish_gap.recorded(now),
                ..self.sensor
            },
            ..self
        }
    }

    pub open spec fn split_tx_recorded(
        self,
        pointing: Option<&PointingEvent>,
        elapsed_us: u32,
        ok: bool,
        now: u32,
    ) -> RightDiag {
        let sent = match pointing {
            Some(event) => self.split_tx.pointing_sent(
                axis_total(event.axes@, Axis::X),
                axis_total(event.axes@, Axis::Y),
                elapsed_us,
                now,
            ),
            None => self.split_tx,
        };
        RightDiag {
            split_tx: SplitTxCounters { errors: bumped_if(sent.errors, !ok), ..sent },
            ..self
        }
    }
}

/// `record_pmw_read` at a given clock reading.
pub fn record_pmw_read_at(
    diag: &mut RightDiag,
    dx: i16,
    dy: i16,
    elapsed_us: u32,
    gpio_low: bool,
    now: u32,
) -> (report: Option<RightReport>)
    ensures
        (*final(diag), report) == old(diag).read_recorded(
            dx,
            dy,
            elapsed_us,
            gpio_low,
            now,
        ).logged(now),
{
    diag.sensor.reads = diag.sensor.reads.wrapping_add(1);
    diag.sensor.dx = add_i32(diag.sensor.dx, dx);
    diag.sensor.dy = add_i32(diag.sensor.dy, dy);
    diag.sensor.read_max_us = max_of(diag.sensor.read_max_us, elapsed_us);
    diag.sensor.read_gap.record_bounded_gap(now);
    if gpio_low {
        diag.optics.gpio_low_reads = diag.optics.gpio_low_reads.wrapping_add(1);
        if dx == 0 && dy == 0 {
            diag.optics.gpio_low_zero = diag.optics.gpio_low_zero.wrapping_add(1);
        }
    }
    diag.maybe_log_right(now)
}

/// Record one successful PMW3610 read on a K:04 half.
pub fn record_pmw_read(
    diag: &mut RightDiag,
    dx: i16,
    dy: i16,
    elapsed_us: u32,
    gpio_low: bool,
) -> (report: Option<RightReport>)
    ensures
        exists|now: u32|
            (*final(diag), report) == (#[trigger] old(diag).read_recorded(
                dx,
                dy,
                elapsed_us,
                gpio_low,
                now,
            )).logged(now),
{
    let now: u32 = now_ms();
    record_pmw_read_at(diag, dx, dy, elapsed_us, gpio_low, now)
}

/// `record_pmw_raw` at a given clock reading.
pub fn record_pmw_raw_at(diag: &mut RightDiag, sample: &RawSample, now: u32)
    ensures
        *final(diag) == (RightDiag { raw: old(diag).raw.recorded(*sample, now), ..*old(diag) }),
{
    diag.raw.record(sample, now);
}

/// Record the exact PMW3610 motion-burst delta bytes and decoded signs.
///
/// This distinguishes optical direction reversal from a lost sign bit in the
/// shared DELTA_XY_H byte. Only strong deltas contribute to sign-flip counters,
/// so small cross-axis noise does not dominate them.
pub fn record_pmw_raw(
    diag: &mut RightDiag,
    motion: u8,
    x_l: u8,
    y_l: u8,
    xy_h: u8,
    dx: i16,
    dy: i16,
)
    ensures
        exists|now: u32|
            *final(diag) == (RightDiag {
                raw: #[trigger] old(diag).raw.recorded(
                    RawSample { motion, x_l, y_l, xy_h, dx, dy },
                    now,
                ),
                ..*old(diag)
            }),
{
    let now: u32 = now_ms();
    let sample = RawSample { motion, x_l, y_l, xy_h, dx, dy };
    record_pmw_raw_at(diag, &sample, now);
}

/// Record the native PMW deltas and the exact values sent into the K:04
/// pointing pipeline after the software X/Y swap.
pub fn record_pmw_axis_transform(
    diag: &mut RightDiag,
    pre_x: i16,
    pre_y: i16,
    post_x: i16,
    post_y: i16,
)
    ensures
        *final(diag) == (RightDiag {
            axes: old(diag).axes.recorded(pre_x, pre_y, post_x, post_y),
            ..*old(diag)
        }),
{
    diag.axes.samples = diag.axes.samples.wrapping_add(1);
    diag.axes.pre_x.record_axis_sign(pre_x);
    diag.axes.pre_y.record_axis_sign(pre_y);
    diag.axes.post_x.record_axis_sign(post_x);
    diag.axes.post_y.record_axis_sign(post_y);
    diag.axes.pre_x_sum = add_i32(diag.axes.pre_x_sum, pre_x);
    diag.axes.pre_y_sum = add_i32(diag.axes.pre_y_sum, pre_y);
    diag.axes.post_x_sum = add_i32(diag.axes.post_x_sum, post_x);
    diag.axes.post_y_sum = add_i32(diag.axes.post_y_sum, post_y);
    if post_x != pre_y || post_y != pre_x {
        diag.axes.mismatch = diag.axes.mismatch.wrapping_add(1);
    }
    diag.axes.last_pre_x = pre_x as i32;
    diag.axes.last_pre_y = pre_y as i32;
    diag.axes.last_post_x = post_x as i32;
    diag.axes.last_post_y = post_y as i32;
}

/// Record raw optical-quality fields from every smart-mode motion burst,
/// including bursts whose MOTION bit is clear. This makes shiny-surface
/// tracking loss visible before the driver returns a zero delta.
pub fn record_pmw_optics(
    diag: &mut RightDiag,
    motion_set: bool,
    squal: u8,
    shutter: u16,
    threshold: u16,
    smart_disabled: bool,
)
    ensures
        *final(diag) == (RightDiag {
            optics: old(diag).optics.recorded(
                motion_set,
                squal,
                shutter,
                threshold,
                smart_disabled,
            ),
            ..*old(diag)
        }),
{
    diag.optics.samples = diag.optics.samples.wrapping_add(1);
    if motion_set {
        diag.optics.motion_set = diag.optics.motion_set.wrapping_add(1);
    } else {
        diag.optics.motion_clear = diag.optics.motion_clear.wrapping_add(1);
    }
    let wide_squal: u32 = squal as u32;
    let wide_shutter: u32 = shutter as u32;
    diag.optics.squal_sum = diag.optics.squal_sum.wrapping_add(wide_squal);
    diag.optics.squal_min = min_of(diag.optics.squal_min, wide_squal);
    diag.optics.squal_max = max_of(diag.optics.squal_max, wide_squal);
    diag.optics.shutter_sum = diag.optics.shutter_sum.wrapping_add(wide_shutter);
    diag.optics.shutter_min = min_of(diag.optics.shutter_min, wide_shutter);
    diag.optics.shutter_max = max_of(diag.optics.shutter_max, wide_shutter);
    if shutter < threshold {
        diag.optics.shutter_below = diag.optics.shutter_below.wrapping_add(1);
    } else if shutter == threshold {
        diag.optics.shutter_equal = diag.optics.shutter_equal.wrapping_add(1);
    } else {
        diag.optics.shutter_above = diag.optics.shutter_above.wrapping_add(1);
    }
    diag.optics.smart_disabled = smart_disabled;
}

/// Record a successful write that changed the PMW3610 smart-mode register.
pub fn record_pmw_smart_transition(diag: &mut RightDiag, disabled: bool, squal: u8, shutter: u16)
    ensures
        *final(diag) == (RightDiag {
            optics: old(diag).optics.switched(disabled, squal, shutter),
            ..*old(diag)
        }),
{
    if disabled {
        diag.optics.smart_disables = diag.optics.smart_disables.wrapping_add(1);
    } else {
        diag.optics.smart_enables = diag.optics.smart_enables.wrapping_add(1);
    }
    diag.optics.smart_disabled = disabled;
    diag.optics.smart_last_squal = squal as u32;
    diag.optics.smart_last_shutter = shutter as u32;
}

/// Record how long the trackball task waited for MOTION/deadline selection.
/// `pending_at_arm` distinguishes an already-low MOTION pin from a sensor that
/// had not asserted motion when the wait began.
pub fn record_motion_wake(diag: &mut RightDiag, wait_us: u32, pending_at_arm: bool)
    ensures
        *final(diag) == (RightDiag {
            sensor: SensorCounters {
                motion_wakes: bumped(old(diag).sensor.motion_wakes, 1),
                motion_wait_max_us: largest(old(diag).sensor.motion_wait_max_us, wait_us),
                motion_pending_wait_max_us: if pending_at_arm {
                    largest(old(diag).sensor.motion_pending_wait_max_us, wait_us)
                } else {
                    old(diag).sensor.motion_pending_wait_max_us
                },
                ..old(diag).sensor
            },
            ..*old(diag)
        }),
{
    diag.sensor.motion_wakes = diag.sensor.motion_wakes.wrapping_add(1);
    diag.sensor.motion_wait_max_us = max_of(diag.sensor.motion_wait_max_us, wait_us);
    if pending_at_arm {
        diag.sensor.motion_pending_wait_max_us = max_of(
            diag.sensor.motion_pending_wait_max_us,
            wait_us,
        );
    }
}

/// Record a timer-forced sensor read while MOTION was not asserted. A hit
/// means polling recovered non-zero movement that the GPIO path did not wake.
pub fn record_pmw_fallback(diag: &mut RightDiag, dx: i16, dy: i16)
    ensures
        *final(diag) == (RightDiag {
            sensor: SensorCounters {
                fallback_reads: bumped(old(diag).sensor.fallback_reads, 1),
                fallback_hits: bumped_if(old(diag).sensor.fallback_hits, dx != 0 || dy != 0),
                ..old(diag).sensor
            },
            ..*old(diag)
        }),
{
    diag.sensor.fallback_reads = diag.sensor.fallback_reads.wrapping_add(1);
    if dx != 0 || dy != 0 {
        diag.sensor.fallback_hits = diag.sensor.fallback_hits.wrapping_add(1);
    }
}

/// `record_scheduler_tick` at a given clock reading.
pub fn record_scheduler_tick_at(diag: &mut RightDiag, late_us: u32, now: u32) -> (report: Option<
    RightReport,
>)
    ensures
        (*final(diag), report) == old(diag).tick_recorded(late_us).logged(now),
{
    diag.scheduler.ticks = diag.scheduler.ticks.wrapping_add(1);
    diag.scheduler.late_max_us = max_of(diag.scheduler.late_max_us, late_us);
    if late_us >= LATE_TICK_US {
        diag.scheduler.late_over_5_ms = diag.scheduler.late_over_5_ms.wrapping_add(1);
    }
    diag.maybe_log_right(now)
}

/// Record lateness of an independent timer task used as an executor heartbeat.
pub fn record_scheduler_tick(diag: &mut RightDiag, late_us: u32) -> (report: Option<RightReport>)
    ensures
        exists|now: u32|
            (*final(diag), report) == #[trigger] old(diag).tick_recorded(late_us).logged(now),
{
    let now: u32 = now_ms();
    record_scheduler_tick_at(diag, late_us, now)
}

/// `record_pmw_error` at a given clock reading.
pub fn record_pmw_error_at(diag: &mut RightDiag, now: u32) -> (report: Option<RightReport>)
    ensures
        (*final(diag), report) == old(diag).error_recorded().logged(now),
{
    diag.sensor.errors = diag.sensor.errors.wrapping_add(1);
    diag.maybe_log_right(now)
}

/// Record one PMW3610 read failure.
pub fn record_pmw_error(diag: &mut RightDiag) -> (report: Option<RightReport>)
    ensures
        exists|now: u32|
            (*final(diag), report) == #[trigger] old(diag).error_recorded().logged(now),
{
    let now: u32 = now_ms();
    record_pmw_error_at(diag, now)
}

/// `record_pmw_publish` at a given clock reading.
pub fn record_pmw_publish_at(diag: &mut RightDiag, now: u32) -> (report: Option<RightReport>)
    ensures
        (*final(diag), report) == old(diag).publish_recorded(now).logged(now),
{
    diag.sensor.publishes = diag.sensor.publishes.wrapping_add(1);
    diag.sensor.publish_gap.record_bounded_gap(now);
    diag.maybe_log_right(now)
}

/// Record one PointingEvent published by the K:04 trackball task.
pub fn record_pmw_publish(diag: &mut RightDiag) -> (report: Option<RightReport>)
    ensures
        exists|now: u32|
            (*final(diag), report) == (#[trigger] old(diag).publish_recorded(now)).logged(now),
{
    let now: u32 = now_ms();
    record_pmw_publish_at(diag, now)
}

/// Record motion that could not fit in the widened trackball accumulator.
/// These counters are exact discarded relative counts, not HID chunking.
pub fn record_pmw_accum_drop(diag: &mut RightDiag, dropped_x: u32, dropped_y: u32)
    ensures
        *final(diag) == (RightDiag {
            sensor: SensorCounters {
                accum_dropped_x: bumped(old(diag).sensor.accum_dropped_x, dropped_x),
                accum_dropped_y: bumped(old(diag).sensor.accum_dropped_y, dropped_y),
                ..old(diag).sensor
            },
            ..*old(diag)
        }),
{
    diag.sensor.accum_dropped_x = diag.sensor.accum_dropped_x.wrapping_add(dropped_x);
    diag.sensor.accum_dropped_y = diag.sensor.accum_dropped_y.wrapping_add(dropped_y);
}

/// `record_split_tx` at a given clock reading.
pub fn record_split_tx_at(
    diag: &mut RightDiag,
    pointing: Option<&PointingEvent>,
    elapsed_us: u32,
    ok: bool,
    now: u32,
) -> (report: Option<RightReport>)
    ensures
        (*final(diag), report) == old(diag).split_tx_recorded(
            pointing,
            elapsed_us,
            ok,
            now,
        ).logged(now),
{
    if let Some(event) = pointing {
        let (x, y) = axis_totals(event);
        diag.split_tx.pointing = diag.split_tx.pointing.wrapping_add(1);
        diag.split_tx.dx = add_i32(diag.split_tx.dx, x);
        diag.split_tx.dy = add_i32(diag.split_tx.dy, y);
        diag.split_tx.max_us = max_of(diag.split_tx.max_us, elapsed_us);
        diag.split_tx.total_us = diag.split_tx.total_us.wrapping_add(elapsed_us);
        diag.split_tx.gap.record_bounded_gap(now);
        diag.split_tx.wait.record(elapsed_us >= WAITING_SPLIT_US);
    }
    if !ok {
        diag.split_tx.errors = diag.split_tx.errors.wrapping_add(1);
    }
    diag.maybe_log_right(now)
}

/// Record completion of a peripheral-to-central BLE split notification, with
/// the pointing event where it carried one.
pub fn record_split_tx(
    diag: &mut RightDiag,
    pointing: Option<&PointingEvent>,
    elapsed_us: u32,
    ok: bool,
) -> (report: Option<RightReport>)
    ensures
        exists|now: u32|
            (*final(diag), report) == (#[trigger] old(diag).split_tx_recorded(
                pointing,
                elapsed_us,
                ok,
                now,
            )).logged(now),
{
    let now: u32 = now_ms();
    record_split_tx_at(diag, pointing, elapsed_us, ok, now)
}

/// A report hands out every count of its interval, and the next interval starts
/// from zero: no recorded movement is reported twice or lost.
pub proof fn law_report_starts_a_new_interval(diag: RightDiag, now: u32)
    requires
        slot_taken(diag.next_log_ms, now),
    ensures
        diag.logged(now).1 is Some,
        ({
            let reported = diag.logged(now).1->0.counters;
            let rest = diag.logged(now).0;
            &&& reported.sensor == diag.sensor
            &&& reported.raw == diag.raw
            &&& reported.axes == diag.axes
            &&& reported.optics == diag.optics
            &&& reported.split_tx == diag.split_tx
            &&& reported.scheduler == diag.scheduler
            &&& rest.sensor.dx == 0 && rest.sensor.dy == 0 && rest.sensor.reads == 0
            &&& rest.split_tx.dx == 0 && rest.split_tx.dy == 0 && rest.split_tx.pointing == 0
        }),
{
}

} // verus!
