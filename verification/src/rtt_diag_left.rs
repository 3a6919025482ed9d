//! Low-rate RTT diagnostics of the half that serves the host: split reception,
//! the HID queue and the BLE HID writer.

use vstd::prelude::*;

use crate::hid::Report;
use crate::pointing::{Axis, PointingEvent};
use crate::rtt_diag::{
    add_i32, average_of, axis_totals, max_of, now_ms, now_us, take_log_slot, Gap, WaitStreak,
    MAX_RELEVANT_GAP_US, SLOW_GATT_US, WAITING_GATT_US,
};

verus! {

#[derive(Clone, Copy, Debug, PartialEq, Eq, Structural)]
pub struct SplitRxCounters {
    pub pointing: u32,
    pub dx: i32,
    pub dy: i32,
    pub gap: Gap,
}

#[derive(Clone, Copy, Debug, PartialEq, Eq, Structural)]
pub struct EnqueueCounters {
    pub all: u32,
    pub mouse: u32,
    pub full: u32,
    pub aborted: u32,
    pub max_wait_us: u32,
}

/// The age of mouse motion when its report reached the host.
#[derive(Clone, Copy, Debug, PartialEq, Eq, Structural)]
pub struct AgeCounters {
    pub samples: u32,
    pub total_us: u32,
    pub max_us: u32,
    pub over_15_ms: u32,
    pub over_30_ms: u32,
    pub over_100_ms: u32,
}

impl AgeCounters {
    pub open spec fn recorded(self, age_us: u32) -> AgeCounters {
        AgeCounters {
            samples: crate::rtt_diag::bumped(self.samples, 1),
            total_us: crate::rtt_diag::bumped(self.total_us, age_us),
            max_us: crate::rtt_diag::largest(self.max_us, age_us),
            over_15_ms: crate::rtt_diag::bumped_if(self.over_15_ms, age_us >= 15_000),
            over_30_ms: crate::rtt_diag::bumped_if(self.over_30_ms, age_us >= 30_000),
            over_100_ms: crate::rtt_diag::bumped_if(self.over_100_ms, age_us >= 100_000),
        }
    }

    fn record(&mut self, age_us: u32)
        ensures
            *final(self) == old(self).recorded(age_us),
    {
        self.samples = self.samples.wrapping_add(1);
        self.total_us = self.total_us.wrapping_add(age_us);
        self.max_us = max_of(self.max_us, age_us);
        if age_us >= 15_000 {
            self.over_15_ms = self.over_15_ms.wrapping_add(1);
        }
        if age_us >= 30_000 {
            self.over_30_ms = self.over_30_ms.wrapping_add(1);
        }
        if age_us >= 100_000 {
            self.over_100_ms = self.over_100_ms.wrapping_add(1);
        }
    }
}

#[derive(Clone, Copy, Debug, PartialEq, Eq, Structural)]
pub struct WriteCounters {
    pub all: u32,
    pub mouse: u32,
    pub errors: u32,
    pub slow: u32,
    pub max_us: u32,
    pub dx: i32,
    pub dy: i32,
    pub source_reports: u32,
    pub age: AgeCounters,
    pub last_mouse_us: u32,
    pub mouse_gap_max_us: u32,
    pub total_us: u32,
    pub wait: WaitStreak,
}

impl WriteCounters {
    /// A mouse report was written at `now_us`.
    pub open spec fn mouse_written(
        self,
        x: i8,
        y: i8,
        motion_age_us: u32,
        source_reports: u32,
        now_us: u32,
    ) -> WriteCounters {
        let gap = now_us.wrapping_sub(self.last_mouse_us);
        WriteCounters {
            mouse: crate::rtt_diag::bumped(self.mouse, 1),
            dx: self.dx.wrapping_add(x as i32),
            dy: self.dy.wrapping_add(y as i32),
            source_reports: crate::rtt_diag::bumped(self.source_reports, source_reports),
            age: self.age.recorded(motion_age_us),
            last_mouse_us: now_us,
            mouse_gap_max_us: if self.last_mouse_us != 0 && gap <= MAX_RELEVANT_GAP_US {
                crate::rtt_diag::largest(self.mouse_gap_max_us, gap)
            } else {
                self.mouse_gap_max_us
            },
            ..self
        }
    }

    /// A notification of any report took `elapsed_us`.
    pub open spec fn written(self, elapsed_us: u32, ok: bool) -> WriteCounters {
        WriteCounters {
            all: crate::rtt_diag::bumped(self.all, 1),
            errors: crate::rtt_diag::bumped_if(self.errors, !ok),
            slow: crate::rtt_diag::bumped_if(self.slow, elapsed_us >= SLOW_GATT_US),
            max_us: crate::rtt_diag::largest(self.max_us, elapsed_us),
            total_us: crate::rtt_diag::bumped(self.total_us, elapsed_us),
            wait: self.wait.recorded(elapsed_us >= WAITING_GATT_US),
            ..self
        }
    }

    fn record_mouse(
        &mut self,
        x: i8,
        y: i8,
        motion_age_us: u32,
        source_reports: u32,
        now_us: u32,
    )
        ensures
            *final(self) == old(self).mouse_written(x, y, motion_age_us, source_reports, now_us),
    {
        self.mouse = self.mouse.wrapping_add(1);
        self.dx = add_i32(self.dx, x as i16);
        self.dy = add_i32(self.dy, y as i16);
        self.source_reports = self.source_reports.wrapping_add(source_reports);
        self.age.record(motion_age_us);
        let previous: u32 = self.last_mouse_us;
        self.last_mouse_us = now_us;
        if previous != 0 {
            let gap: u32 = now_us.wrapping_sub(previous);
            if gap <= MAX_RELEVANT_GAP_US {
                self.mouse_gap_max_us = max_of(self.mouse_gap_max_us, gap);
            }
        }
    }

    fn record_any(&mut self, elapsed_us: u32, ok: bool)
        ensures
            *final(self) == old(self).written(elapsed_us, ok),
    {
        self.all = self.all.wrapping_add(1);
        if !ok {
            self.errors = self.errors.wrapping_add(1);
        }
        if elapsed_us >= SLOW_GATT_US {
            self.slow = self.slow.wrapping_add(1);
        }
        self.max_us = max_of(self.max_us, elapsed_us);
        self.total_us = self.total_us.wrapping_add(elapsed_us);
        self.wait.record(elapsed_us >= WAITING_GATT_US);
    }
}

#[derive(Clone, Copy, Debug, PartialEq, Eq, Structural)]
pub struct CoalesceCounters {
    pub merged: u32,
    pub split_chunks: u32,
    pub clip_x_pos: u32,
    pub clip_x_neg: u32,
    pub clip_y_pos: u32,
    pub clip_y_neg: u32,
    pub residual_x_max: u32,
    pub residual_y_max: u32,
    pub slot_waits: u32,
    pub slot_wait_max_us: u32,
}

pub open spec fn wide_magnitude(value: i32) -> u32 {
    (if value < 0 {
        -value
    } else {
        value as int
    }) as u32
}

fn wide_abs(value: i32) -> (result: u32)
    ensures
        result == wide_magnitude(value),
{
    if value < 0 {
        (-(value as i64)) as u32
    } else {
        value as u32
    }
}

impl CoalesceCounters {
    pub open spec fn recorded(
        self,
        merged_reports: u32,
        has_residual: bool,
        input_x: i32,
        input_y: i32,
        residual_x: i32,
        residual_y: i32,
    ) -> CoalesceCounters {
        CoalesceCounters {
            merged: crate::rtt_diag::bumped(self.merged, merged_reports),
            split_chunks: crate::rtt_diag::bumped_if(self.split_chunks, has_residual),
            clip_x_pos: crate::rtt_diag::bumped_if(self.clip_x_pos, input_x > i8::MAX),
            clip_x_neg: crate::rtt_diag::bumped_if(self.clip_x_neg, input_x < i8::MIN),
            clip_y_pos: crate::rtt_diag::bumped_if(self.clip_y_pos, input_y > i8::MAX),
            clip_y_neg: crate::rtt_diag::bumped_if(self.clip_y_neg, input_y < i8::MIN),
            residual_x_max: crate::rtt_diag::largest(
                self.residual_x_max,
                wide_magnitude(residual_x),
            ),
            residual_y_max: crate::rtt_diag::largest(
                self.residual_y_max,
                wide_magnitude(residual_y),
            ),
            ..self
        }
    }
}

/// The counters of the half that serves the host.
#[derive(Clone, Copy, Debug, PartialEq, Eq, Structural)]
pub struct LeftDiag {
    pub next_log_ms: u32,
    pub split_rx: SplitRxCounters,
    pub enqueue: EnqueueCounters,
    pub queue_high_water: u32,
    pub write: WriteCounters,
    pub coalesce: CoalesceCounters,
}

/// One log record: the counters of the interval, the current length of the BLE
/// queue and the average age of mouse motion.
#[derive(Clone, Copy, Debug, PartialEq, Eq, Structural)]
pub struct LeftReport {
    pub counters: LeftDiag,
    pub queue_len: u32,
    pub mouse_age_avg_us: u32,
}

impl LeftDiag {
    pub open spec fn fresh() -> LeftDiag {
        LeftDiag {
            next_log_ms: 0,
            split_rx: SplitRxCounters { pointing: 0, dx: 0, dy: 0, gap: Gap { last: 0, max: 0 } },
            enqueue: EnqueueCounters { all: 0, mouse: 0, full: 0, aborted: 0, max_wait_us: 0 },
            queue_high_water: 0,
            write: WriteCounters {
                all: 0,
                mouse: 0,
                errors: 0,
                slow: 0,
                max_us: 0,
                dx: 0,
                dy: 0,
                source_reports: 0,
                age: AgeCounters {
                    samples: 0,
                    total_us: 0,
                    max_us: 0,
                    over_15_ms: 0,
                    over_30_ms: 0,
                    over_100_ms: 0,
                },
                last_mouse_us: 0,
                mouse_gap_max_us: 0,
                total_us: 0,
                wait: WaitStreak { over: 0, current: 0, max: 0 },
            },
            coalesce: CoalesceCounters {
                merged: 0,
                split_chunks: 0,
                clip_x_pos: 0,
                clip_x_neg: 0,
                clip_y_pos: 0,
                clip_y_neg: 0,
                residual_x_max: 0,
                residual_y_max: 0,
                slot_waits: 0,
                slot_wait_max_us: 0,
            },
        }
    }

    /// The counters at the start of a new interval: only what spans intervals
    /// is kept.
    pub open spec fn cleared(self) -> LeftDiag {
        let fresh = LeftDiag::fresh();
        LeftDiag {
            next_log_ms: self.next_log_ms,
            split_rx: SplitRxCounters { gap: self.split_rx.gap.cleared(), ..fresh.split_rx },
            write: WriteCounters {
                last_mouse_us: self.write.last_mouse_us,
                wait: self.write.wait.cleared(),
                ..fresh.write
            },
            ..fresh
        }
    }

    /// The counters and the report after the log slot was looked at, with the
    /// length that the BLE queue has now.
    pub open spec fn logged(self, now: u32, queue_len: u32) -> (LeftDiag, Option<LeftReport>) {
        let rest = LeftDiag {
            next_log_ms: crate::rtt_diag::slot_after(self.next_log_ms, now),
            ..self
        };
        if crate::rtt_diag::slot_taken(self.next_log_ms, now) {
            (
                rest.cleared(),
                Some(
                    LeftReport {
                        counters: rest,
                        queue_len,
                        mouse_age_avg_us: crate::rtt_diag::average(
                            rest.write.age.total_us,
                            rest.write.age.samples,
                        ),
                    },
                ),
            )
        } else {
            (rest, None)
        }
    }

    pub fn new() -> (diag: LeftDiag)
        ensures
            diag == LeftDiag::fresh(),
    {
        LeftDiag {
            next_log_ms: 0,
            split_rx: SplitRxCounters { pointing: 0, dx: 0, dy: 0, gap: Gap { last: 0, max: 0 } },
            enqueue: EnqueueCounters { all: 0, mouse: 0, full: 0, aborted: 0, max_wait_us: 0 },
            queue_high_water: 0,
            write: WriteCounters {
                all: 0,
                mouse: 0,
                errors: 0,
                slow: 0,
                max_us: 0,
                dx: 0,
                dy: 0,
                source_reports: 0,
                age: AgeCounters {
                    samples: 0,
                    total_us: 0,
                    max_us: 0,
                    over_15_ms: 0,
                    over_30_ms: 0,
                    over_100_ms: 0,
                },
                last_mouse_us: 0,
                mouse_gap_max_us: 0,
                total_us: 0,
                wait: WaitStreak { over: 0, current: 0, max: 0 },
            },
            coalesce: CoalesceCounters {
                merged: 0,
                split_chunks: 0,
                clip_x_pos: 0,
                clip_x_neg: 0,
                clip_y_pos: 0,
                clip_y_neg: 0,
                residual_x_max: 0,
                residual_y_max: 0,
                slot_waits: 0,
                slot_wait_max_us: 0,
            },
        }
    }

    /// Takes the report of the interval where it is due, and starts a new
    /// interval.
    pub fn maybe_log_left(&mut self, now: u32, queue_len: u32) -> (report: Option<LeftReport>)
        ensures
            (*final(self), report) == old(self).logged(now, queue_len),
    {
        if !take_log_slot(&mut self.next_log_ms, now) {
            return None;
        }
        let kept = *self;
        let mut next = LeftDiag::new();
        next.next_log_ms = kept.next_log_ms;
        next.split_rx.gap.last = kept.split_rx.gap.last;
        next.write.last_mouse_us = kept.write.last_mouse_us;
        next.write.wait.current = kept.write.wait.current;
        *self = next;
        Some(
            LeftReport {
                counters: kept,
                queue_len,
                mouse_age_avg_us: average_of(kept.write.age.total_us, kept.write.age.samples),
            },
        )
    }

    // What each recording makes of the counters.

    pub open spec fn split_rx_recorded(self, event: PointingEvent, now: u32) -> LeftDiag {
        LeftDiag {
            split_rx: SplitRxCounters {
                pointing: crate::rtt_diag::bumped(self.split_rx.pointing, 1),
                dx: self.split_rx.dx.wrapping_add(
                    crate::rtt_diag::axis_total(event.axes@, Axis::X) as i32,
                ),
                dy: self.split_rx.dy.wrapping_add(
                    crate::rtt_diag::axis_total(event.axes@, Axis::Y) as i32,
                ),
                gap: self.split_rx.gap.recorded(now),
            },
            ..self
        }
    }

    pub open spec fn enqueue_recorded(
        self,
        is_mouse: bool,
        queue_len: u32,
        full_retries: u32,
        elapsed_us: u32,
        delivered: bool,
    ) -> LeftDiag {
        LeftDiag {
            enqueue: EnqueueCounters {
                all: crate::rtt_diag::bumped_if(self.enqueue.all, delivered),
                mouse: crate::rtt_diag::bumped_if(self.enqueue.mouse, delivered && is_mouse),
                aborted: crate::rtt_diag::bumped_if(self.enqueue.aborted, !delivered),
                full: crate::rtt_diag::bumped(self.enqueue.full, full_retries),
                max_wait_us: crate::rtt_diag::largest(self.enqueue.max_wait_us, elapsed_us),
            },
            queue_high_water: crate::rtt_diag::largest(self.queue_high_water, queue_len),
            ..self
        }
    }

    pub open spec fn write_recorded(
        self,
        report: Report,
        elapsed_us: u32,
        ok: bool,
        queue_len: u32,
        motion_age_us: u32,
        source_reports: u32,
        now_us: u32,
    ) -> LeftDiag {
        let write = match report {
            Report::MouseReport(mouse) => self.write.mouse_written(
                mouse.x,
                mouse.y,
                motion_age_us,
                source_reports,
                now_us,
            ),
            _ => self.write,
        };
        LeftDiag {
            write: write.written(elapsed_us, ok),
            queue_high_water: crate::rtt_diag::largest(self.queue_high_water, queue_len),
            ..self
        }
    }
}

/// `record_split_rx` at a given clock reading.
pub fn record_split_rx_at(diag: &mut LeftDiag, event: &PointingEvent, queue_len: u32, now: u32) -> (
    report: Option<LeftReport>)
    ensures
        (*final(diag), report) == old(diag).split_rx_recorded(*event, now).logged(now, queue_len),
{
    let (x, y) = axis_totals(event);
    diag.split_rx.pointing = diag.split_rx.pointing.wrapping_add(1);
    diag.split_rx.dx = add_i32(diag.split_rx.dx, x);
    diag.split_rx.dy = add_i32(diag.split_rx.dy, y);
    diag.split_rx.gap.record_bounded_gap(now);
    diag.maybe_log_left(now, queue_len)
}

/// Record a pointing notification received by the split central. `queue_len` is
/// the current length of the BLE report queue.
pub fn record_split_rx(diag: &mut LeftDiag, event: &PointingEvent, queue_len: u32) -> (report:
    Option<LeftReport>)
    ensures
        exists|now: u32|
            (*final(diag), report) == (#[trigger] old(diag).split_rx_recorded(*event, now)).logged(
                now,
                queue_len,
            ),
{
    let now: u32 = now_ms();
    record_split_rx_at(diag, event, queue_len, now)
}

/// `record_hid_enqueue` at a given clock reading.
pub fn record_hid_enqueue_at(
    diag: &mut LeftDiag,
    is_mouse: bool,
    queue_len: u32,
    full_retries: u32,
    elapsed_us: u32,
    delivered: bool,
    current_len: u32,
    now: u32,
) -> (report: Option<LeftReport>)
    ensures
        (*final(diag), report) == old(diag).enqueue_recorded(
            is_mouse,
            queue_len,
            full_retries,
            elapsed_us,
            delivered,
        ).logged(now, current_len),
{
    if delivered {
        diag.enqueue.all = diag.enqueue.all.wrapping_add(1);
        if is_mouse {
            diag.enqueue.mouse = diag.enqueue.mouse.wrapping_add(1);
        }
    } else {
        diag.enqueue.aborted = diag.enqueue.aborted.wrapping_add(1);
    }
    diag.enqueue.full = diag.enqueue.full.wrapping_add(full_retries);
    diag.queue_high_water = max_of(diag.queue_high_water, queue_len);
    diag.enqueue.max_wait_us = max_of(diag.enqueue.max_wait_us, elapsed_us);
    diag.maybe_log_left(now, current_len)
}

/// Record a report's attempt to enter the BLE HID queue. `queue_len` is the
/// length of the queue after the attempt, and `current_len` its length when a
/// report is logged.
pub fn record_hid_enqueue(
    diag: &mut LeftDiag,
    is_mouse: bool,
    queue_len: u32,
    full_retries: u32,
    elapsed_us: u32,
    delivered: bool,
    current_len: u32,
) -> (report: Option<LeftReport>)
    ensures
        exists|now: u32|
            (*final(diag), report) == #[trigger] old(diag).enqueue_recorded(
                is_mouse,
                queue_len,
                full_retries,
                elapsed_us,
                delivered,
            ).logged(now, current_len),
{
    let now: u32 = now_ms();
    record_hid_enqueue_at(
        diag,
        is_mouse,
        queue_len,
        full_retries,
        elapsed_us,
        delivered,
        current_len,
        now,
    )
}

/// `record_hid_write` at given clock readings.
pub fn record_hid_write_at(
    diag: &mut LeftDiag,
    report: &Report,
    elapsed_us: u32,
    ok: bool,
    queue_len: u32,
    motion_age_us: u32,
    source_reports: u32,
    current_len: u32,
    now_us: u32,
    now_ms: u32,
) -> (log: Option<LeftReport>)
    ensures
        (*final(diag), log) == old(diag).write_recorded(
            *report,
            elapsed_us,
            ok,
            queue_len,
            motion_age_us,
            source_reports,
            now_us,
        ).logged(now_ms, current_len),
{
    if let Report::MouseReport(mouse) = report {
        diag.write.record_mouse(mouse.x, mouse.y, motion_age_us, source_reports, now_us);
    }
    diag.write.record_any(elapsed_us, ok);
    diag.queue_high_water = max_of(diag.queue_high_water, queue_len);
    diag.maybe_log_left(now_ms, current_len)
}

/// Record completion of a BLE HID GATT notification. `queue_len` is the length
/// of the queue that the writer saw, and `current_len` its length when a report
/// is logged.
pub fn record_hid_write(
    diag: &mut LeftDiag,
    report: &Report,
    elapsed_us: u32,
    ok: bool,
    queue_len: u32,
    motion_age_us: u32,
    source_reports: u32,
    current_len: u32,
) -> (log: Option<LeftReport>)
    ensures
        exists|us: u32, ms: u32|
            (*final(diag), log) == #[trigger] old(diag).write_recorded(
                *report,
                elapsed_us,
                ok,
                queue_len,
                motion_age_us,
                source_reports,
                us,
            ).logged(ms, current_len),
{
    let us: u32 = now_us();
    let ms: u32 = now_ms();
    record_hid_write_at(
        diag,
        report,
        elapsed_us,
        ok,
        queue_len,
        motion_age_us,
        source_reports,
        current_len,
        us,
        ms,
    )
}

/// Record how many adjacent mouse samples were folded into one BLE report and
/// whether either pointer axis exceeded the signed 8-bit HID range. The
/// residual maxima make directional backlog visible without per-report RTT.
pub fn record_mouse_coalesce(
    diag: &mut LeftDiag,
    merged_reports: u32,
    has_residual: bool,
    input_x: i32,
    input_y: i32,
    residual_x: i32,
    residual_y: i32,
)
    ensures
        *final(diag) == (LeftDiag {
            coalesce: old(diag).coalesce.recorded(
                merged_reports,
                has_residual,
                input_x,
                input_y,
                residual_x,
                residual_y,
            ),
            ..*old(diag)
        }),
{
    diag.coalesce.merged = diag.coalesce.merged.wrapping_add(merged_reports);
    if has_residual {
        diag.coalesce.split_chunks = diag.coalesce.split_chunks.wrapping_add(1);
    }
    if input_x > 127 {
        diag.coalesce.clip_x_pos = diag.coalesce.clip_x_pos.wrapping_add(1);
    } else if input_x < -128 {
        diag.coalesce.clip_x_neg = diag.coalesce.clip_x_neg.wrapping_add(1);
    }
    if input_y > 127 {
        diag.coalesce.clip_y_pos = diag.coalesce.clip_y_pos.wrapping_add(1);
    } else if input_y < -128 {
        diag.coalesce.clip_y_neg = diag.coalesce.clip_y_neg.wrapping_add(1);
    }
    diag.coalesce.residual_x_max = max_of(diag.coalesce.residual_x_max, wide_abs(residual_x));
    diag.coalesce.residual_y_max = max_of(diag.coalesce.residual_y_max, wide_abs(residual_y));
}

/// Record the intentional pacing delay in the 15 ms control build. Baseline
/// diagnostics leave both values at zero.
pub fn record_mouse_slot_wait(diag: &mut LeftDiag, elapsed_us: u32)
    ensures
        *final(diag) == (if elapsed_us == 0 {
            *old(diag)
        } else {
            LeftDiag {
                coalesce: CoalesceCounters {
                    slot_waits: crate::rtt_diag::bumped(old(diag).coalesce.slot_waits, 1),
                    slot_wait_max_us: crate::rtt_diag::largest(
                        old(diag).coalesce.slot_wait_max_us,
                        elapsed_us,
                    ),
                    ..old(diag).coalesce
                },
                ..*old(diag)
            }
        }),
{
    if elapsed_us == 0 {
        return;
    }
    diag.coalesce.slot_waits = diag.coalesce.slot_waits.wrapping_add(1);
    diag.coalesce.slot_wait_max_us = max_of(diag.coalesce.slot_wait_max_us, elapsed_us);
}

/// A report hands out every count of its interval, and the next interval starts
/// from zero.
pub proof fn law_left_report_starts_a_new_interval(diag: LeftDiag, now: u32, queue_len: u32)
    requires
        crate::rtt_diag::slot_taken(diag.next_log_ms, now),
    ensures
        diag.logged(now, queue_len).1 is Some,
        ({
            let reported = diag.logged(now, queue_len).1->0.counters;
            let rest = diag.logged(now, queue_len).0;
            &&& reported.split_rx == diag.split_rx
            &&& reported.enqueue == diag.enqueue
            &&& reported.write == diag.write
            &&& reported.coalesce == diag.coalesce
            &&& rest.split_rx.dx == 0 && rest.split_rx.dy == 0 && rest.split_rx.pointing == 0
            &&& rest.write.dx == 0 && rest.write.dy == 0 && rest.write.mouse == 0
            &&& rest.queue_high_water == 0
        }),
{
}

/// Movement is accounted for at every stage: the movement that the right half
/// sent over the split link is what the left half counts when it arrives.
pub proof fn law_split_totals_agree(
    right: crate::rtt_diag::SplitTxCounters,
    left: LeftDiag,
    event: PointingEvent,
    elapsed_us: u32,
    sent_at: u32,
    received_at: u32,
)
    requires
        right.dx == left.split_rx.dx,
        right.dy == left.split_rx.dy,
    ensures
        right.pointing_sent(
            crate::rtt_diag::axis_total(event.axes@, Axis::X),
            crate::rtt_diag::axis_total(event.axes@, Axis::Y),
            elapsed_us,
            sent_at,
        ).dx == left.split_rx_recorded(event, received_at).split_rx.dx,
        right.pointing_sent(
            crate::rtt_diag::axis_total(event.axes@, Axis::X),
            crate::rtt_diag::axis_total(event.axes@, Axis::Y),
            elapsed_us,
            sent_at,
        ).dy == left.split_rx_recorded(event, received_at).split_rx.dy,
{
}

} // verus!
