//! What holds of every run of the trackball task.

use vstd::prelude::*;

use crate::features::BuildFeatures;
use crate::pmw3610::Pmw3610Health;
use crate::pointing::MotionData;
use crate::time::Instant;
use crate::trackball::{Event, Phase, Trackball};

verus! {

/// What a report takes out of the horizontal accumulator.
pub open spec fn reported_x(task: Trackball, event: Event) -> int {
    match task.next(event).1.report {
        Some(report) => report.x as int,
        None => 0,
    }
}

/// What a report takes out of the vertical accumulator.
pub open spec fn reported_y(task: Trackball, event: Event) -> int {
    match task.next(event).1.report {
        Some(report) => report.y as int,
        None => 0,
    }
}

/// The motion that an event brings to the pointer.
pub open spec fn brought(task: Trackball, event: Event) -> MotionData {
    match (task.phase, event) {
        (Phase::Sampling { .. }, Event::Motion { motion, .. }) => crate::trackball::oriented(
            task.features,
            motion,
        ),
        _ => MotionData { dx: 0, dy: 0 },
    }
}

/// A step that may come, of a task in good order.
pub open spec fn possible(task: Trackball, event: Event) -> bool {
    &&& task.wf()
    &&& crate::trackball::answers(task.due(), event)
    &&& crate::trackball::event_time(event) matches Some(now) ==> task.past(now)
        && crate::trackball::clock_in_range(now)
}

/// The task is serving an awake keyboard: it is in none of the phases in which
/// settling noise is weighed.
pub open spec fn awake(task: Trackball) -> bool {
    match task.phase {
        Phase::Sampling { sleeping, .. } => !sleeping,
        Phase::Flush { sleeping } => !sleeping,
        _ => true,
    }
}

/// A step on which the sensor stays ready and no sleep or selection change
/// interrupts the task.
pub open spec fn uninterrupted(task: Trackball, event: Event) -> bool {
    &&& task.ready && task.next(event).0.ready
    &&& !(event is SelectionChanged) && !(event is SleepChanged)
}

/// A report never changes a sum: what it carries and what stays accumulated
/// add up to what was accumulated.
pub proof fn law_report_conserves_motion(task: Trackball)
    requires
        task.wf(),
    ensures
        task.next_report() is None <==> task.acc_x == 0 && task.acc_y == 0,
        task.next_report() matches Some(report) ==> report.x + task.sent().acc_x == task.acc_x
            && report.y + task.sent().acc_y == task.acc_y && report.device_id == task.device_id,
        task.next_report() is None ==> task.sent() == task,
{
    reveal(Trackball::sent);
    reveal(Trackball::next_report);
}

/// One report empties the accumulators of a full-width split half.
pub proof fn law_full_width_half_drains_in_one_report(task: Trackball)
    requires
        task.wf(),
        task.features.full_width_split(),
        !task.is_central,
    ensures
        task.sent().acc_x == 0,
        task.sent().acc_y == 0,
{
    reveal(Trackball::sent);
}

/// Every step of an awake, uninterrupted task conserves motion: what it brings
/// is reported, stays accumulated, or is counted as dropped, and something is
/// dropped only where the sum leaves the i16 range.
pub proof fn law_step_conserves_motion(task: Trackball, event: Event)
    requires
        possible(task, event),
        awake(task),
        uninterrupted(task, event),
    ensures
        ({
            let (rest, outcome) = task.next(event);
            let total_x = task.acc_x + brought(task, event).dx;
            let total_y = task.acc_y + brought(task, event).dy;
            &&& rest.acc_x + reported_x(task, event) == crate::motion_pacing::clamp(
                total_x,
                -32768,
                32767,
            )
            &&& rest.acc_y + reported_y(task, event) == crate::motion_pacing::clamp(
                total_y,
                -32768,
                32767,
            )
            &&& outcome.dropped_x == 0 <==> -32768 <= total_x <= 32767
            &&& outcome.dropped_y == 0 <==> -32768 <= total_y <= 32767
        }),
{
    reveal(Trackball::next);
    match (task.phase, event) {
        (Phase::Sampling { sleeping, .. }, Event::Motion { motion, now }) => {
            let full = task.accumulated(motion, sleeping, now);
            lemma_sent_conserves(full);
        },
        (Phase::Flush { .. }, _) => {
            lemma_sent_conserves(task);
        },
        _ => {},
    }
}

proof fn lemma_sent_conserves(task: Trackball)
    requires
        -32768 <= task.acc_x <= 32767,
        -32768 <= task.acc_y <= 32767,
    ensures
        task.next_report() matches Some(report) ==> report.x + task.sent().acc_x == task.acc_x
            && report.y + task.sent().acc_y == task.acc_y,
        task.next_report() is None ==> task.sent() == task,
        task.sent().ready == task.ready,
        task.sent().last_motion_activity == task.last_motion_activity,
        task.sent().unavailable_since == task.unavailable_since,
{
    reveal(Trackball::sent);
    reveal(Trackball::next_report);
}

/// A run of events from `task` on, each of which may come, conserves motion and
/// drops none of it.
pub open spec fn steady_run(task: Trackball, events: Seq<Event>) -> bool
    decreases events.len(),
{
    events.len() > 0 ==> {
        let event = events.first();
        let (rest, outcome) = task.next(event);
        &&& possible(task, event)
        &&& awake(task)
        &&& uninterrupted(task, event)
        &&& outcome.dropped_x == 0 && outcome.dropped_y == 0
        &&& steady_run(rest, events.drop_first())
    }
}

/// The task after a run of events.
pub open spec fn after_run(task: Trackball, events: Seq<Event>) -> Trackball
    decreases events.len(),
{
    if events.len() == 0 {
        task
    } else {
        after_run(task.next(events.first()).0, events.drop_first())
    }
}

/// The sum of all motion that a run brings, per axis.
pub open spec fn total_brought(task: Trackball, events: Seq<Event>) -> (int, int)
    decreases events.len(),
{
    if events.len() == 0 {
        (0, 0)
    } else {
        let rest = total_brought(task.next(events.first()).0, events.drop_first());
        (
            brought(task, events.first()).dx + rest.0,
            brought(task, events.first()).dy + rest.1,
        )
    }
}

/// The sum of all motion that a run reports, per axis.
pub open spec fn total_reported(task: Trackball, events: Seq<Event>) -> (int, int)
    decreases events.len(),
{
    if events.len() == 0 {
        (0, 0)
    } else {
        let rest = total_reported(task.next(events.first()).0, events.drop_first());
        (
            reported_x(task, events.first()) + rest.0,
            reported_y(task, events.first()) + rest.1,
        )
    }
}

/// Pacing never discards distance: over any steady run, the motion reported and
/// the motion still accumulated add up to the motion accumulated before and the
/// motion that the sensor brought.
pub proof fn law_pacing_never_discards_distance(task: Trackball, events: Seq<Event>)
    requires
        steady_run(task, events),
    ensures
        total_reported(task, events).0 + after_run(task, events).acc_x == task.acc_x
            + total_brought(task, events).0,
        total_reported(task, events).1 + after_run(task, events).acc_y == task.acc_y
            + total_brought(task, events).1,
    decreases events.len(),
{
    if events.len() > 0 {
        law_step_conserves_motion(task, events.first());
        law_pacing_never_discards_distance(task.next(events.first()).0, events.drop_first());
    }
}

/// Only a sensor that is ready is heard: a step publishes nothing unless the
/// sensor's configuration has been verified, and what it publishes is no empty
/// report.
pub proof fn law_only_a_ready_sensor_publishes(task: Trackball, event: Event)
    requires
        possible(task, event),
        task.next(event).1.report is Some,
    ensures
        task.ready,
        reported_x(task, event) != 0 || reported_y(task, event) != 0,
        task.next(event).1.report->0.device_id == task.device_id,
{
    reveal(Trackball::next);
    reveal(Trackball::next_report);
}

/// An awake task reports at its cadence: at least one report interval lies
/// between a report and the one before it.
pub proof fn law_reports_keep_their_distance(task: Trackball, event: Event)
    requires
        possible(task, event),
        awake(task),
        task.next(event).1.report is Some,
    ensures
        crate::trackball::event_time(event) is Some,
        crate::trackball::event_time(event)->0.ticks - task.last_report.ticks
            >= crate::trackball::report_ticks(task.features, task.is_central),
        task.next(event).0.last_report == crate::trackball::event_time(event)->0,
{
    reveal(Trackball::next);
    reveal(Trackball::next_report);
    reveal(Trackball::sent);
}

/// While the keyboard sleeps, a lone step of one count is never reported, and
/// it is forgotten once its confirmation window is over.
pub proof fn law_sleeping_noise_is_not_reported(task: Trackball, now: Instant)
    requires
        possible(task, Event::Clock { now }),
        task.phase == (Phase::Flush { sleeping: true }),
        -1 <= task.acc_x <= 1,
        -1 <= task.acc_y <= 1,
    ensures
        task.next(Event::Clock { now }).1.report is None,
        (task.sleep_motion_deadline matches Some(deadline) && now.ticks >= deadline.ticks)
            ==> task.next(Event::Clock { now }).0.acc_x == 0 && task.next(
            Event::Clock { now },
        ).0.acc_y == 0,
{
    reveal(Trackball::next);
}

/// A sample that leaves both accumulators within one count of zero is not
/// reported while the keyboard sleeps.
pub proof fn law_sleeping_sample_waits_for_confirmation(
    task: Trackball,
    motion: MotionData,
    now: Instant,
)
    requires
        possible(task, Event::Motion { motion, now }),
        task.phase matches Phase::Sampling { sleeping, .. } && sleeping,
        -1 <= task.acc_x + crate::trackball::oriented(task.features, motion).dx <= 1,
        -1 <= task.acc_y + crate::trackball::oriented(task.features, motion).dy <= 1,
    ensures
        task.next(Event::Motion { motion, now }).1.report is None,
{
    reveal(Trackball::next);
}

/// A sensor that does not answer is probed every 250 ms during the first ten
/// seconds, and every two seconds from then on.
pub proof fn law_probing_backs_off(task: Trackball, now: Instant)
    requires
        task.past(now),
        crate::trackball::clock_in_range(now),
    ensures
        task.unavailable(now).next_probe.ticks - now.ticks == (if task.unavailable_since matches Some(
            since,
        ) && now.ticks - since.ticks >= 10_000_000 {
            2_000_000int
        } else {
            250_000int
        }),
        task.unavailable(now).unavailable_since == (match task.unavailable_since {
            Some(since) => Some(since),
            None => Some(now),
        }),
{
}

/// A registers snapshot that is not healthy keeps motion out of HID: the sensor
/// is given up before a burst is read, everything accumulated is cleared, and
/// the sensor is probed again at once.
pub proof fn law_unhealthy_sensor_is_not_sampled(
    task: Trackball,
    health: Option<Pmw3610Health>,
    vbus: bool,
)
    requires
        possible(task, Event::HealthDone { health, vbus }),
        task.phase is RunHealth,
        !(health matches Some(registers) && registers.healthy()),
    ensures
        ({
            let (rest, outcome) = task.next(Event::HealthDone { health, vbus });
            &&& outcome.report is None
            &&& !rest.ready && rest.acc_x == 0 && rest.acc_y == 0
            &&& rest.recovery_pending
            &&& rest.next_probe == task.phase->RunHealth_now
            &&& rest.phase == Phase::Top
        }),
{
    reveal(Trackball::next);
}

/// The task before event `i` of a run.
pub open spec fn before(task: Trackball, events: Seq<Event>, i: int) -> Trackball {
    after_run(task, events.take(i))
}

/// A run of events from `task` on, each of which may come.
pub open spec fn possible_run(task: Trackball, events: Seq<Event>) -> bool {
    forall|i: int|
        0 <= i < events.len() ==> possible(#[trigger] before(task, events, i), events[i])
}

/// An event that shows that the sensor cannot be relied on: a failed read, or a
/// snapshot that is not healthy or could not be taken.
pub open spec fn distrusts(event: Event) -> bool {
    match event {
        Event::MotionFailed { .. } => true,
        Event::HealthDone { health: Some(health), .. } => !health.healthy(),
        Event::HealthDone { health: None, .. } => true,
        _ => false,
    }
}

/// Events `i - 2`, `i - 1` and `i` initialize the sensor, set its resolution and
/// find it healthy.
pub open spec fn set_up_at(events: Seq<Event>, i: int) -> bool {
    &&& 2 <= i < events.len()
    &&& events[i - 2] matches Event::InitDone { ok, .. } && ok
    &&& events[i - 1] == (Event::ResolutionDone { ok: true })
    &&& events[i] matches Event::HealthDone { health: Some(health), .. } && health.healthy()
}

/// Once a read failed or a snapshot was not healthy, nothing is published until
/// the sensor has been initialized, its resolution set and its configuration
/// found healthy, in this order and one right after the other.
pub proof fn law_distrusted_sensor_is_set_up_anew(task: Trackball, events: Seq<Event>, k: int)
    requires
        possible_run(task, events),
        0 < k < events.len(),
        distrusts(events[0]),
        before(task, events, k).next(events[k]).1.report is Some,
    ensures
        exists|i: int| 2 < i < k && #[trigger] set_up_at(events, i),
{
    assert(possible(before(task, events, k), events[k]));
    law_only_a_ready_sensor_publishes(before(task, events, k), events[k]);
    lemma_readiness_is_earned(task, events, k);
}

/// How far the set-up of the sensor has come, after a distrusting first event.
proof fn lemma_readiness_is_earned(task: Trackball, events: Seq<Event>, k: int)
    requires
        possible_run(task, events),
        0 < k <= events.len(),
        distrusts(events[0]),
    ensures
        ({
            let now = before(task, events, k);
            &&& now.ready ==> exists|i: int| 2 < i < k && #[trigger] set_up_at(events, i)
            &&& now.phase is InitResolution ==> k > 1 && (events[k - 1] matches Event::InitDone {
                ok,
                ..
            } && ok)
            &&& now.phase is InitHealth ==> k > 2 && events[k - 1] == (Event::ResolutionDone {
                ok: true,
            }) && (events[k - 2] matches Event::InitDone { ok, .. } && ok)
        }),
    decreases k,
{
    let last = before(task, events, k - 1);
    lemma_run_extends(task, events, k - 1);
    assert(possible(last, events[k - 1]));
    lemma_set_up_step(last, events[k - 1]);
    if k > 1 {
        lemma_readiness_is_earned(task, events, k - 1);
        let now = before(task, events, k);
        if now.ready {
            if last.ready {
                let i = choose|i: int| 2 < i < k - 1 && #[trigger] set_up_at(events, i);
                assert(set_up_at(events, i));
            } else {
                assert(set_up_at(events, k - 1));
            }
        }
    }
}

/// What one event does to the set-up of the sensor.
proof fn lemma_set_up_step(task: Trackball, event: Event)
    requires
        possible(task, event),
    ensures
        ({
            let rest = task.next(event).0;
            &&& distrusts(event) ==> !rest.ready && !(rest.phase is InitResolution)
                && !(rest.phase is InitHealth)
            &&& rest.ready && !task.ready ==> task.phase is InitHealth && (
            event matches Event::HealthDone { health: Some(health), .. } && health.healthy())
            &&& rest.phase is InitResolution ==> (event matches Event::InitDone { ok, .. } && ok)
            &&& rest.phase is InitHealth ==> task.phase is InitResolution && event == (
            Event::ResolutionDone { ok: true })
        }),
{
    reveal(Trackball::next);
    reveal(Trackball::sent);
}

/// A run that is one event longer ends one step further.
proof fn lemma_run_extends(task: Trackball, events: Seq<Event>, i: int)
    requires
        0 <= i < events.len(),
    ensures
        before(task, events, i + 1) == before(task, events, i).next(events[i]).0,
    decreases i,
{
    let rest = events.drop_first();
    let step = task.next(events.first()).0;
    assert(events.take(i + 1).drop_first() =~= rest.take(i));
    assert(events.take(i + 1).first() == events.first());
    if i == 0 {
        assert(rest.take(0) =~= Seq::empty());
        assert(events.take(0) =~= Seq::empty());
    } else {
        lemma_run_extends(step, rest, i - 1);
        assert(events.take(i).drop_first() =~= rest.take(i - 1));
        assert(events.take(i).first() == events.first());
    }
}

/// One wake serves at most sixteen bursts, and then yields before the line is
/// looked at again.
pub proof fn law_reads_per_wake_are_bounded(task: Trackball, event: Event)
    requires
        possible(task, event),
    ensures
        task.phase matches Phase::Reading { reads, .. } && reads == 16 ==> !(task.next(
            event,
        ).0.phase is Sampling),
        task.next(event).0.phase matches Phase::Sampling { reads, .. } ==> reads <= 16
            && task.phase is Reading,
{
    reveal(Trackball::next);
}

/// The task never remembers the future: after a step its past lies before every
/// later clock reading.
#[verifier::rlimit(40)]
pub proof fn law_memory_stays_in_the_past(task: Trackball, event: Event, later: Instant)
    requires
        possible(task, event),
        task.past(later),
        crate::trackball::event_time(event) matches Some(now) ==> now.ticks <= later.ticks,
        task.phase matches Phase::InitResolution { now } ==> now.ticks <= later.ticks,
        task.phase matches Phase::InitHealth { now } ==> now.ticks <= later.ticks,
        task.phase matches Phase::RunHealth { now, .. } ==> now.ticks <= later.ticks,
    ensures
        task.next(event).0.past(later),
{
    reveal(Trackball::next);
    match (task.phase, event) {
        (Phase::Sampling { sleeping, .. }, Event::Motion { motion, now }) => {
            lemma_sent_conserves(task.accumulated(motion, sleeping, now));
        },
        (Phase::Flush { .. }, _) => {
            lemma_sent_conserves(task);
        },
        _ => {},
    }
}

/// A recovery is counted once: rejecting a sensor whose recovery is pending
/// leaves the count alone.
pub proof fn law_recovery_is_counted_once(task: Trackball, now: Instant, later: Instant)
    requires
        task.recovery_count < u32::MAX,
        !task.recovery_pending,
    ensures
        task.rejected(now, true).recovery_count == task.recovery_count + 1,
        task.rejected(now, true).rejected(later, false).recovery_count == task.recovery_count + 1,
{
}

/// Production images follow the user's resolution setting and start from 600.
pub proof fn law_production_follows_the_ball_setting(features: BuildFeatures, setting: u16)
    requires
        features.production_v22,
        features.first_conflict() is None,
    ensures
        crate::trackball::ball_cpi(features, setting) == setting,
        features.pmw_axes_600 ==> crate::trackball::default_cpi_spec(features) == 600,
{
}

} // verus!
