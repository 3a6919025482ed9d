//! Independent timer heartbeat for diagnostic builds. If both PMW reads and the
//! heartbeat become late, the executor was delayed; if only PMW/MOTION pauses,
//! the stall is inside the sensor path.

use vstd::prelude::*;

use crate::features::BuildFeatures;
use crate::rtt_diag::{record_scheduler_tick_at, RightDiag, RightReport};
use crate::time::{Duration, Instant};
use crate::trackball::SCHEDULER_PROBE_INTERVAL_MS;

verus! {

/// The event of a task that never gets one.
#[derive(Clone, Copy, Debug, PartialEq, Eq)]
pub struct NeverEvent;

#[derive(Clone, Copy, Debug, PartialEq, Eq)]
pub struct RttSchedulerProbe;

/// A diagnostic mode that the probe announces when it starts.
#[derive(Clone, Copy, Debug, PartialEq, Eq, Structural)]
pub enum DiagMode {
    /// Full-width split pacing with software axes.
    SplitPacing,
    /// Raw signs at 600 CPI.
    Raw600,
    /// Raw signs at 1000 CPI.
    Raw1000,
    /// Optics without smart tracking.
    SmartOff,
    /// Optics with a sensor that is kept awake.
    ForceAwake,
    /// Plain optics.
    Optics,
}

/// The modes that a build announces, in order.
pub open spec fn announced_modes(features: BuildFeatures) -> Seq<DiagMode> {
    let plain = !(features.pmw_raw_600_diag || features.pmw_raw_1000_diag
        || features.pmw_axes_600_diag || features.pmw_smart_off_diag);
    let a = if features.pmw_axes_600_diag {
        seq![DiagMode::SplitPacing]
    } else {
        Seq::empty()
    };
    let b = if features.pmw_raw_600_diag {
        a.push(DiagMode::Raw600)
    } else {
        a
    };
    let c = if features.pmw_raw_1000_diag {
        b.push(DiagMode::Raw1000)
    } else {
        b
    };
    let d = if features.pmw_smart_off_diag {
        c.push(DiagMode::SmartOff)
    } else {
        c
    };
    if plain && features.pmw_force_awake_diag {
        d.push(DiagMode::ForceAwake)
    } else if plain {
        d.push(DiagMode::Optics)
    } else {
        d
    }
}

impl RttSchedulerProbe {
    pub fn new() -> (probe: RttSchedulerProbe)
        ensures
            probe == RttSchedulerProbe,
    {
        RttSchedulerProbe
    }

    /// What the probe announces when it starts.
    pub fn announcements(&self, features: &BuildFeatures) -> (modes: Vec<DiagMode>)
        ensures
            modes@ == announced_modes(*features),
    {
        let mut modes: Vec<DiagMode> = Vec::new();
        if features.pmw_axes_600_diag {
            modes.push(DiagMode::SplitPacing);
        }
        assert(modes@ =~= if features.pmw_axes_600_diag {
            seq![DiagMode::SplitPacing]
        } else {
            Seq::empty()
        });
        if features.pmw_raw_600_diag {
            modes.push(DiagMode::Raw600);
        }
        if features.pmw_raw_1000_diag {
            modes.push(DiagMode::Raw1000);
        }
        if features.pmw_smart_off_diag {
            modes.push(DiagMode::SmartOff);
        } else if !(features.pmw_raw_600_diag || features.pmw_raw_1000_diag
            || features.pmw_axes_600_diag) {
            if features.pmw_force_awake_diag {
                modes.push(DiagMode::ForceAwake);
            } else {
                modes.push(DiagMode::Optics);
            }
        }
        modes
    }

    /// The deadline of the tick after `now`.
    pub fn next_deadline(&self, now: Instant) -> (deadline: Instant)
        requires
            now.ticks + 10_000 <= u64::MAX,
        ensures
            deadline.ticks == now.ticks + 10_000,
    {
        now.plus(Duration::from_millis(SCHEDULER_PROBE_INTERVAL_MS))
    }

    /// Takes a tick that was due at `deadline` and came at `now`.
    pub fn tick(&self, diag: &mut RightDiag, deadline: Instant, now: Instant) -> (report: Option<
        RightReport,
    >)
        requires
            deadline.ticks <= now.ticks,
        ensures
            (*final(diag), report) == old(diag).tick_recorded(
                (now.ticks - deadline.ticks) as u64 as u32,
            ).logged((now.ticks / 1_000) as u32),
    {
        let late: u64 = now.duration_since(deadline).as_micros();
        record_scheduler_tick_at(diag, late as u32, now.as_millis() as u32)
    }
}

/// A build announces each of its diagnostics, in order, and plain optics or a
/// sensor that is kept awake only where it has no other.
pub proof fn law_announcements_name_the_diagnostics(features: BuildFeatures)
    ensures
        ({
            let modes = announced_modes(features);
            let special = features.pmw_axes_600_diag || features.pmw_raw_600_diag
                || features.pmw_raw_1000_diag || features.pmw_smart_off_diag;
            &&& modes.contains(DiagMode::SplitPacing) <==> features.pmw_axes_600_diag
            &&& modes.contains(DiagMode::Raw600) <==> features.pmw_raw_600_diag
            &&& modes.contains(DiagMode::Raw1000) <==> features.pmw_raw_1000_diag
            &&& modes.contains(DiagMode::SmartOff) <==> features.pmw_smart_off_diag
            &&& modes.contains(DiagMode::ForceAwake) <==> !special && features.pmw_force_awake_diag
            &&& modes.contains(DiagMode::Optics) <==> !special && !features.pmw_force_awake_diag
            &&& 1 <= modes.len() <= 4
            &&& features.pmw_axes_600_diag ==> modes[0] == DiagMode::SplitPacing
            &&& features.pmw_smart_off_diag ==> modes.last() == DiagMode::SmartOff
        }),
        forall|probe: &RttSchedulerProbe, build: &BuildFeatures, modes: Vec<DiagMode>| #[trigger]
            call_ensures(RttSchedulerProbe::announcements, (probe, build), modes) ==> modes@
                == announced_modes(*build),
{
    let modes = announced_modes(features);
    let axes = features.pmw_axes_600_diag;
    let raw_600 = features.pmw_raw_600_diag;
    let raw_1000 = features.pmw_raw_1000_diag;
    let after_axes: int = if axes {
        1
    } else {
        0
    };
    let after_raw: int = after_axes + if raw_600 {
        1int
    } else {
        0
    };
    let after_raws: int = after_raw + if raw_1000 {
        1int
    } else {
        0
    };
    if axes {
        assert(modes[0] == DiagMode::SplitPacing);
    }
    if raw_600 {
        assert(modes[after_axes] == DiagMode::Raw600);
    }
    if raw_1000 {
        assert(modes[after_raw] == DiagMode::Raw1000);
    }
    if features.pmw_smart_off_diag {
        assert(modes[after_raws] == DiagMode::SmartOff);
    }
    if !axes && !raw_600 && !raw_1000 && !features.pmw_smart_off_diag {
        assert(modes.len() == 1);
        assert(modes.contains(modes[0]));
    }
}

/// Two raw resolutions are announced the lower one first, after the axes and
/// before smart tracking.
pub proof fn law_announcements_are_ordered(features: BuildFeatures, i: int, j: int)
    requires
        0 <= i < j < announced_modes(features).len(),
    ensures
        announced_modes(features)[j] == DiagMode::Raw600 ==> announced_modes(features)[i]
            == DiagMode::SplitPacing,
        announced_modes(features)[j] == DiagMode::Raw1000 ==> announced_modes(features)[i]
            == DiagMode::SplitPacing || announced_modes(features)[i] == DiagMode::Raw600,
        announced_modes(features)[j] != DiagMode::SplitPacing,
        announced_modes(features)[i] != announced_modes(features)[j],
{
}

/// Ticks are 10 ms apart, and each is recorded with its lateness in
/// microseconds at the millisecond at which it came.
pub proof fn law_ticks_are_recorded_with_their_lateness()
    ensures
        forall|probe: &RttSchedulerProbe, now: Instant, deadline: Instant| #[trigger]
            call_ensures(RttSchedulerProbe::next_deadline, (probe, now), deadline)
                ==> deadline.ticks == now.ticks + 10_000,
        forall|
            probe: &RttSchedulerProbe,
            diag: &mut RightDiag,
            deadline: Instant,
            now: Instant,
            report: Option<RightReport>,
        | #[trigger]
            call_ensures(RttSchedulerProbe::tick, (probe, diag, deadline, now), report)
                && deadline.ticks <= now.ticks && now.ticks - deadline.ticks <= 0xffff_ffff
                && now.ticks / 1_000 <= 0xffff_ffff ==> {
                let late = (now.ticks - deadline.ticks) as u32;
                let ms = (now.ticks / 1_000) as u32;
                (*final(diag), report) == (*diag).tick_recorded(late).logged(ms)
            },
{
}

} // verus!
