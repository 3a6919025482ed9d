//! How accumulated trackball motion is paced and portioned into reports.

use vstd::prelude::*;

use crate::features::BuildFeatures;

verus! {

pub const LOCAL_REPORT_INTERVAL_US: u64 = 4_000;

/// A split producer must never be faster than the BLE connection can drain one
/// notification, or its reports queue up for good.
pub const SPLIT_REPORT_INTERVAL_US: u64 = 15_000;

pub const SPLIT_POINTING_CONN_INTERVAL_US: u64 = 7_500;

pub const LEGACY_TRANSPORT_REPORT_INTERVAL_US: u64 = 8_000;

/// `value` moved to the nearest number from `low` to `high`.
pub open spec fn clamp(value: int, low: int, high: int) -> int {
    if value < low {
        low
    } else if value > high {
        high
    } else {
        value
    }
}

/// The portion of an accumulated axis that one report carries.
pub open spec fn report_portion(
    features: BuildFeatures,
    is_central: bool,
    accumulated: int,
) -> int {
    if features.full_width_split() && !is_central {
        clamp(accumulated, i16::MIN as int, i16::MAX as int)
    } else {
        clamp(accumulated, i8::MIN as int, i8::MAX as int)
    }
}

/// Take one report-sized portion from an accumulated relative-motion axis.
///
/// The central trackball feeds the HID path in native i8-sized portions. The
/// split peripheral of a full-width build uses the whole `PointingEvent` i16
/// range, so that a lower radio report rate does not discard or distort fast
/// motion.
pub fn take_report_axis(features: &BuildFeatures, is_central: bool, accumulated: i32) -> (portion:
    i16)
    ensures
        portion == report_portion(*features, is_central, accumulated as int),
{
    if (features.production_v22 || features.pmw_axes_600_diag) && !is_central {
        if accumulated < -32768 {
            -32768
        } else if accumulated > 32767 {
            32767
        } else {
            accumulated as i16
        }
    } else {
        if accumulated < -128 {
            -128
        } else if accumulated > 127 {
            127
        } else {
            accumulated as i16
        }
    }
}

/// A split half never produces reports faster than its BLE link drains them,
/// and a full-width report gets exactly two link windows.
pub proof fn law_split_reports_fit_the_link()
    ensures
        SPLIT_REPORT_INTERVAL_US == 2 * SPLIT_POINTING_CONN_INTERVAL_US,
        LEGACY_TRANSPORT_REPORT_INTERVAL_US >= SPLIT_POINTING_CONN_INTERVAL_US,
{
}

/// A portion never overshoots: it has the sign of the accumulated motion and
/// is no larger, and it is zero only when nothing was accumulated.
pub proof fn law_portion_makes_progress(
    features: BuildFeatures,
    is_central: bool,
    accumulated: int,
)
    ensures
        accumulated >= 0 ==> 0 <= report_portion(features, is_central, accumulated)
            <= accumulated,
        accumulated <= 0 ==> accumulated <= report_portion(features, is_central, accumulated)
            <= 0,
        report_portion(features, is_central, accumulated) == 0 <==> accumulated == 0,
{
}

/// A report of the peripheral half of a full-width build carries an axis as far
/// as the i16 range goes, and any other report as far as the i8 range goes.
pub proof fn law_portion_fits_its_report(
    features: BuildFeatures,
    is_central: bool,
    accumulated: int,
)
    ensures
        ({
            let portion = report_portion(features, is_central, accumulated);
            let wide = !is_central && (features.production_v22 || features.pmw_axes_600_diag);
            &&& wide && -32768 <= accumulated <= 32767 ==> portion == accumulated
            &&& wide && accumulated > 32767 ==> portion == 32767
            &&& wide && accumulated < -32768 ==> portion == -32768
            &&& !wide && -128 <= accumulated <= 127 ==> portion == accumulated
            &&& !wide && accumulated > 127 ==> portion == 127
            &&& !wide && accumulated < -128 ==> portion == -128
        }),
{
}

/// The portion that is taken is the one that the report carries.
pub proof fn law_taken_portion_is_reported()
    ensures
        forall|features: &BuildFeatures, is_central: bool, accumulated: i32, portion: i16|
         #[trigger]
            call_ensures(take_report_axis, (features, is_central, accumulated), portion)
                ==> portion == report_portion(*features, is_central, accumulated as int),
{
}

} // verus!
