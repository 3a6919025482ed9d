//! The build profiles of the K:04 firmware.

use vstd::prelude::*;

verus! {

/// The build features that change what the pointing path does.
#[derive(Clone, Copy, Debug, PartialEq, Eq, Structural)]
pub struct BuildFeatures {
    pub production_v22: bool,
    pub rtt_diag: bool,
    pub usb_debug: bool,
    pub usb_debug_force_ble: bool,
    pub host_fixed_15ms: bool,
    pub pmw_force_awake_diag: bool,
    pub pmw_smart_off_diag: bool,
    pub pmw_raw_600_diag: bool,
    pub pmw_raw_1000_diag: bool,
    pub pmw_axes_600: bool,
    pub pmw_axes_600_diag: bool,
}

/// Why a set of build features cannot be built together.
#[derive(Clone, Copy, Debug, PartialEq, Eq, Structural)]
pub enum FeatureConflict {
    /// A production image with a diagnostic or USB debug feature.
    ProductionWithDiagnostics,
    /// Forced-awake and smart-off diagnostics exclude each other.
    ForceAwakeWithSmartOff,
    /// The two raw resolutions exclude each other.
    Raw600WithRaw1000,
    /// Software axes cannot be combined with the raw diagnostics.
    AxesWithRaw,
}

impl BuildFeatures {
    /// No feature at all: the profile of the Qube halves.
    pub fn none() -> (features: BuildFeatures)
        ensures
            features == (BuildFeatures {
                production_v22: false,
                rtt_diag: false,
                usb_debug: false,
                usb_debug_force_ble: false,
                host_fixed_15ms: false,
                pmw_force_awake_diag: false,
                pmw_smart_off_diag: false,
                pmw_raw_600_diag: false,
                pmw_raw_1000_diag: false,
                pmw_axes_600: false,
                pmw_axes_600_diag: false,
            }),
    {
        BuildFeatures {
            production_v22: false,
            rtt_diag: false,
            usb_debug: false,
            usb_debug_force_ble: false,
            host_fixed_15ms: false,
            pmw_force_awake_diag: false,
            pmw_smart_off_diag: false,
            pmw_raw_600_diag: false,
            pmw_raw_1000_diag: false,
            pmw_axes_600: false,
            pmw_axes_600_diag: false,
        }
    }

    /// Any feature that a production image must not carry.
    pub open spec fn has_diagnostics(self) -> bool {
        ||| self.rtt_diag
        ||| self.usb_debug
        ||| self.usb_debug_force_ble
        ||| self.host_fixed_15ms
        ||| self.pmw_force_awake_diag
        ||| self.pmw_smart_off_diag
        ||| self.pmw_raw_600_diag
        ||| self.pmw_raw_1000_diag
        ||| self.pmw_axes_600_diag
    }

    /// The split peripheral reports full-width deltas in these builds.
    pub open spec fn full_width_split(self) -> bool {
        self.production_v22 || self.pmw_axes_600_diag
    }

    /// The first reason for which the features cannot be combined.
    pub open spec fn first_conflict(self) -> Option<FeatureConflict> {
        if self.production_v22 && self.has_diagnostics() {
            Some(FeatureConflict::ProductionWithDiagnostics)
        } else if self.pmw_force_awake_diag && self.pmw_smart_off_diag {
            Some(FeatureConflict::ForceAwakeWithSmartOff)
        } else if self.pmw_raw_600_diag && self.pmw_raw_1000_diag {
            Some(FeatureConflict::Raw600WithRaw1000)
        } else if self.pmw_axes_600 && (self.pmw_raw_600_diag || self.pmw_raw_1000_diag) {
            Some(FeatureConflict::AxesWithRaw)
        } else {
            None
        }
    }

    /// Reports the first conflict of a feature set, and `None` exactly for the
    /// sets that can be built.
    pub fn conflict(&self) -> (found: Option<FeatureConflict>)
        ensures
            found == self.first_conflict(),
    {
        if self.production_v22 && (self.rtt_diag || self.usb_debug || self.usb_debug_force_ble
            || self.host_fixed_15ms || self.pmw_force_awake_diag || self.pmw_smart_off_diag
            || self.pmw_raw_600_diag || self.pmw_raw_1000_diag || self.pmw_axes_600_diag) {
            Some(FeatureConflict::ProductionWithDiagnostics)
        } else if self.pmw_force_awake_diag && self.pmw_smart_off_diag {
            Some(FeatureConflict::ForceAwakeWithSmartOff)
        } else if self.pmw_raw_600_diag && self.pmw_raw_1000_diag {
            Some(FeatureConflict::Raw600WithRaw1000)
        } else if self.pmw_axes_600 && (self.pmw_raw_600_diag || self.pmw_raw_1000_diag) {
            Some(FeatureConflict::AxesWithRaw)
        } else {
            None
        }
    }
}

/// A set of features can be built exactly where a production image carries no
/// diagnostics, forced-awake and smart-off diagnostics are not combined, and at
/// most one of the two raw resolutions and the software axes is chosen.
pub proof fn law_buildable_sets(features: BuildFeatures)
    ensures
        ({
            let diagnostics = features.rtt_diag || features.usb_debug
                || features.usb_debug_force_ble || features.host_fixed_15ms
                || features.pmw_force_awake_diag || features.pmw_smart_off_diag
                || features.pmw_raw_600_diag || features.pmw_raw_1000_diag
                || features.pmw_axes_600_diag;
            let production = features.production_v22 && diagnostics;
            let modes = features.pmw_force_awake_diag && features.pmw_smart_off_diag;
            let raws = features.pmw_raw_600_diag && features.pmw_raw_1000_diag;
            let axes = features.pmw_axes_600 && (features.pmw_raw_600_diag
                || features.pmw_raw_1000_diag);
            let conflict = features.first_conflict();
            &&& conflict is None <==> !production && !modes && !raws && !axes
            &&& conflict == Some(FeatureConflict::ProductionWithDiagnostics) <==> production
            &&& conflict == Some(FeatureConflict::ForceAwakeWithSmartOff) <==> modes && !production
            &&& conflict == Some(FeatureConflict::Raw600WithRaw1000) <==> raws && !production
                && !modes
            &&& conflict == Some(FeatureConflict::AxesWithRaw) <==> axes && !production && !modes
                && !raws
        }),
{
}

/// Leaving a feature out never makes a buildable set unbuildable.
pub proof fn law_fewer_features_never_conflict(more: BuildFeatures, fewer: BuildFeatures)
    requires
        more.first_conflict() is None,
        fewer.production_v22 ==> more.production_v22,
        fewer.rtt_diag ==> more.rtt_diag,
        fewer.usb_debug ==> more.usb_debug,
        fewer.usb_debug_force_ble ==> more.usb_debug_force_ble,
        fewer.host_fixed_15ms ==> more.host_fixed_15ms,
        fewer.pmw_force_awake_diag ==> more.pmw_force_awake_diag,
        fewer.pmw_smart_off_diag ==> more.pmw_smart_off_diag,
        fewer.pmw_raw_600_diag ==> more.pmw_raw_600_diag,
        fewer.pmw_raw_1000_diag ==> more.pmw_raw_1000_diag,
        fewer.pmw_axes_600 ==> more.pmw_axes_600,
        fewer.pmw_axes_600_diag ==> more.pmw_axes_600_diag,
    ensures
        fewer.first_conflict() is None,
{
}

/// The conflict that is reported is the first one.
pub proof fn law_first_conflict_is_reported()
    ensures
        forall|features: &BuildFeatures, found: Option<FeatureConflict>| #[trigger]
            call_ensures(BuildFeatures::conflict, (features,), found) ==> found
                == (*features).first_conflict(),
        forall|features: BuildFeatures| #[trigger]
            call_ensures(BuildFeatures::none, (), features) ==> !features.production_v22
                && !features.rtt_diag && !features.usb_debug && !features.usb_debug_force_ble
                && !features.host_fixed_15ms && !features.pmw_force_awake_diag
                && !features.pmw_smart_off_diag && !features.pmw_raw_600_diag
                && !features.pmw_raw_1000_diag && !features.pmw_axes_600
                && !features.pmw_axes_600_diag,
{
}

} // verus!
