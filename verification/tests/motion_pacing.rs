use k04_firmware::features::{BuildFeatures, FeatureConflict};
use k04_firmware::motion_pacing::{
    take_report_axis, LEGACY_TRANSPORT_REPORT_INTERVAL_US, LOCAL_REPORT_INTERVAL_US,
    SPLIT_POINTING_CONN_INTERVAL_US, SPLIT_REPORT_INTERVAL_US,
};

fn production() -> BuildFeatures {
    let mut features = BuildFeatures::none();
    features.production_v22 = true;
    features.pmw_axes_600 = true;
    features
}

#[test]
fn production_split_interval_is_15ms_and_two_link_intervals() {
    assert_eq!(LOCAL_REPORT_INTERVAL_US, 4_000);
    assert_eq!(SPLIT_REPORT_INTERVAL_US, 15_000);
    assert!(SPLIT_REPORT_INTERVAL_US >= SPLIT_POINTING_CONN_INTERVAL_US);
    assert_eq!(SPLIT_REPORT_INTERVAL_US, SPLIT_POINTING_CONN_INTERVAL_US * 2);
}

#[test]
fn central_keeps_native_hid_sized_chunks() {
    for features in [BuildFeatures::none(), production()] {
        assert_eq!(take_report_axis(&features, true, 400), i8::MAX as i16);
        assert_eq!(take_report_axis(&features, true, -400), i8::MIN as i16);
    }
}

#[test]
fn production_split_peripheral_preserves_full_i16_delta() {
    let features = production();
    assert_eq!(take_report_axis(&features, false, 32_000), 32_000);
    assert_eq!(take_report_axis(&features, false, -32_000), -32_000);
}

#[test]
fn production_split_peripheral_saturates_only_at_i16_bounds() {
    let features = production();
    assert_eq!(take_report_axis(&features, false, 40_000), i16::MAX);
    assert_eq!(take_report_axis(&features, false, -40_000), i16::MIN);
}

#[test]
fn qube_split_peripheral_keeps_legacy_i8_chunks() {
    let features = BuildFeatures::none();
    assert_eq!(LEGACY_TRANSPORT_REPORT_INTERVAL_US, 8_000);
    assert_eq!(take_report_axis(&features, false, 400), i8::MAX as i16);
    assert_eq!(take_report_axis(&features, false, -400), i8::MIN as i16);
}

#[test]
fn small_motion_goes_out_whole() {
    let features = BuildFeatures::none();
    assert_eq!(take_report_axis(&features, false, 0), 0);
    assert_eq!(take_report_axis(&features, true, -7), -7);
}

#[test]
fn exclusive_features_are_reported() {
    assert_eq!(BuildFeatures::none().conflict(), None);
    assert_eq!(production().conflict(), None);

    let mut features = production();
    features.rtt_diag = true;
    assert_eq!(features.conflict(), Some(FeatureConflict::ProductionWithDiagnostics));

    let mut features = BuildFeatures::none();
    features.pmw_force_awake_diag = true;
    features.pmw_smart_off_diag = true;
    assert_eq!(features.conflict(), Some(FeatureConflict::ForceAwakeWithSmartOff));

    let mut features = BuildFeatures::none();
    features.pmw_raw_600_diag = true;
    features.pmw_raw_1000_diag = true;
    assert_eq!(features.conflict(), Some(FeatureConflict::Raw600WithRaw1000));

    let mut features = BuildFeatures::none();
    features.pmw_axes_600 = true;
    features.pmw_raw_1000_diag = true;
    assert_eq!(features.conflict(), Some(FeatureConflict::AxesWithRaw));
}
