use k04_firmware::keyboard_config::{
    chosen_hook, configured_firmware_version, configured_usb_device_release, device_settings_hook,
    keyboard_sizes, parse_firmware_version, parse_usb_device_release, unlock_positions, vial_values,
    ConfigError, KeyboardSizes, Layout,
};

#[test]
fn parses_via_runtime_firmware_version() {
    assert_eq!(parse_firmware_version("0.1.3"), Some(0x0000_0103));
    assert_eq!(parse_firmware_version("12.34.56"), Some(0x000C_2238));
}

#[test]
fn rejects_invalid_runtime_firmware_versions() {
    assert_eq!(parse_firmware_version("0.1"), None);
    assert_eq!(parse_firmware_version("0.1.256"), None);
    assert_eq!(parse_firmware_version("0.1.3.4"), None);
}

#[test]
fn parses_usb_device_release_bcd() {
    assert_eq!(parse_usb_device_release("0x0109"), Some(0x0109));
    assert_eq!(parse_usb_device_release("0X1234"), Some(0x1234));
}

#[test]
fn rejects_invalid_usb_device_release_bcd() {
    assert_eq!(parse_usb_device_release("0109"), None);
    assert_eq!(parse_usb_device_release("0x10000"), None);
    assert_eq!(parse_usb_device_release("release"), None);
}

#[test]
fn written_values_are_read_back() {
    for release in [0u16, 9, 0x000a, 0x0109, 0xffff] {
        assert_eq!(parse_usb_device_release(&format!("0x{release:x}")), Some(release));
    }
    for (major, minor, patch) in [(0u16, 0u8, 0u8), (1, 10, 99), (65_535, 255, 255)] {
        assert_eq!(
            parse_firmware_version(&format!("{major}.{minor}.{patch}")),
            Some(u32::from(major) << 16 | u32::from(minor) << 8 | u32::from(patch))
        );
    }
}

#[test]
fn numbers_follow_the_standard_grammar() {
    assert_eq!(parse_firmware_version(" \u{3000}65535.+255.007\n"), Some(0xffff_ff07));
    assert_eq!(parse_firmware_version("65536.0.0"), None);
    assert_eq!(parse_firmware_version("-0.1.2"), None);
    assert_eq!(parse_firmware_version("1.+.2"), None);
    assert_eq!(parse_firmware_version("1..2"), None);
    assert_eq!(parse_firmware_version("1.a.2"), None);
    assert_eq!(parse_firmware_version("1. 2.3"), None);
    assert_eq!(parse_firmware_version(""), None);
    assert_eq!(parse_usb_device_release("\t0xfFaB "), Some(0xffab));
    assert_eq!(parse_usb_device_release("0x"), None);
    assert_eq!(parse_usb_device_release("0x+1"), Some(1));
    assert_eq!(parse_usb_device_release("0x1g"), None);
    assert_eq!(parse_usb_device_release("0x00000001"), Some(1));
}

#[test]
fn build_variables_have_defaults_and_errors() {
    assert_eq!(configured_usb_device_release(None), Ok(0x0010));
    assert_eq!(configured_usb_device_release(Some("0x0109")), Ok(0x0109));
    assert_eq!(configured_usb_device_release(Some("1.0.9")), Err(ConfigError::DeviceRelease));
    assert_eq!(configured_firmware_version(None, 9), Ok(9));
    assert_eq!(configured_firmware_version(Some("0.1.9"), 9), Ok(0x0109));
    assert_eq!(configured_firmware_version(Some("0.1"), 9), Err(ConfigError::FirmwareVersion));
}

#[test]
fn settings_hook_must_be_a_path() {
    assert_eq!(device_settings_hook(Some("crate::settings::vial")), Some("crate::settings::vial"));
    assert_eq!(device_settings_hook(Some("not a path")), None);
    assert_eq!(device_settings_hook(Some("")), None);
    assert_eq!(device_settings_hook(None), None);
    assert_eq!(chosen_hook(Some("x"), true), Some("x"));
    assert_eq!(chosen_hook(Some("x"), false), None);
}

#[test]
fn vial_values_depend_on_vial() {
    assert!(matches!(vial_values(false, true, Some("bad"), 1, None), Ok(None)));
    assert!(matches!(
        vial_values(true, true, Some("bad"), 1, None),
        Err(ConfigError::FirmwareVersion)
    ));
    let values = vial_values(true, true, None, 7, Some("a::b")).unwrap().unwrap();
    assert_eq!(values.firmware_version, 7);
    assert!(values.vial_insecure);
    assert_eq!(values.settings_hook, Some("a::b"));
}

#[test]
fn sizes_sum_the_encoders() {
    let layout = Layout { cols: 6, rows: 5, layers: 8, encoder_counts: vec![1, 2] };
    assert_eq!(
        keyboard_sizes(&layout),
        KeyboardSizes { cols: 6, rows: 5, layers: 8, encoders: 3 }
    );
    assert_eq!(unlock_positions(&vec![[0, 1], [2, 3]]), vec![(0, 1), (2, 3)]);
}
