use cosmic_connect_plugins::upower::{battery_device_path, is_battery_device, str_contains, BATTERY_PATH_BAT1};

#[test]
fn battery_device_prefers_the_usual_paths() {
    let devices = vec!["/org/freedesktop/UPower/devices/battery_CMB0".to_string()];
    assert_eq!(battery_device_path([false, true, true], &devices), Some(BATTERY_PATH_BAT1.to_string()));
    assert_eq!(
        battery_device_path([false, false, true], &devices),
        Some("/org/freedesktop/UPower/devices/DisplayDevice".to_string())
    );
}

#[test]
fn battery_device_falls_back_to_enumeration() {
    let devices = vec![
        "/org/freedesktop/UPower/devices/line_power_AC".to_string(),
        "/org/freedesktop/UPower/devices/mouse_dev_BAT".to_string(),
        "/org/freedesktop/UPower/devices/battery_CMB0".to_string(),
    ];
    assert_eq!(
        battery_device_path([false, false, false], &devices),
        Some("/org/freedesktop/UPower/devices/mouse_dev_BAT".to_string())
    );
    assert_eq!(battery_device_path([false, false, false], &devices[..1]), None);
}

#[test]
fn substring_search() {
    assert!(str_contains("battery_BAT0", "BAT"));
    assert!(str_contains("abc", ""));
    assert!(!str_contains("ab", "abc"));
    assert!(!str_contains("Battery", "battery"));
    assert!(is_battery_device("/devices/battery_x"));
    assert!(!is_battery_device("/devices/line_power"));
}
