use vynkor::api::display::{device_os_str, device_state_str};
use vynkor::proto::{DeviceOs, DeviceState};

#[test]
fn operating_systems_have_names() {
    let names: Vec<&str> = (0..=6).map(device_os_str).collect();
    assert_eq!(
        names,
        vec!["unspecified", "linux", "macos", "windows", "android", "ios", "freebsd"]
    );
}

#[test]
fn states_have_names() {
    let names: Vec<&str> = (0..=3).map(device_state_str).collect();
    assert_eq!(names, vec!["unspecified", "online", "offline", "revoked"]);
}

#[test]
fn unknown_numbers_read_as_unspecified() {
    for n in [-1, 7, 100, i32::MIN, i32::MAX] {
        assert_eq!(device_os_str(n), "unspecified");
    }
    for n in [-1, 4, 100, i32::MIN, i32::MAX] {
        assert_eq!(device_state_str(n), "unspecified");
    }
}

#[test]
fn revoked_is_never_shown_as_online() {
    assert_eq!(DeviceState::from_wire(3), Some(DeviceState::Revoked));
    assert_ne!(device_state_str(3), device_state_str(1));
    assert_eq!(DeviceState::from_wire(4), None);
    assert_eq!(DeviceOs::from_wire(6), Some(DeviceOs::Freebsd));
    assert_eq!(DeviceOs::from_wire(7), None);
}
