//! How device values are shown to clients.
use crate::proto::{DeviceOs, DeviceState};
use vstd::prelude::*;

verus! {

/// The name of an operating system.
pub open spec fn os_name(os: DeviceOs) -> Seq<char> {
    match os {
        DeviceOs::Unspecified => "unspecified"@,
        DeviceOs::Linux => "linux"@,
        DeviceOs::Macos => "macos"@,
        DeviceOs::Windows => "windows"@,
        DeviceOs::Android => "android"@,
        DeviceOs::Ios => "ios"@,
        DeviceOs::Freebsd => "freebsd"@,
    }
}

/// The name of a device state.
pub open spec fn state_name(state: DeviceState) -> Seq<char> {
    match state {
        DeviceState::Unspecified => "unspecified"@,
        DeviceState::Online => "online"@,
        DeviceState::Offline => "offline"@,
        DeviceState::Revoked => "revoked"@,
    }
}

/// Text `shown` is what a client sees for the operating system number `os`: its name, or
/// `unspecified` where the number stands for none.
pub open spec fn shows_os(os: i32, shown: Seq<char>) -> bool {
    &&& forall|known: DeviceOs| #[trigger] known.number() == os ==> shown == os_name(known)
    &&& (forall|known: DeviceOs| #[trigger] known.number() != os) ==> shown == "unspecified"@
}

/// Text `shown` is what a client sees for the device state number `state`: its name, or
/// `unspecified` where the number stands for none.
pub open spec fn shows_state(state: i32, shown: Seq<char>) -> bool {
    &&& forall|known: DeviceState| #[trigger] known.number() == state ==> shown == state_name(known)
    &&& (forall|known: DeviceState| #[trigger] known.number() != state) ==> shown
        == "unspecified"@
}

/// The text for an operating system number; never fails.
pub fn device_os_str(os: i32) -> (r: &'static str)
    ensures
        shows_os(os, r@),
{
    match DeviceOs::from_wire(os) {
        Some(DeviceOs::Linux) => "linux",
        Some(DeviceOs::Macos) => "macos",
        Some(DeviceOs::Windows) => "windows",
        Some(DeviceOs::Android) => "android",
        Some(DeviceOs::Ios) => "ios",
        Some(DeviceOs::Freebsd) => "freebsd",
        _ => "unspecified",
    }
}

/// The text for a device state number; never fails.
pub fn device_state_str(state: i32) -> (r: &'static str)
    ensures
        shows_state(state, r@),
{
    match DeviceState::from_wire(state) {
        Some(DeviceState::Online) => "online",
        Some(DeviceState::Offline) => "offline",
        Some(DeviceState::Revoked) => "revoked",
        _ => "unspecified",
    }
}

/// Different states are shown differently: a revoked device in particular is never shown
/// as online.
pub proof fn law_states_are_told_apart(a: DeviceState, b: DeviceState)
    requires
        a != b,
    ensures
        state_name(a) != state_name(b),
{
    reveal_strlit("unspecified");
    reveal_strlit("online");
    reveal_strlit("offline");
    reveal_strlit("revoked");
    assert("unspecified"@.len() == 11 && "online"@.len() == 6);
    assert("offline"@.len() == 7 && "revoked"@.len() == 7);
    assert("offline"@[0] != "revoked"@[0]);
}

/// Different operating systems are shown differently.
pub proof fn law_operating_systems_are_told_apart(a: DeviceOs, b: DeviceOs)
    requires
        a != b,
    ensures
        os_name(a) != os_name(b),
{
    reveal_strlit("unspecified");
    reveal_strlit("linux");
    reveal_strlit("macos");
    reveal_strlit("windows");
    reveal_strlit("android");
    reveal_strlit("ios");
    reveal_strlit("freebsd");
    assert("unspecified"@.len() == 11 && "ios"@.len() == 3);
    assert("linux"@.len() == 5 && "macos"@.len() == 5);
    assert("windows"@.len() == 7 && "android"@.len() == 7 && "freebsd"@.len() == 7);
    assert("linux"@[0] != "macos"@[0]);
    assert("windows"@[0] != "android"@[0]);
    assert("windows"@[0] != "freebsd"@[0]);
    assert("android"@[0] != "freebsd"@[0]);
}

/// Every number is shown as one text only, and only numbers without a meaning of their own
/// are shown as `unspecified`.
pub proof fn law_unknown_values_are_unspecified(number: i32, shown: Seq<char>)
    ensures
        shows_os(number, shown) && !(1 <= number <= 6) ==> shown == "unspecified"@,
        shows_os(number, shown) && 1 <= number <= 6 ==> shown != "unspecified"@,
        shows_state(number, shown) && !(1 <= number <= 3) ==> shown == "unspecified"@,
        shows_state(number, shown) && 1 <= number <= 3 ==> shown != "unspecified"@,
{
    assert(DeviceOs::Unspecified.number() == 0);
    assert(DeviceState::Unspecified.number() == 0);
    if 1 <= number <= 6 {
        let os = if number == 1 {
            DeviceOs::Linux
        } else if number == 2 {
            DeviceOs::Macos
        } else if number == 3 {
            DeviceOs::Windows
        } else if number == 4 {
            DeviceOs::Android
        } else if number == 5 {
            DeviceOs::Ios
        } else {
            DeviceOs::Freebsd
        };
        assert(os.number() == number);
        law_operating_systems_are_told_apart(os, DeviceOs::Unspecified);
    }
    if 1 <= number <= 3 {
        let state = if number == 1 {
            DeviceState::Online
        } else if number == 2 {
            DeviceState::Offline
        } else {
            DeviceState::Revoked
        };
        assert(state.number() == number);
        law_states_are_told_apart(state, DeviceState::Unspecified);
    }
}

} // verus!
