//! Wire values of the device protocol.
use vstd::prelude::*;

verus! {

/// The operating system of a device.
#[derive(Clone, Copy, Debug, PartialEq, Eq, Structural)]
pub enum DeviceOs {
    Unspecified,
    Linux,
    Macos,
    Windows,
    Android,
    Ios,
    Freebsd,
}

/// The connection state of a device.
#[derive(Clone, Copy, Debug, PartialEq, Eq, Structural)]
pub enum DeviceState {
    Unspecified,
    Online,
    Offline,
    Revoked,
}

impl DeviceOs {
    /// The number on the wire.
    pub open spec fn number(self) -> int {
        match self {
            DeviceOs::Unspecified => 0,
            DeviceOs::Linux => 1,
            DeviceOs::Macos => 2,
            DeviceOs::Windows => 3,
            DeviceOs::Android => 4,
            DeviceOs::Ios => 5,
            DeviceOs::Freebsd => 6,
        }
    }

    /// The operating system with this number on the wire, if there is one.
    pub fn from_wire(number: i32) -> (r: Option<DeviceOs>)
        ensures
            match r {
                Some(os) => os.number() == number,
                None => forall|os: DeviceOs| #![trigger os.number()] os.number() != number,
            },
    {
        match number {
            0 => Some(DeviceOs::Unspecified),
            1 => Some(DeviceOs::Linux),
            2 => Some(DeviceOs::Macos),
            3 => Some(DeviceOs::Windows),
            4 => Some(DeviceOs::Android),
            5 => Some(DeviceOs::Ios),
            6 => Some(DeviceOs::Freebsd),
            _ => None,
        }
    }
}

impl DeviceState {
    /// The number on the wire.
    pub open spec fn number(self) -> int {
        match self {
            DeviceState::Unspecified => 0,
            DeviceState::Online => 1,
            DeviceState::Offline => 2,
            DeviceState::Revoked => 3,
        }
    }

    /// The state with this number on the wire, if there is one.
    pub fn from_wire(number: i32) -> (r: Option<DeviceState>)
        ensures
            match r {
                Some(state) => state.number() == number,
                None => forall|state: DeviceState| #![trigger state.number()] state.number() != number,
            },
    {
        match number {
            0 => Some(DeviceState::Unspecified),
            1 => Some(DeviceState::Online),
            2 => Some(DeviceState::Offline),
            3 => Some(DeviceState::Revoked),
            _ => None,
        }
    }
}

} // verus!
