use vstd::prelude::*;

verus! {

/// Lifecycle status of the radio, as reported to observers.
#[derive(Clone, Copy, Debug, PartialEq, Eq)]
pub enum WiFiStatus {
    Disconnected,
    Connecting,
    Connected { ip: [u8; 4] },
    ApMode { ip: [u8; 4] },
}

/// Address reported after a successful station association. It is a fixed
/// placeholder: the address assigned by the network is not queried.
pub open spec fn station_address_spec() -> [u8; 4] {
    [192u8, 168u8, 1u8, 100u8]
}

/// Address of the radio while it serves as an access point.
pub open spec fn access_point_address_spec() -> [u8; 4] {
    [192u8, 168u8, 4u8, 1u8]
}

/// The status reported when station mode came up.
pub open spec fn connected_status() -> WiFiStatus {
    WiFiStatus::Connected { ip: station_address_spec() }
}

/// The status reported when the access point came up.
pub open spec fn ap_mode_status() -> WiFiStatus {
    WiFiStatus::ApMode { ip: access_point_address_spec() }
}

pub fn station_address() -> (r: [u8; 4])
    ensures
        r == station_address_spec(),
{
    [192, 168, 1, 100]
}

pub fn access_point_address() -> (r: [u8; 4])
    ensures
        r == access_point_address_spec(),
{
    [192, 168, 4, 1]
}

impl WiFiStatus {
    /// Whether this status ends a connect-or-fallback attempt with the radio up.
    pub open spec fn is_terminal_spec(self) -> bool {
        self is Connected || self is ApMode
    }

    pub fn is_terminal(&self) -> (r: bool)
        ensures
            r == self.is_terminal_spec(),
    {
        match self {
            WiFiStatus::Connected { .. } | WiFiStatus::ApMode { .. } => true,
            _ => false,
        }
    }
}

} // verus!
