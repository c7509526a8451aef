use vstd::prelude::*;
use crate::config::credentials_fit;
use crate::session::{ap_start, station_start, ConnectSession, WifiError};

verus! {

/// Seconds between two health checks of the radio.
pub const RECONNECT_INTERVAL_SECS: u64 = 30;

/// Statuses the status channel holds before a sender has to wait.
pub const STATUS_CHANNEL_CAPACITY: usize = 10;

/// The first session of the long-running task: with saved credentials, an
/// attempt to join that network; without, the setup access point directly.
pub fn startup_session(saved: Option<(&str, &str)>) -> (r: Result<ConnectSession, WifiError>)
    ensures
        saved is None ==> (r matches Ok(s) && s@ == ap_start()),
        saved matches Some((ssid, password)) ==> {
            &&& (r is Ok <==> credentials_fit(ssid, password))
            &&& (r matches Ok(s) ==> s@ == station_start(ssid@, password@))
            &&& (r matches Err(e) ==> e == WifiError::CredentialTooLong)
        },
{
    match saved {
        Some((ssid, password)) => ConnectSession::connect_or_ap_mode(ssid, password),
        None => Ok(ConnectSession::start_ap_mode()),
    }
}

/// A health check that found the radio not associated calls for a new
/// attempt, where the last credentials used are known and fit.
pub open spec fn calls_for_reconnect(associated: bool, last: Option<(&str, &str)>) -> bool {
    &&& !associated
    &&& last matches Some((ssid, password))
    &&& credentials_fit(ssid, password)
}

/// The decision after a periodic health check: a fresh attempt with the last
/// credentials used when the radio is not associated and such credentials
/// are known and fit; otherwise nothing to do.
pub fn reconnect_session(associated: bool, last: Option<(&str, &str)>) -> (r: Option<ConnectSession>)
    ensures
        r is Some <==> calls_for_reconnect(associated, last),
        r matches Some(s) ==> (last matches Some((ssid, password)) && s@ == station_start(
            ssid@,
            password@,
        )),
{
    if associated {
        return None;
    }
    match last {
        Some((ssid, password)) => match ConnectSession::connect_or_ap_mode(ssid, password) {
            Ok(s) => Some(s),
            Err(_) => None,
        },
        None => None,
    }
}

} // verus!
