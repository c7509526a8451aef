use vstd::prelude::*;

verus! {

/// Capacity in bytes of the platform's SSID buffer.
pub const SSID_MAX_LEN: usize = 32;

/// Capacity in bytes of the platform's passphrase buffer.
pub const PASSWORD_MAX_LEN: usize = 64;

/// Channel on which the setup access point is offered.
pub const SETUP_AP_CHANNEL: u8 = 1;

/// Authentication scheme of a radio configuration.
#[derive(Clone, Copy, Debug, PartialEq, Eq)]
pub enum AuthMethod {
    Open,
    WPA2Personal,
}

/// A configuration to apply to the radio before starting it.
#[derive(Debug)]
pub enum RadioConfig {
    /// Associate to an existing network as a client.
    Station { ssid: String, password: String },
    /// Serve a network of our own.
    AccessPoint { ssid: String, password: String, channel: u8, auth: AuthMethod },
}

/// The credentials fit the platform's fixed-length buffers (lengths in UTF-8 bytes).
pub open spec fn credentials_fit(ssid: &str, password: &str) -> bool {
    ssid.len() <= SSID_MAX_LEN && password.len() <= PASSWORD_MAX_LEN
}

pub fn credentials_fit_check(ssid: &str, password: &str) -> (r: bool)
    ensures
        r == credentials_fit(ssid, password),
{
    ssid.len() <= SSID_MAX_LEN && password.len() <= PASSWORD_MAX_LEN
}

/// A station configuration for the given network name and passphrase.
pub open spec fn is_station_config(c: RadioConfig, ssid: Seq<char>, password: Seq<char>) -> bool {
    c matches RadioConfig::Station { ssid: s, password: p } && s@ == ssid && p@ == password
}

/// The fixed configuration of the setup access point.
pub open spec fn is_setup_ap_config(c: RadioConfig) -> bool {
    &&& c matches RadioConfig::AccessPoint { ssid, password, channel, auth }
    &&& ssid@ == "Notibox-Setup"@
    &&& password@ == "notibox123"@
    &&& channel == SETUP_AP_CHANNEL
    &&& auth == AuthMethod::WPA2Personal
}

/// Builds the station configuration, or `None` where either credential
/// exceeds its buffer.
pub fn station_configuration(ssid: &str, password: &str) -> (r: Option<RadioConfig>)
    ensures
        r is Some <==> credentials_fit(ssid, password),
        r matches Some(c) ==> is_station_config(c, ssid@, password@),
{
    if credentials_fit_check(ssid, password) {
        Some(RadioConfig::Station { ssid: ssid.to_string(), password: password.to_string() })
    } else {
        None
    }
}

/// The configuration of the setup access point: network "Notibox-Setup",
/// passphrase "notibox123", channel 1, WPA2-Personal.
pub fn ap_configuration() -> (r: RadioConfig)
    ensures
        is_setup_ap_config(r),
{
    RadioConfig::AccessPoint {
        ssid: String::from_str("Notibox-Setup"),
        password: String::from_str("notibox123"),
        channel: SETUP_AP_CHANNEL,
        auth: AuthMethod::WPA2Personal,
    }
}

} // verus!
