//! WiFi authentication modes, carried opaquely as enumerated hardware values
//! and mapped to a small fixed vocabulary.

use vstd::prelude::*;

verus! {

/// A WiFi authentication mode.
#[derive(Debug, Clone, Copy, PartialEq, Eq, Structural)]
pub enum AuthMode {
    Open,
    Wep,
    WpaPsk,
    WpaWpa2Psk,
    Wpa2Psk,
    Wpa2Wpa3Psk,
    Wpa3Psk,
    Wpa2Enterprise,
    WapiPsk,
}

/// The numeric value the hardware uses for `mode`.
pub open spec fn spec_auth_code(mode: AuthMode) -> u32 {
    match mode {
        AuthMode::Open => 0,
        AuthMode::Wep => 1,
        AuthMode::WpaPsk => 2,
        AuthMode::Wpa2Psk => 3,
        AuthMode::WpaWpa2Psk => 4,
        AuthMode::Wpa2Enterprise => 5,
        AuthMode::Wpa3Psk => 6,
        AuthMode::Wpa2Wpa3Psk => 7,
        AuthMode::WapiPsk => 8,
    }
}

/// The mode denoted by a numeric hardware value, if any.
pub open spec fn spec_auth_from_code(code: u32) -> Option<AuthMode> {
    if code == 0 {
        Some(AuthMode::Open)
    } else if code == 1 {
        Some(AuthMode::Wep)
    } else if code == 2 {
        Some(AuthMode::WpaPsk)
    } else if code == 3 {
        Some(AuthMode::Wpa2Psk)
    } else if code == 4 {
        Some(AuthMode::WpaWpa2Psk)
    } else if code == 5 {
        Some(AuthMode::Wpa2Enterprise)
    } else if code == 6 {
        Some(AuthMode::Wpa3Psk)
    } else if code == 7 {
        Some(AuthMode::Wpa2Wpa3Psk)
    } else if code == 8 {
        Some(AuthMode::WapiPsk)
    } else {
        None
    }
}

impl AuthMode {
    /// The numeric value the hardware uses for this mode.
    pub fn code(self) -> (r: u32)
        ensures
            r == spec_auth_code(self),
    {
        match self {
            AuthMode::Open => 0,
            AuthMode::Wep => 1,
            AuthMode::WpaPsk => 2,
            AuthMode::Wpa2Psk => 3,
            AuthMode::WpaWpa2Psk => 4,
            AuthMode::Wpa2Enterprise => 5,
            AuthMode::Wpa3Psk => 6,
            AuthMode::Wpa2Wpa3Psk => 7,
            AuthMode::WapiPsk => 8,
        }
    }

    /// Map a numeric hardware value to a mode; values outside the fixed
    /// vocabulary are rejected.
    pub fn from_code(code: u32) -> (r: Option<AuthMode>)
        ensures
            r == spec_auth_from_code(code),
    {
        match code {
            0 => Some(AuthMode::Open),
            1 => Some(AuthMode::Wep),
            2 => Some(AuthMode::WpaPsk),
            3 => Some(AuthMode::Wpa2Psk),
            4 => Some(AuthMode::WpaWpa2Psk),
            5 => Some(AuthMode::Wpa2Enterprise),
            6 => Some(AuthMode::Wpa3Psk),
            7 => Some(AuthMode::Wpa2Wpa3Psk),
            8 => Some(AuthMode::WapiPsk),
            _ => None,
        }
    }
}

/// The numeric encoding and decoding of authentication modes are mutually
/// inverse over the fixed vocabulary.
pub proof fn lemma_auth_code_round_trip(mode: AuthMode)
    ensures
        spec_auth_from_code(spec_auth_code(mode)) == Some(mode),
{
}

} // verus!
