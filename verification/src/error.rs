//! Error taxonomy: credential validation errors, internal SDK failures, and
//! connection (negotiation) failures.

use vstd::prelude::*;
use crate::ssid::Ssid;

verus! {

/// A status code returned by the vendor SDK; zero means success.
#[derive(Debug, Clone, Copy, PartialEq, Eq, Structural)]
pub struct EspError {
    pub code: i32,
}

impl EspError {
    /// Wrap a non-zero SDK status code.
    pub fn new(code: i32) -> (r: EspError)
        ensures
            r.code == code,
    {
        EspError { code }
    }
}

/// Error returned by [`Ssid::from_bytes`](crate::ssid::Ssid::from_bytes) and
/// [`Password::from_bytes`](crate::password::Password::from_bytes).
#[derive(Debug, Clone, Copy, PartialEq, Eq, Structural)]
pub enum WifiConfigError {
    /// The data contains an interior `NUL` byte, at the given position.
    InteriorNul(usize),
    /// The data is too long: maximum length, then actual length.
    TooLong(usize, usize),
    /// The data is not valid UTF-8; the payload is the length of the longest
    /// valid prefix.
    Utf8Error(usize),
}

/// The error type returned when a connect operation fails during negotiation:
/// the network it was talking to and the disconnect reason code delivered by
/// the hardware.
#[derive(Debug, Clone)]
pub struct ConnectionError {
    pub ssid: Ssid,
    pub bssid: [u8; 6],
    pub reason: u16,
}

/// The error type for operations on a radio handle.
#[derive(Debug, Clone)]
pub enum WifiError {
    /// An internal SDK failure not directly related to WiFi negotiation.
    Internal(EspError),
    /// A negotiation failure reported by the disconnect callback.
    ConnectionError(ConnectionError),
}

impl WifiError {
    /// Wrap an SDK status code as an internal error.
    pub fn internal(err: EspError) -> (r: WifiError)
        ensures
            r == WifiError::Internal(err),
    {
        WifiError::Internal(err)
    }
}

} // verus!
