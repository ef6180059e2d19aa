//! Configuration for connecting to an access point in station mode.

use vstd::prelude::*;
use crate::auth_mode::AuthMode;
use crate::password::Password;
use crate::ssid::Ssid;

verus! {

/// Scan method used when connecting to an access point.
#[derive(Debug, Clone, Copy, PartialEq, Eq, Structural)]
pub enum ScanMethod {
    Fast,
    Full,
}

impl Default for ScanMethod {
    /// The default scan method is the fast scan.
    fn default() -> (r: ScanMethod)
        ensures
            r == ScanMethod::Fast,
    {
        ScanMethod::Fast
    }
}

/// Sort method for prioritization of access points to connect to.
#[derive(Debug, Clone, Copy, PartialEq, Eq, Structural)]
pub enum SortMethod {
    BySignal,
    BySecurity,
}

impl Default for SortMethod {
    /// The default sort method prioritizes by signal strength.
    fn default() -> (r: SortMethod)
        ensures
            r == SortMethod::BySignal,
    {
        SortMethod::BySignal
    }
}

/// Scan threshold used when connecting to an access point.
#[derive(Debug, Clone, Copy, PartialEq, Eq, Structural)]
pub struct ScanThreshold {
    pub rssi: i8,
    pub auth_mode: AuthMode,
}

impl Default for ScanThreshold {
    /// The default threshold admits any signal and any authentication mode.
    fn default() -> (r: ScanThreshold)
        ensures
            r == (ScanThreshold { rssi: -127i8, auth_mode: AuthMode::Open }),
    {
        ScanThreshold { rssi: -127, auth_mode: AuthMode::Open }
    }
}

/// Configuration for a station, as handed to the hardware when a connect
/// operation starts.
#[derive(Debug, Clone)]
pub struct StaConfig {
    pub ssid: Ssid,
    pub password: Password,
    pub scan_method: ScanMethod,
    pub bssid: Option<[u8; 6]>,
    pub channel: Option<u8>,
    pub listen_interval: Option<u16>,
    pub sort_method: SortMethod,
    pub threshold: Option<ScanThreshold>,
}

impl StaConfig {
    /// The network name to connect to.
    pub fn ssid(&self) -> (r: &Ssid)
        ensures
            r == &self.ssid,
    {
        &self.ssid
    }

    /// The password to connect with.
    pub fn password(&self) -> (r: &Password)
        ensures
            r == &self.password,
    {
        &self.password
    }

    /// The scan method used during connection.
    pub fn scan_method(&self) -> (r: ScanMethod)
        ensures
            r == self.scan_method,
    {
        self.scan_method
    }

    /// The fixed channel, if one was configured.
    pub fn channel(&self) -> (r: Option<u8>)
        ensures
            r == self.channel,
    {
        self.channel
    }

    /// Start building a station configuration.
    pub fn builder() -> (r: StaConfigBuilder)
        ensures
            r.ssid is None,
            r.password@ == Seq::<u8>::empty(),
            r.scan_method == ScanMethod::Fast,
            r.bssid is None,
            r.channel is None,
            r.listen_interval is None,
            r.sort_method == SortMethod::BySignal,
            r.threshold is None,
    {
        StaConfigBuilder {
            ssid: None,
            password: Password::empty(),
            scan_method: ScanMethod::Fast,
            bssid: None,
            channel: None,
            listen_interval: None,
            sort_method: SortMethod::BySignal,
            threshold: None,
        }
    }
}

/// Builder for [`StaConfig`].
#[derive(Debug)]
pub struct StaConfigBuilder {
    pub ssid: Option<Ssid>,
    pub password: Password,
    pub scan_method: ScanMethod,
    pub bssid: Option<[u8; 6]>,
    pub channel: Option<u8>,
    pub listen_interval: Option<u16>,
    pub sort_method: SortMethod,
    pub threshold: Option<ScanThreshold>,
}

impl Default for StaConfigBuilder {
    /// A builder with no network name and an empty password.
    fn default() -> (r: StaConfigBuilder)
        ensures
            r.ssid is None,
            r.password@ == Seq::<u8>::empty(),
            r.scan_method == ScanMethod::Fast,
            r.bssid is None,
            r.channel is None,
            r.listen_interval is None,
            r.sort_method == SortMethod::BySignal,
            r.threshold is None,
    {
        StaConfig::builder()
    }
}

impl StaConfigBuilder {
    /// Set the network name to connect to.
    pub fn ssid(&mut self, ssid: Ssid) -> (r: &mut StaConfigBuilder)
        ensures
            *r == (StaConfigBuilder { ssid: Some(ssid), ..*old(self) }),
            *final(self) == *final(r),
    {
        self.ssid = Some(ssid);
        self
    }

    /// Set the password to connect with.
    pub fn password(&mut self, password: Password) -> (r: &mut StaConfigBuilder)
        ensures
            *r == (StaConfigBuilder { password, ..*old(self) }),
            *final(self) == *final(r),
    {
        self.password = password;
        self
    }

    /// Build the configuration.  A network name must have been set.
    pub fn build(self) -> (r: StaConfig)
        requires
            self.ssid is Some,
        ensures
            r.ssid == self.ssid.unwrap(),
            r.password == self.password,
            r.scan_method == self.scan_method,
            r.bssid == self.bssid,
            r.channel == self.channel,
            r.listen_interval == self.listen_interval,
            r.sort_method == self.sort_method,
            r.threshold == self.threshold,
    {
        let StaConfigBuilder {
            ssid,
            password,
            scan_method,
            bssid,
            channel,
            listen_interval,
            sort_method,
            threshold,
        } = self;
        StaConfig {
            ssid: ssid.unwrap(),
            password,
            scan_method,
            bssid,
            channel,
            listen_interval,
            sort_method,
            threshold,
        }
    }
}

} // verus!
