//! Configuration for running an access point.

use vstd::prelude::*;
use crate::auth_mode::AuthMode;
use crate::cipher::Cipher;
use crate::password::Password;
use crate::ssid::Ssid;

verus! {

/// Configuration for an access point, as handed to the hardware when the
/// access point is started.  Optional numeric fields hold `None` where the
/// hardware default applies.
#[derive(Debug, Clone)]
pub struct ApConfig {
    pub ssid: Ssid,
    pub password: Password,
    pub channel: Option<u8>,
    pub auth_mode: AuthMode,
    pub max_connection: Option<u8>,
    pub ssid_hidden: bool,
    pub beacon_interval: Option<u16>,
    pub pairwise_cipher: Cipher,
}

impl ApConfig {
    /// The network name the access point announces.
    pub fn ssid(&self) -> (r: &Ssid)
        ensures
            r == &self.ssid,
    {
        &self.ssid
    }

    /// The password the access point requires.
    pub fn password(&self) -> (r: &Password)
        ensures
            r == &self.password,
    {
        &self.password
    }

    /// The fixed channel, if one was configured.
    pub fn channel(&self) -> (r: Option<u8>)
        ensures
            r == self.channel,
    {
        self.channel
    }

    /// The authentication mode of the access point.
    pub fn auth_mode(&self) -> (r: AuthMode)
        ensures
            r == self.auth_mode,
    {
        self.auth_mode
    }

    /// The maximum number of simultaneous connections, if configured.
    pub fn max_connection(&self) -> (r: Option<u8>)
        ensures
            r == self.max_connection,
    {
        self.max_connection
    }

    /// Whether the network name is hidden from scans.
    pub fn ssid_hidden(&self) -> (r: bool)
        ensures
            r == self.ssid_hidden,
    {
        self.ssid_hidden
    }

    /// The beacon interval in milliseconds, if configured.
    pub fn beacon_interval(&self) -> (r: Option<u16>)
        ensures
            r == self.beacon_interval,
    {
        self.beacon_interval
    }

    /// The pairwise cipher of the access point.
    pub fn pairwise_cipher(&self) -> (r: Cipher)
        ensures
            r == self.pairwise_cipher,
    {
        self.pairwise_cipher
    }

    /// Start building an access-point configuration.
    pub fn builder() -> (r: ApConfigBuilder)
        ensures
            r.ssid is None,
            r.password@ == Seq::<u8>::empty(),
            r.channel is None,
            r.auth_mode == AuthMode::Open,
            r.max_connection == Some(4u8),
            r.ssid_hidden == false,
            r.beacon_interval == Some(100u16),
            r.pairwise_cipher == Cipher::NoCipher,
    {
        ApConfigBuilder {
            ssid: None,
            password: Password::empty(),
            channel: None,
            auth_mode: AuthMode::Open,
            max_connection: Some(4),
            ssid_hidden: false,
            beacon_interval: Some(100),
            pairwise_cipher: Cipher::NoCipher,
        }
    }
}

/// Builder for [`ApConfig`].
#[derive(Debug)]
pub struct ApConfigBuilder {
    pub ssid: Option<Ssid>,
    pub password: Password,
    pub channel: Option<u8>,
    pub auth_mode: AuthMode,
    pub max_connection: Option<u8>,
    pub ssid_hidden: bool,
    pub beacon_interval: Option<u16>,
    pub pairwise_cipher: Cipher,
}

impl Default for ApConfigBuilder {
    /// A builder with no network name, an empty password, open
    /// authentication, at most four connections, and a 100 ms beacon
    /// interval.
    fn default() -> (r: ApConfigBuilder)
        ensures
            r.ssid is None,
            r.password@ == Seq::<u8>::empty(),
            r.channel is None,
            r.auth_mode == AuthMode::Open,
            r.max_connection == Some(4u8),
            r.ssid_hidden == false,
            r.beacon_interval == Some(100u16),
            r.pairwise_cipher == Cipher::NoCipher,
    {
        ApConfig::builder()
    }
}

impl ApConfigBuilder {
    /// Set the network name the access point announces.
    pub fn ssid(&mut self, ssid: Ssid) -> (r: &mut ApConfigBuilder)
        ensures
            *r == (ApConfigBuilder { ssid: Some(ssid), ..*old(self) }),
            *final(self) == *final(r),
    {
        self.ssid = Some(ssid);
        self
    }

    /// Set the password the access point requires.
    pub fn password(&mut self, password: Password) -> (r: &mut ApConfigBuilder)
        ensures
            *r == (ApConfigBuilder { password, ..*old(self) }),
            *final(self) == *final(r),
    {
        self.password = password;
        self
    }

    /// Build the configuration.  A network name must have been set.
    pub fn build(self) -> (r: ApConfig)
        requires
            self.ssid is Some,
        ensures
            r.ssid == self.ssid.unwrap(),
            r.password == self.password,
            r.channel == self.channel,
            r.auth_mode == self.auth_mode,
            r.max_connection == self.max_connection,
            r.ssid_hidden == self.ssid_hidden,
            r.beacon_interval == self.beacon_interval,
            r.pairwise_cipher == self.pairwise_cipher,
    {
        let ApConfigBuilder {
            ssid,
            password,
            channel,
            auth_mode,
            max_connection,
            ssid_hidden,
            beacon_interval,
            pairwise_cipher,
        } = self;
        ApConfig {
            ssid: ssid.unwrap(),
            password,
            channel,
            auth_mode,
            max_connection,
            ssid_hidden,
            beacon_interval,
            pairwise_cipher,
        }
    }
}

} // verus!
