//! Management of a shared station/access-point radio peripheral: validated
//! credential types, reference-counted radio-mode arbitration, and the
//! callback-driven connect and scan state machines, together with the small
//! DNS question parser used by the captive portal around them.
//!
//! The vendor SDK behind the peripheral is an opaque box reached only
//! through command submissions and an asynchronous notification channel, so
//! the library carries an explicit [`Radio`] value standing for the
//! hardware and the process-wide driver state.  Every driver decision is a
//! verified function over that value; the surrounding program performs the
//! physical calls, reports their status through the radio's scripted status
//! queue, and forwards each hardware notification to the pending
//! operation's handler, which replaces the operation's state and says
//! whether the suspended caller must be woken.

mod ap_config;
mod auth_mode;
mod cipher;
mod connect;
mod credential;
mod dns;
mod error;
mod form;
mod ip;
mod mode;
mod password;
mod radio;
mod scan;
mod ssid;
mod sta_config;
mod trusted;
mod wifi;

pub use ap_config::{ApConfig, ApConfigBuilder};
pub use auth_mode::AuthMode;
pub use cipher::Cipher;
pub use connect::{ConnectEvent, ConnectOperation, ConnectPoll, ConnectState, ConnectionInfo};
pub use dns::{Question, QuestionName, Questions, QueryClass, QueryKind, ResponseCode};
pub use error::{ConnectionError, EspError, WifiConfigError, WifiError};
pub use form::{form_decode_bytes, ssid_and_password};
pub use ip::{IpInfo, Ipv4Addr};
pub use mode::WifiMode;
pub use password::Password;
pub use radio::{EventId, Radio, Subscriptions};
pub use scan::{
    millis_clamped, ApRecord, ApRecordRaw, ScanConfig, ScanConfigBuilder, ScanOperation,
    ScanParams, ScanPoll, ScanState, ScanType,
};
pub use ssid::Ssid;
pub use sta_config::{ScanMethod, ScanThreshold, SortMethod, StaConfig, StaConfigBuilder};
pub use wifi::{Ap, Sta, Wifi, WifiInner};
