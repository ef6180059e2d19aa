//! Scanning nearby WiFi networks: configuration, the hardware scan
//! parameters derived from it, and the records a scan returns.

use vstd::prelude::*;
use vstd::pervasive::unreached;
use crate::auth_mode::{spec_auth_from_code, AuthMode};
use crate::credential::valid_credential;
use crate::error::{EspError, WifiError};
use crate::mode::{mode_op_apply, ModeOp};
use crate::radio::{
    fault_at, faults_after, lemma_fault_at_after, script_fails_with, script_ok, EventId, Radio,
};
use crate::ssid::{Ssid, SSID_MAX_LEN};
use crate::wifi::Wifi;

verus! {

/// Scan type used for scanning nearby WiFi networks.
///
/// All durations are per-channel times in nanoseconds; a duration of `0`
/// means that the hardware default will be used.
#[derive(Debug, Clone, Copy, PartialEq, Eq, Structural)]
pub enum ScanType {
    /// Active scanning, with a minimum and maximum duration per channel.
    Active { min: u64, max: u64 },
    /// Passive scanning, with a maximum duration per channel.
    Passive { max: u64 },
}

impl Default for ScanType {
    /// The default is an active scan with the hardware's default timing.
    fn default() -> (r: ScanType)
        ensures
            r == (ScanType::Active { min: 0u64, max: 0u64 }),
    {
        ScanType::Active { min: 0, max: 0 }
    }
}

/// A duration in nanoseconds clamped to the hardware's millisecond
/// granularity: `0` stays `0` (hardware default), anything else is rounded
/// into the inclusive millisecond range `[1, u32::MAX]`.
pub open spec fn spec_millis_clamped(nanos: u64) -> u32 {
    if nanos == 0 {
        0
    } else {
        let ms = (if nanos < 1000000 {
            1000000int
        } else {
            nanos as int
        }) / 1000000;
        if ms > 0xFFFFFFFF {
            0xFFFFFFFFu32
        } else {
            ms as u32
        }
    }
}

/// Clamp a nanosecond duration to whole milliseconds as
/// [`spec_millis_clamped`] prescribes.
pub fn millis_clamped(nanos: u64) -> (r: u32)
    ensures
        r == spec_millis_clamped(nanos),
{
    if nanos == 0 {
        0
    } else {
        let floor: u64 = if nanos < 1000000 {
            1000000
        } else {
            nanos
        };
        let ms: u64 = floor / 1000000;
        if ms > 0xFFFFFFFF {
            0xFFFFFFFF
        } else {
            ms as u32
        }
    }
}

/// Configuration used for scanning nearby WiFi networks.
#[derive(Debug, Clone)]
pub struct ScanConfig {
    pub ssid: Option<Ssid>,
    pub bssid: Option<[u8; 6]>,
    pub channel: u8,
    pub show_hidden: bool,
    pub scan_type: ScanType,
}

impl ScanConfig {
    /// Start building a scan configuration.
    pub fn builder() -> (r: ScanConfigBuilder)
        ensures
            r.ssid is None,
            r.bssid is None,
            r.channel == 0,
            r.show_hidden == false,
            r.scan_type == (ScanType::Active { min: 0u64, max: 0u64 }),
    {
        ScanConfigBuilder {
            ssid: None,
            bssid: None,
            channel: 0,
            show_hidden: false,
            scan_type: ScanType::Active { min: 0, max: 0 },
        }
    }
}

/// Builder for [`ScanConfig`].
#[derive(Debug, Clone)]
pub struct ScanConfigBuilder {
    pub ssid: Option<Ssid>,
    pub bssid: Option<[u8; 6]>,
    pub channel: u8,
    pub show_hidden: bool,
    pub scan_type: ScanType,
}

impl ScanConfigBuilder {
    /// Restrict the scan to one network name.
    pub fn ssid(self, ssid: Option<Ssid>) -> (r: ScanConfigBuilder)
        ensures
            r == (ScanConfigBuilder { ssid, ..self }),
    {
        ScanConfigBuilder { ssid, ..self }
    }

    /// Restrict the scan to one access-point hardware address.
    pub fn bssid(self, bssid: Option<[u8; 6]>) -> (r: ScanConfigBuilder)
        ensures
            r == (ScanConfigBuilder { bssid, ..self }),
    {
        ScanConfigBuilder { bssid, ..self }
    }

    /// Restrict the scan to one channel; `0` scans all channels.
    pub fn channel(self, channel: u8) -> (r: ScanConfigBuilder)
        ensures
            r == (ScanConfigBuilder { channel, ..self }),
    {
        ScanConfigBuilder { channel, ..self }
    }

    /// Whether hidden networks are reported.
    pub fn show_hidden(self, show_hidden: bool) -> (r: ScanConfigBuilder)
        ensures
            r == (ScanConfigBuilder { show_hidden, ..self }),
    {
        ScanConfigBuilder { show_hidden, ..self }
    }

    /// Set the scan type and timing.
    pub fn scan_type(self, scan_type: ScanType) -> (r: ScanConfigBuilder)
        ensures
            r == (ScanConfigBuilder { scan_type, ..self }),
    {
        ScanConfigBuilder { scan_type, ..self }
    }

    /// Build the configuration.
    pub fn build(self) -> (r: ScanConfig)
        ensures
            r.ssid == self.ssid,
            r.bssid == self.bssid,
            r.channel == self.channel,
            r.show_hidden == self.show_hidden,
            r.scan_type == self.scan_type,
    {
        let ScanConfigBuilder { ssid, bssid, channel, show_hidden, scan_type } = self;
        ScanConfig { ssid, bssid, channel, show_hidden, scan_type }
    }
}

/// The scan parameters handed to the hardware: filters, channel, visibility
/// of hidden networks, and per-channel timing in milliseconds (`0` means the
/// hardware default).
#[derive(Debug, Clone)]
pub struct ScanParams {
    pub ssid: Option<Ssid>,
    pub bssid: Option<[u8; 6]>,
    pub channel: u8,
    pub show_hidden: bool,
    pub passive: bool,
    pub active_min_ms: u32,
    pub active_max_ms: u32,
    pub passive_ms: u32,
}

/// A raw access-point record as the hardware reports it: a `NUL`-terminated
/// name buffer, the access point's hardware address, and the numeric
/// authentication mode.
#[derive(Debug, Clone)]
pub struct ApRecordRaw {
    pub ssid: Vec<u8>,
    pub bssid: [u8; 6],
    pub auth_code: u32,
}

/// An access point record returned by a completed scan.
#[derive(Debug, Clone)]
pub struct ApRecord {
    pub ssid: Ssid,
    pub bssid: [u8; 6],
    pub auth_mode: AuthMode,
}

impl ApRecord {
    /// The name of the network.
    pub fn ssid(&self) -> (r: &Ssid)
        ensures
            r == &self.ssid,
    {
        &self.ssid
    }

    /// The hardware address of the access point.
    pub fn bssid(&self) -> (r: [u8; 6])
        ensures
            r == self.bssid,
    {
        self.bssid
    }

    /// The authentication mode of the access point.
    pub fn auth_mode(&self) -> (r: AuthMode)
        ensures
            r == self.auth_mode,
    {
        self.auth_mode
    }
}

/// The translation of a scan configuration into hardware parameters: the
/// filters are carried over and every duration is clamped to milliseconds.
pub open spec fn params_match_config(p: ScanParams, c: ScanConfig) -> bool {
    &&& (c.ssid is None ==> p.ssid is None)
    &&& (c.ssid matches Some(s) ==> p.ssid matches Some(t) && t@ == s@)
    &&& p.bssid == c.bssid
    &&& p.channel == c.channel
    &&& p.show_hidden == c.show_hidden
    &&& match c.scan_type {
        ScanType::Active { min, max } => {
            &&& !p.passive
            &&& p.active_min_ms == spec_millis_clamped(min)
            &&& p.active_max_ms == spec_millis_clamped(max)
            &&& p.passive_ms == 0
        },
        ScanType::Passive { max } => {
            &&& p.passive
            &&& p.active_min_ms == 0
            &&& p.active_max_ms == 0
            &&& p.passive_ms == spec_millis_clamped(max)
        },
    }
}

/// Translate a scan configuration into the parameters handed to the
/// hardware.
pub fn scan_params_of(config: &ScanConfig) -> (r: ScanParams)
    ensures
        params_match_config(r, *config),
{
    let ssid = match &config.ssid {
        Some(s) => Some(s.clone()),
        None => None,
    };
    let (passive, active_min_ms, active_max_ms, passive_ms) = match config.scan_type {
        ScanType::Active { min, max } => (false, millis_clamped(min), millis_clamped(max), 0u32),
        ScanType::Passive { max } => (true, 0u32, 0u32, millis_clamped(max)),
    };
    ScanParams {
        ssid,
        bssid: config.bssid,
        channel: config.channel,
        show_hidden: config.show_hidden,
        passive,
        active_min_ms,
        active_max_ms,
        passive_ms,
    }
}

/// The position of the first `NUL` byte of `s`, or its length if none
/// occurs: the implicit length of a `NUL`-terminated name buffer.
pub open spec fn first_nul(s: Seq<u8>) -> int
    decreases s.len(),
{
    if s.len() == 0 {
        0
    } else if s[0] == 0 {
        0
    } else {
        1 + first_nul(s.drop_first())
    }
}

/// The name in a `NUL`-terminated buffer: the bytes before the first `NUL`.
pub open spec fn raw_name(s: Seq<u8>) -> Seq<u8> {
    s.subrange(0, first_nul(s))
}

/// The position of the first `NUL` is in bounds, holds a `NUL` unless it is
/// the end, and nothing before it is a `NUL`.
pub proof fn lemma_first_nul(s: Seq<u8>)
    ensures
        0 <= first_nul(s) <= s.len(),
        first_nul(s) < s.len() ==> s[first_nul(s)] == 0,
        forall|j: int| 0 <= j < first_nul(s) ==> s[j] != 0,
    decreases s.len(),
{
    if s.len() > 0 && s[0] != 0 {
        lemma_first_nul(s.drop_first());
        assert forall|j: int| 0 <= j < first_nul(s) implies s[j] != 0 by {
            if j > 0 {
                assert(s.drop_first()[j - 1] == s[j]);
            }
        }
    }
}

/// A raw record the state machine can convert: its truncated name is valid
/// credential bytes and its authentication code is in the fixed vocabulary.
pub open spec fn raw_record_ok(r: ApRecordRaw) -> bool {
    &&& valid_credential(raw_name(r.ssid@), SSID_MAX_LEN as int)
    &&& spec_auth_from_code(r.auth_code) is Some
}

/// The converted record carries the truncated name, the same address, and
/// the decoded authentication mode of the raw one.
pub open spec fn record_matches_raw(rec: ApRecord, raw: ApRecordRaw) -> bool {
    &&& rec.ssid@ == raw_name(raw.ssid@)
    &&& rec.bssid == raw.bssid
    &&& Some(rec.auth_mode) == spec_auth_from_code(raw.auth_code)
}

/// Convert the hardware's raw scan table into caller-facing records: one
/// output record per raw record, in order, with each name truncated at its
/// first `NUL`.  No deduplication or filtering is performed here.
pub fn records_from_raw(raw: &Vec<ApRecordRaw>) -> (r: Vec<ApRecord>)
    requires
        forall|i: int| 0 <= i < raw@.len() ==> raw_record_ok(#[trigger] raw@[i]),
    ensures
        r@.len() == raw@.len(),
        forall|i: int| 0 <= i < raw@.len() ==> record_matches_raw(#[trigger] r@[i], raw@[i]),
{
    let n = raw.len();
    let mut out: Vec<ApRecord> = Vec::new();
    let mut i: usize = 0;
    while i < n
        invariant
            0 <= i <= n,
            n == raw@.len(),
            out@.len() == i,
            forall|k: int| 0 <= k < raw@.len() ==> raw_record_ok(#[trigger] raw@[k]),
            forall|k: int| 0 <= k < i ==> record_matches_raw(#[trigger] out@[k], raw@[k]),
        decreases n - i,
    {
        let rec = &raw[i];
        proof {
            lemma_first_nul(rec.ssid@);
        }
        let name_len = match memchr::memchr(0, rec.ssid.as_slice()) {
            Some(pos) => pos,
            None => rec.ssid.len(),
        };
        proof {
            assert(name_len == first_nul(rec.ssid@));
        }

        let mut name: Vec<u8> = Vec::new();
        let mut k: usize = 0;
        while k < name_len
            invariant
                0 <= k <= name_len,
                name_len <= rec.ssid@.len(),
                name@ =~= rec.ssid@.subrange(0, k as int),
            decreases name_len - k,
        {
            let b = rec.ssid[k];
            name.push(b);
            proof {
                assert(name@ =~= rec.ssid@.subrange(0, k + 1));
            }
            k = k + 1;
        }

        let ssid = Ssid::from_bytes_unchecked(name.as_slice());
        let auth_mode = match AuthMode::from_code(rec.auth_code) {
            Some(mode) => mode,
            None => AuthMode::Open,
        };
        out.push(ApRecord { ssid, bssid: rec.bssid, auth_mode });
        i = i + 1;
    }
    out
}

/// The state of a scan operation.
#[derive(Debug)]
pub enum ScanState {
    /// The operation failed; the error is returned at the next poll.
    Failed(WifiError),
    /// The scan command has not been issued yet.
    Starting { params: ScanParams },
    /// The scan command was issued; waiting for the completion notification.
    Waiting,
    /// The hardware reported the scan complete; the records are collected at
    /// the next poll.
    Done,
}

/// The result of polling a scan operation.
#[derive(Debug)]
pub enum ScanPoll {
    /// The operation is suspended, waiting for a notification.
    Pending,
    /// The operation finished with the given result.
    Ready(Result<Vec<ApRecord>, WifiError>),
}

/// A one-shot scan of nearby WiFi networks.  The caller drives it with
/// [`ScanOperation::poll`]; the hardware notification channel completes it
/// through [`ScanOperation::handle_scan_done`].
#[derive(Debug)]
pub struct ScanOperation {
    /// The state of the scan.
    pub state: ScanState,
    /// Whether this operation holds the station mode reservation.
    pub sta_entered: bool,
    /// Whether the scan-done subscription is installed.
    pub sub_held: bool,
    /// Whether a waker is stored from the last poll.
    pub waker: bool,
    /// Whether the operation has returned its result.
    pub finished: bool,
}

impl ScanOperation {
    /// The well-formedness of a scan operation against the shared radio
    /// state.
    pub open spec fn wf(&self, radio: Radio) -> bool {
        &&& self.sta_entered ==> radio.sta_count > 0
        &&& self.sub_held ==> radio.subs.scan_done
        &&& self.finished ==> !self.sta_entered && !self.sub_held
    }
}

impl Wifi {
    /// Begin a one-shot scan: reserve the station role and translate the
    /// configuration into hardware parameters, clamping all durations to
    /// the hardware's millisecond granularity.  A reservation failure
    /// yields an operation that is already `Failed`.
    pub fn scan(&mut self, radio: &mut Radio, config: &ScanConfig) -> (op: ScanOperation)
        requires
            old(radio).wf(),
            old(radio).sta_count < u32::MAX,
        ensures
            final (radio).wf(),
            *final (self) == *old(self),
            op.wf(*final (radio)),
            !op.finished && !op.sub_held && !op.waker,
            old(radio).eq_admin(*final (radio)),
            final (radio).subs == old(radio).subs,
            final (radio).started == old(radio).started,
            ({
                let q = old(radio).faults@;
                let n: int = if old(radio).sta_count == 0 {
                    2int
                } else {
                    0int
                };
                if script_ok(q, n) {
                    &&& (op.state matches ScanState::Starting { params } && params_match_config(
                        params,
                        *config,
                    ))
                    &&& op.sta_entered
                    &&& final (radio).mode_state() == mode_op_apply(
                        old(radio).mode_state(),
                        ModeOp::EnterSta,
                    )
                } else {
                    &&& (op.state matches ScanState::Failed(e) && e matches WifiError::Internal(esp)
                        && script_fails_with(q, n, esp.code))
                    &&& !op.sta_entered
                    &&& old(radio).eq_roles(*final (radio))
                }
            }),
    {
        let params = scan_params_of(config);
        match radio.enter_sta() {
            Err(err) => ScanOperation {
                state: ScanState::Failed(WifiError::internal(err)),
                sta_entered: false,
                sub_held: false,
                waker: false,
                finished: false,
            },
            Ok(()) => ScanOperation {
                state: ScanState::Starting { params },
                sta_entered: true,
                sub_held: false,
                waker: false,
                finished: false,
            },
        }
    }
}

impl ScanOperation {
    /// Deliver the scan-done notification, as the registered callback does:
    /// a waiting scan becomes `Done` and the suspended caller is woken; any
    /// other state is left alone.
    pub fn handle_scan_done(&mut self, radio: &Radio) -> (wake: bool)
        requires
            radio.subs.scan_done,
        ensures
            final (self).state == (if old(self).state is Waiting {
                ScanState::Done
            } else {
                old(self).state
            }),
            wake == (old(self).waker && old(self).state is Waiting),
            final (self).sta_entered == old(self).sta_entered,
            final (self).sub_held == old(self).sub_held,
            final (self).waker == old(self).waker,
            final (self).finished == old(self).finished,
    {
        if matches!(self.state, ScanState::Waiting) {
            self.state = ScanState::Done;
            self.waker
        } else {
            false
        }
    }

    /// Drive the scan one step.  The first poll starts the radio, installs
    /// the scan-done subscription, and issues exactly one scan command;
    /// failure at any of those three SDK calls releases everything and
    /// reports the error.  Once the hardware reports completion, the next
    /// poll reads the scan table, converts one record per raw record, and
    /// releases the subscription and the reservation.
    pub fn poll(&mut self, radio: &mut Radio) -> (r: ScanPoll)
        requires
            old(radio).wf(),
            old(radio).scan_starts < u32::MAX,
            !old(self).finished,
            old(self).wf(*old(radio)),
            old(self).state matches ScanState::Starting { .. } ==> !old(self).sub_held && !old(
                radio,
            ).subs.scan_done,
            old(self).state is Done ==> forall|i: int|
                0 <= i < old(radio).scan_records@.len() ==> raw_record_ok(
                    #[trigger] old(radio).scan_records@[i],
                ),
        ensures
            final (radio).wf(),
            final (self).wf(*final (radio)),
            final (radio).active == old(radio).active,
            final (radio).sta_config == old(radio).sta_config,
            final (radio).ap_config == old(radio).ap_config,
            final (radio).last_scan == (match old(self).state {
                ScanState::Starting { params } => if r is Pending {
                    Some(params)
                } else {
                    old(radio).last_scan
                },
                _ => old(radio).last_scan,
            }),
            final (radio).scan_records == old(radio).scan_records,
            final (radio).ap_count == old(radio).ap_count,
            r is Pending ==> !final (self).finished,
            match old(self).state {
                ScanState::Starting { params } => {
                    let q = old(radio).faults@;
                    if script_ok(q, 3) {
                        &&& r is Pending
                        &&& final (self).state is Waiting
                        &&& final (self).sub_held && final (self).waker
                        &&& final (self).sta_entered == old(self).sta_entered
                        &&& final (radio).scan_starts == old(radio).scan_starts + 1
                        &&& final (radio).subs == old(radio).subs.spec_with(EventId::ScanDone, true)
                        &&& final (radio).started
                        &&& old(radio).eq_roles(*final (radio))
                    } else {
                        &&& (r matches ScanPoll::Ready(res) && res matches Err(e)
                            && e matches WifiError::Internal(esp) && script_fails_with(
                            q,
                            3,
                            esp.code,
                        ))
                        &&& final (self).finished && !final (self).sub_held && !final (self).sta_entered
                        &&& final (radio).subs == old(radio).subs.spec_with(
                            EventId::ScanDone,
                            false,
                        )
                        &&& final (radio).scan_starts == old(radio).scan_starts
                        &&& final (radio).sta_count == old(radio).sta_count - (if old(
                            self,
                        ).sta_entered {
                            1int
                        } else {
                            0int
                        })
                    }
                },
                ScanState::Waiting => {
                    &&& r is Pending
                    &&& final (self).state is Waiting
                    &&& final (self).waker
                    &&& final (self).sub_held == old(self).sub_held
                    &&& final (self).sta_entered == old(self).sta_entered
                    &&& *final (radio) == *old(radio)
                },
                ScanState::Done => {
                    let q = old(radio).faults@;
                    &&& final (self).finished && !final (self).sub_held && !final (self).sta_entered
                    &&& final (radio).subs == old(radio).subs.spec_with(EventId::ScanDone, false)
                    &&& final (radio).scan_starts == old(radio).scan_starts
                    &&& final (radio).sta_count == old(radio).sta_count - (if old(
                        self,
                    ).sta_entered {
                        1int
                    } else {
                        0int
                    })
                    &&& if script_ok(q, 2) {
                        r matches ScanPoll::Ready(res) && res matches Ok(records) && records@.len()
                            == old(radio).scan_records@.len() && (forall|i: int|
                            0 <= i < records@.len() ==> record_matches_raw(
                                #[trigger] records@[i],
                                old(radio).scan_records@[i],
                            ))
                    } else {
                        r matches ScanPoll::Ready(res) && res matches Err(e)
                            && e matches WifiError::Internal(esp) && script_fails_with(
                            q,
                            2,
                            esp.code,
                        )
                    }
                },
                ScanState::Failed(err) => {
                    &&& r == ScanPoll::Ready(Result::<Vec<ApRecord>, WifiError>::Err(err))
                    &&& final (self).finished && !final (self).sub_held && !final (self).sta_entered
                    &&& final (radio).subs == old(radio).subs.spec_with(EventId::ScanDone, false)
                    &&& final (radio).scan_starts == old(radio).scan_starts
                    &&& final (radio).faults == old(radio).faults
                    &&& final (radio).sta_count == old(radio).sta_count - (if old(
                        self,
                    ).sta_entered {
                        1int
                    } else {
                        0int
                    })
                },
            },
    {
        if matches!(self.state, ScanState::Starting { .. }) {
            let ghost q0 = radio.faults@;

            if let Err(err) = radio.start() {
                self.release(radio);
                self.finished = true;
                return ScanPoll::Ready(Err(WifiError::internal(err)));
            }
            proof {
                lemma_fault_at_after(q0, 1, 0);
            }

            if let Err(err) = radio.register(EventId::ScanDone) {
                self.release(radio);
                self.finished = true;
                return ScanPoll::Ready(Err(WifiError::internal(err)));
            }
            self.sub_held = true;
            proof {
                lemma_fault_at_after(q0, 2, 0);
            }

            let mut taken = ScanState::Waiting;
            core::mem::swap(&mut taken, &mut self.state);
            let params = match taken {
                ScanState::Starting { params } => params,
                _ => unreached(),
            };

            if let Err(err) = radio.scan_start(params) {
                self.release(radio);
                self.finished = true;
                return ScanPoll::Ready(Err(WifiError::internal(err)));
            }

            self.waker = true;
            return ScanPoll::Pending;
        }

        if matches!(self.state, ScanState::Waiting) {
            self.waker = true;
            return ScanPoll::Pending;
        }

        if matches!(self.state, ScanState::Done) {
            if let Err(err) = radio.scan_table_read() {
                self.release(radio);
                self.finished = true;
                return ScanPoll::Ready(Err(WifiError::internal(err)));
            }
            let records = records_from_raw(&radio.scan_records);
            self.release(radio);
            self.finished = true;
            return ScanPoll::Ready(Ok(records));
        }

        let mut taken = ScanState::Waiting;
        core::mem::swap(&mut taken, &mut self.state);
        match taken {
            ScanState::Failed(err) => {
                self.release(radio);
                self.finished = true;
                ScanPoll::Ready(Err(err))
            },
            _ => unreached(),
        }
    }

    /// Remove the scan-done subscription and release the station
    /// reservation, if held.  Subscriptions are released before the mode
    /// reservation, so no notification can fire into an already-released
    /// mode.
    fn release(&mut self, radio: &mut Radio)
        requires
            old(radio).wf(),
            old(self).sta_entered ==> old(radio).sta_count > 0,
        ensures
            final (radio).wf(),
            final (self).state == old(self).state,
            !final (self).sta_entered,
            !final (self).sub_held,
            final (self).waker == old(self).waker,
            final (self).finished == old(self).finished,
            old(radio).eq_admin(*final (radio)),
            final (radio).faults == old(radio).faults,
            final (radio).subs == old(radio).subs.spec_with(EventId::ScanDone, false),
            final (radio).ap_count == old(radio).ap_count,
            final (radio).sta_count == old(radio).sta_count - (if old(self).sta_entered {
                1int
            } else {
                0int
            }),
            final (radio).mode_state() == (if old(self).sta_entered {
                mode_op_apply(old(radio).mode_state(), ModeOp::LeaveSta)
            } else {
                old(radio).mode_state()
            }),
    {
        radio.unregister(EventId::ScanDone);
        self.sub_held = false;
        if self.sta_entered {
            radio.leave_sta();
            self.sta_entered = false;
        }
    }

    /// Abandon a pending scan, as dropping it mid-flight does: the
    /// subscription and the station reservation are released exactly once;
    /// an in-flight hardware scan simply completes into an unregistered
    /// slot.
    pub fn cancel(&mut self, radio: &mut Radio)
        requires
            old(radio).wf(),
            old(self).sta_entered ==> old(radio).sta_count > 0,
        ensures
            final (radio).wf(),
            final (self).state == old(self).state,
            !final (self).sta_entered,
            !final (self).sub_held,
            final (self).finished,
            old(radio).eq_admin(*final (radio)),
            final (radio).faults == old(radio).faults,
            final (radio).subs == old(radio).subs.spec_with(EventId::ScanDone, false),
            final (radio).ap_count == old(radio).ap_count,
            final (radio).sta_count == old(radio).sta_count - (if old(self).sta_entered {
                1int
            } else {
                0int
            }),
    {
        self.release(radio);
        self.finished = true;
    }
}

} // verus!
