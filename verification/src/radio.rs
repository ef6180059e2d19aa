//! An explicit model of the radio peripheral and the process-wide state the
//! driver shares: the singleton flag, the reference-counted role counters,
//! the hardware mode, the registered event subscriptions, and the
//! configurations last handed to the hardware.
//!
//! Every fallible SDK call draws its status from a scripted queue of status
//! codes: an empty queue means every call succeeds, a non-zero code at the
//! front makes the next call fail with that code.  This makes every error
//! path of the state machines reachable and checkable.

use vstd::prelude::*;
use crate::ap_config::ApConfig;
use crate::error::EspError;
use crate::mode::{mode_of_roles, mode_op_apply, mode_state_wf, ModeOp, ModeState, WifiMode};
use crate::scan::{ApRecordRaw, ScanParams};
use crate::sta_config::StaConfig;

verus! {

/// A hardware notification the driver can subscribe to.
#[derive(Debug, Clone, Copy, PartialEq, Eq, Structural)]
pub enum EventId {
    StaStart,
    StaConnected,
    StaDisconnected,
    GotIp,
    ScanDone,
}

/// The set of installed event subscriptions, one slot per notification.
#[derive(Debug, Clone, Copy, PartialEq, Eq, Structural)]
pub struct Subscriptions {
    pub sta_start: bool,
    pub sta_connected: bool,
    pub sta_disconnected: bool,
    pub got_ip: bool,
    pub scan_done: bool,
}

impl Subscriptions {
    /// Whether a handler is installed for `id`.
    pub open spec fn spec_has(self, id: EventId) -> bool {
        match id {
            EventId::StaStart => self.sta_start,
            EventId::StaConnected => self.sta_connected,
            EventId::StaDisconnected => self.sta_disconnected,
            EventId::GotIp => self.got_ip,
            EventId::ScanDone => self.scan_done,
        }
    }

    /// The subscriptions with the slot for `id` set to `v`.
    pub open spec fn spec_with(self, id: EventId, v: bool) -> Subscriptions {
        match id {
            EventId::StaStart => Subscriptions { sta_start: v, ..self },
            EventId::StaConnected => Subscriptions { sta_connected: v, ..self },
            EventId::StaDisconnected => Subscriptions { sta_disconnected: v, ..self },
            EventId::GotIp => Subscriptions { got_ip: v, ..self },
            EventId::ScanDone => Subscriptions { scan_done: v, ..self },
        }
    }

    /// No handler is installed.
    pub fn none() -> (r: Subscriptions)
        ensures
            forall|id: EventId| !r.spec_has(id),
    {
        Subscriptions {
            sta_start: false,
            sta_connected: false,
            sta_disconnected: false,
            got_ip: false,
            scan_done: false,
        }
    }

    /// Whether a handler is installed for `id`.
    pub fn has(self, id: EventId) -> (r: bool)
        ensures
            r == self.spec_has(id),
    {
        match id {
            EventId::StaStart => self.sta_start,
            EventId::StaConnected => self.sta_connected,
            EventId::StaDisconnected => self.sta_disconnected,
            EventId::GotIp => self.got_ip,
            EventId::ScanDone => self.scan_done,
        }
    }
}

/// The status code the `k`-th upcoming fallible SDK call will return:
/// `0` (success) once the script is exhausted.
pub open spec fn fault_at(q: Seq<i32>, k: int) -> i32 {
    if 0 <= k < q.len() {
        q[k]
    } else {
        0
    }
}

/// The fault script after `k` codes have been consumed.
pub open spec fn faults_after(q: Seq<i32>, k: int) -> Seq<i32> {
    q.skip(
        if k <= q.len() {
            k
        } else {
            q.len() as int
        },
    )
}

/// Consuming `m` codes and then looking at position `k` is looking at
/// position `m + k` of the original script.
pub proof fn lemma_fault_at_after(q: Seq<i32>, m: int, k: int)
    requires
        0 <= m,
        0 <= k,
    ensures
        fault_at(faults_after(q, m), k) == fault_at(q, m + k),
{
}

/// The next `n` fallible SDK calls all succeed under script `q`.
pub open spec fn script_ok(q: Seq<i32>, n: int) -> bool {
    forall|k: int| 0 <= k < n ==> fault_at(q, k) == 0
}

/// Under script `q`, the first failure among the next `n` fallible SDK
/// calls carries status `code`.
pub open spec fn script_fails_with(q: Seq<i32>, n: int, code: i32) -> bool {
    exists|k: int|
        0 <= k < n && #[trigger] fault_at(q, k) == code && code != 0 && (forall|j: int|
            0 <= j < k ==> fault_at(q, j) == 0)
}

/// The radio peripheral together with the process-wide driver state.
#[derive(Debug)]
pub struct Radio {
    /// The singleton flag: whether a radio handle is currently live.
    pub active: bool,
    /// The operating mode the hardware is in.
    pub mode: WifiMode,
    /// Whether the radio has been started.
    pub started: bool,
    /// The reference count of the access-point role.
    pub ap_count: u32,
    /// The reference count of the station role.
    pub sta_count: u32,
    /// The installed event subscriptions.
    pub subs: Subscriptions,
    /// The scripted status codes of upcoming fallible SDK calls.
    pub faults: Vec<i32>,
    /// The station configuration last handed to the hardware.
    pub sta_config: Option<StaConfig>,
    /// The access-point configuration last handed to the hardware.
    pub ap_config: Option<ApConfig>,
    /// How many scan commands have been issued.
    pub scan_starts: u32,
    /// The parameters of the most recent scan command.
    pub last_scan: Option<ScanParams>,
    /// The records the hardware scan table currently holds.
    pub scan_records: Vec<ApRecordRaw>,
}

impl Radio {
    /// The reference-counted role state of this radio.
    pub open spec fn mode_state(self) -> ModeState {
        ModeState { ap: self.ap_count as nat, sta: self.sta_count as nat, mode: self.mode }
    }

    /// The guard invariant: the hardware mode is the union of the roles
    /// whose counters are positive.
    pub open spec fn wf(self) -> bool {
        mode_state_wf(self.mode_state())
    }

    /// Everything except the role state, power state, subscriptions, and
    /// fault script is unchanged between `self` and `other`.
    pub open spec fn eq_admin(self, other: Radio) -> bool {
        &&& other.active == self.active
        &&& other.sta_config == self.sta_config
        &&& other.ap_config == self.ap_config
        &&& other.scan_starts == self.scan_starts
        &&& other.last_scan == self.last_scan
        &&& other.scan_records == self.scan_records
    }

    /// The role state (mode and both counters) is unchanged.
    pub open spec fn eq_roles(self, other: Radio) -> bool {
        &&& other.mode == self.mode
        &&& other.ap_count == self.ap_count
        &&& other.sta_count == self.sta_count
    }

    /// A radio at power-on: inactive, no roles, no subscriptions, an empty
    /// fault script, and an empty scan table.
    pub fn new() -> (r: Radio)
        ensures
            !r.active,
            r.mode == WifiMode::Null,
            !r.started,
            r.ap_count == 0,
            r.sta_count == 0,
            forall|id: EventId| !r.subs.spec_has(id),
            r.faults@ == Seq::<i32>::empty(),
            r.sta_config is None,
            r.ap_config is None,
            r.scan_starts == 0,
            r.last_scan is None,
            r.scan_records@ == Seq::<ApRecordRaw>::empty(),
            r.wf(),
    {
        Radio {
            active: false,
            mode: WifiMode::Null,
            started: false,
            ap_count: 0,
            sta_count: 0,
            subs: Subscriptions::none(),
            faults: Vec::new(),
            sta_config: None,
            ap_config: None,
            scan_starts: 0,
            last_scan: None,
            scan_records: Vec::new(),
        }
    }

    /// Script the status code of an upcoming fallible SDK call.
    pub fn push_fault(&mut self, code: i32)
        ensures
            final (self).faults@ == old(self).faults@.push(code),
            old(self).eq_admin(*final (self)),
            old(self).eq_roles(*final (self)),
            final (self).subs == old(self).subs,
            final (self).started == old(self).started,
    {
        self.faults.push(code);
    }

    /// Load the hardware scan table, as filled by a completed scan.
    pub fn load_scan_records(&mut self, records: Vec<ApRecordRaw>)
        ensures
            final (self).scan_records == records,
            final (self).active == old(self).active,
            final (self).sta_config == old(self).sta_config,
            final (self).ap_config == old(self).ap_config,
            final (self).scan_starts == old(self).scan_starts,
            final (self).last_scan == old(self).last_scan,
            old(self).eq_roles(*final (self)),
            final (self).subs == old(self).subs,
            final (self).started == old(self).started,
            final (self).faults == old(self).faults,
    {
        self.scan_records = records;
    }

    /// Draw the status code of the next fallible SDK call from the script.
    fn take_fault(&mut self) -> (r: i32)
        ensures
            r == fault_at(old(self).faults@, 0),
            final (self).faults@ == faults_after(old(self).faults@, 1),
            old(self).eq_admin(*final (self)),
            old(self).eq_roles(*final (self)),
            final (self).subs == old(self).subs,
            final (self).started == old(self).started,
    {
        if self.faults.len() == 0 {
            proof {
                assert(faults_after(self.faults@, 1) =~= self.faults@);
            }
            0
        } else {
            let code = self.faults.remove(0);
            proof {
                assert(self.faults@ =~= faults_after(old(self).faults@, 1));
            }
            code
        }
    }

    /// Reserve the access-point role.  On the rising edge of the counter
    /// this reads the hardware mode and sets the union mode, each a fallible
    /// SDK call; any failure is propagated with the counter rolled back.
    pub fn enter_ap(&mut self) -> (r: Result<(), EspError>)
        requires
            old(self).wf(),
            old(self).ap_count < u32::MAX,
        ensures
            final (self).wf(),
            old(self).eq_admin(*final (self)),
            final (self).subs == old(self).subs,
            final (self).started == old(self).started,
            r is Ok ==> final (self).mode_state() == mode_op_apply(
                old(self).mode_state(),
                ModeOp::EnterAp,
            ),
            r is Err ==> old(self).eq_roles(*final (self)),
            (if old(self).ap_count > 0 {
                r is Ok && final (self).faults == old(self).faults
            } else {
                {
                    let q = old(self).faults@;
                    if fault_at(q, 0) != 0 {
                        r == Result::<(), EspError>::Err(EspError { code: fault_at(q, 0) })
                            && final (self).faults@ == faults_after(q, 1)
                    } else if fault_at(q, 1) != 0 {
                        r == Result::<(), EspError>::Err(EspError { code: fault_at(q, 1) })
                            && final (self).faults@ == faults_after(q, 2)
                    } else {
                        r is Ok && final (self).faults@ == faults_after(q, 2)
                    }
                }
            }),
    {
        if self.ap_count > 0 {
            self.ap_count = self.ap_count + 1;
            return Ok(());
        }

        let f_get = self.take_fault();
        if f_get != 0 {
            return Err(EspError::new(f_get));
        }
        let current = self.mode;

        let f_set = self.take_fault();
        if f_set != 0 {
            return Err(EspError::new(f_set));
        }
        self.mode = current.with_ap();
        self.ap_count = 1;
        Ok(())
    }

    /// Release the access-point role.  On the falling edge of the counter
    /// this reverses the mode transition and, if no role remains, stops the
    /// radio; failures of those calls are ignored, as a release cannot fail.
    pub fn leave_ap(&mut self)
        requires
            old(self).wf(),
            old(self).ap_count > 0,
        ensures
            final (self).wf(),
            old(self).eq_admin(*final (self)),
            final (self).subs == old(self).subs,
            final (self).faults == old(self).faults,
            final (self).mode_state() == mode_op_apply(old(self).mode_state(), ModeOp::LeaveAp),
            final (self).started == (if old(self).ap_count == 1 && old(self).sta_count == 0 {
                false
            } else {
                old(self).started
            }),
    {
        self.ap_count = self.ap_count - 1;
        if self.ap_count == 0 {
            self.mode = self.mode.without_ap();
            if matches!(self.mode, WifiMode::Null) {
                self.started = false;
            }
        }
    }

    /// Reserve the station role; the counterpart of [`Radio::enter_ap`].
    pub fn enter_sta(&mut self) -> (r: Result<(), EspError>)
        requires
            old(self).wf(),
            old(self).sta_count < u32::MAX,
        ensures
            final (self).wf(),
            old(self).eq_admin(*final (self)),
            final (self).subs == old(self).subs,
            final (self).started == old(self).started,
            r is Ok ==> final (self).mode_state() == mode_op_apply(
                old(self).mode_state(),
                ModeOp::EnterSta,
            ),
            r is Err ==> old(self).eq_roles(*final (self)),
            (if old(self).sta_count > 0 {
                r is Ok && final (self).faults == old(self).faults
            } else {
                {
                    let q = old(self).faults@;
                    if fault_at(q, 0) != 0 {
                        r == Result::<(), EspError>::Err(EspError { code: fault_at(q, 0) })
                            && final (self).faults@ == faults_after(q, 1)
                    } else if fault_at(q, 1) != 0 {
                        r == Result::<(), EspError>::Err(EspError { code: fault_at(q, 1) })
                            && final (self).faults@ == faults_after(q, 2)
                    } else {
                        r is Ok && final (self).faults@ == faults_after(q, 2)
                    }
                }
            }),
    {
        if self.sta_count > 0 {
            self.sta_count = self.sta_count + 1;
            return Ok(());
        }

        let f_get = self.take_fault();
        if f_get != 0 {
            return Err(EspError::new(f_get));
        }
        let current = self.mode;

        let f_set = self.take_fault();
        if f_set != 0 {
            return Err(EspError::new(f_set));
        }
        self.mode = current.with_sta();
        self.sta_count = 1;
        Ok(())
    }

    /// Release the station role; the counterpart of [`Radio::leave_ap`].
    pub fn leave_sta(&mut self)
        requires
            old(self).wf(),
            old(self).sta_count > 0,
        ensures
            final (self).wf(),
            old(self).eq_admin(*final (self)),
            final (self).subs == old(self).subs,
            final (self).faults == old(self).faults,
            final (self).mode_state() == mode_op_apply(old(self).mode_state(), ModeOp::LeaveSta),
            final (self).started == (if old(self).sta_count == 1 && old(self).ap_count == 0 {
                false
            } else {
                old(self).started
            }),
    {
        self.sta_count = self.sta_count - 1;
        if self.sta_count == 0 {
            self.mode = self.mode.without_sta();
            if matches!(self.mode, WifiMode::Null) {
                self.started = false;
            }
        }
    }

    /// Start the radio: one fallible SDK call.
    pub fn start(&mut self) -> (r: Result<(), EspError>)
        ensures
            old(self).eq_admin(*final (self)),
            old(self).eq_roles(*final (self)),
            final (self).subs == old(self).subs,
            final (self).faults@ == faults_after(old(self).faults@, 1),
            ({
                let f = fault_at(old(self).faults@, 0);
                if f == 0 {
                    r is Ok && final (self).started
                } else {
                    r == Result::<(), EspError>::Err(EspError { code: f }) && final (self).started
                        == old(self).started
                }
            }),
    {
        let f = self.take_fault();
        if f != 0 {
            return Err(EspError::new(f));
        }
        self.started = true;
        Ok(())
    }

    /// Hand the hardware a station configuration: one fallible SDK call.
    pub fn set_sta_config(&mut self, config: StaConfig) -> (r: Result<(), EspError>)
        ensures
            old(self).eq_roles(*final (self)),
            final (self).subs == old(self).subs,
            final (self).started == old(self).started,
            final (self).active == old(self).active,
            final (self).ap_config == old(self).ap_config,
            final (self).scan_starts == old(self).scan_starts,
            final (self).last_scan == old(self).last_scan,
            final (self).scan_records == old(self).scan_records,
            final (self).faults@ == faults_after(old(self).faults@, 1),
            ({
                let f = fault_at(old(self).faults@, 0);
                if f == 0 {
                    r is Ok && final (self).sta_config == Some(config)
                } else {
                    r == Result::<(), EspError>::Err(EspError { code: f }) && final (self).sta_config == old(self).sta_config
                }
            }),
    {
        let f = self.take_fault();
        if f != 0 {
            return Err(EspError::new(f));
        }
        self.sta_config = Some(config);
        Ok(())
    }

    /// Hand the hardware an access-point configuration: one fallible SDK
    /// call.
    pub fn set_ap_config(&mut self, config: ApConfig) -> (r: Result<(), EspError>)
        ensures
            old(self).eq_roles(*final (self)),
            final (self).subs == old(self).subs,
            final (self).started == old(self).started,
            final (self).active == old(self).active,
            final (self).sta_config == old(self).sta_config,
            final (self).scan_starts == old(self).scan_starts,
            final (self).last_scan == old(self).last_scan,
            final (self).scan_records == old(self).scan_records,
            final (self).faults@ == faults_after(old(self).faults@, 1),
            ({
                let f = fault_at(old(self).faults@, 0);
                if f == 0 {
                    r is Ok && final (self).ap_config == Some(config)
                } else {
                    r == Result::<(), EspError>::Err(EspError { code: f }) && final (self).ap_config
                        == old(self).ap_config
                }
            }),
    {
        let f = self.take_fault();
        if f != 0 {
            return Err(EspError::new(f));
        }
        self.ap_config = Some(config);
        Ok(())
    }

    /// Ask the hardware to begin connecting to the configured network: one
    /// fallible SDK call whose progress is later reported through events.
    pub fn connect_cmd(&mut self) -> (r: Result<(), EspError>)
        ensures
            old(self).eq_admin(*final (self)),
            old(self).eq_roles(*final (self)),
            final (self).subs == old(self).subs,
            final (self).started == old(self).started,
            final (self).faults@ == faults_after(old(self).faults@, 1),
            ({
                let f = fault_at(old(self).faults@, 0);
                if f == 0 {
                    r is Ok
                } else {
                    r == Result::<(), EspError>::Err(EspError { code: f })
                }
            }),
    {
        let f = self.take_fault();
        if f != 0 {
            return Err(EspError::new(f));
        }
        Ok(())
    }

    /// Issue one non-blocking scan command with the given parameters: one
    /// fallible SDK call.
    pub fn scan_start(&mut self, params: ScanParams) -> (r: Result<(), EspError>)
        requires
            old(self).scan_starts < u32::MAX,
        ensures
            old(self).eq_roles(*final (self)),
            final (self).subs == old(self).subs,
            final (self).started == old(self).started,
            final (self).active == old(self).active,
            final (self).sta_config == old(self).sta_config,
            final (self).ap_config == old(self).ap_config,
            final (self).scan_records == old(self).scan_records,
            final (self).faults@ == faults_after(old(self).faults@, 1),
            ({
                let f = fault_at(old(self).faults@, 0);
                if f == 0 {
                    r is Ok && final (self).scan_starts == old(self).scan_starts + 1 && final (self).last_scan == Some(params)
                } else {
                    r == Result::<(), EspError>::Err(EspError { code: f }) && final (self).scan_starts == old(self).scan_starts && final (self).last_scan == old(
                        self,
                    ).last_scan
                }
            }),
    {
        let f = self.take_fault();
        if f != 0 {
            return Err(EspError::new(f));
        }
        self.scan_starts = self.scan_starts + 1;
        self.last_scan = Some(params);
        Ok(())
    }

    /// Read the completed scan's record count and table from the hardware:
    /// two fallible SDK calls.  The records themselves stay in the scan
    /// table and are read through `scan_records`.
    pub fn scan_table_read(&mut self) -> (r: Result<(), EspError>)
        ensures
            old(self).eq_admin(*final (self)),
            old(self).eq_roles(*final (self)),
            final (self).subs == old(self).subs,
            final (self).started == old(self).started,
            ({
                let q = old(self).faults@;
                if fault_at(q, 0) != 0 {
                    r == Result::<(), EspError>::Err(EspError { code: fault_at(q, 0) }) && final (self).faults@ == faults_after(q, 1)
                } else if fault_at(q, 1) != 0 {
                    r == Result::<(), EspError>::Err(EspError { code: fault_at(q, 1) }) && final (self).faults@ == faults_after(q, 2)
                } else {
                    r is Ok && final (self).faults@ == faults_after(q, 2)
                }
            }),
    {
        let f_num = self.take_fault();
        if f_num != 0 {
            return Err(EspError::new(f_num));
        }
        let f_tab = self.take_fault();
        if f_tab != 0 {
            return Err(EspError::new(f_tab));
        }
        Ok(())
    }

    /// Install the handler for one notification: one fallible SDK call.
    /// Installing a handler for a slot that already has one is a caller
    /// error.
    pub fn register(&mut self, id: EventId) -> (r: Result<(), EspError>)
        requires
            !old(self).subs.spec_has(id),
        ensures
            old(self).eq_admin(*final (self)),
            old(self).eq_roles(*final (self)),
            final (self).started == old(self).started,
            final (self).faults@ == faults_after(old(self).faults@, 1),
            ({
                let f = fault_at(old(self).faults@, 0);
                if f == 0 {
                    r is Ok && final (self).subs == old(self).subs.spec_with(id, true)
                } else {
                    r == Result::<(), EspError>::Err(EspError { code: f }) && final (self).subs
                        == old(self).subs
                }
            }),
    {
        let f = self.take_fault();
        if f != 0 {
            return Err(EspError::new(f));
        }
        match id {
            EventId::StaStart => self.subs.sta_start = true,
            EventId::StaConnected => self.subs.sta_connected = true,
            EventId::StaDisconnected => self.subs.sta_disconnected = true,
            EventId::GotIp => self.subs.got_ip = true,
            EventId::ScanDone => self.subs.scan_done = true,
        }
        Ok(())
    }

    /// Remove the handler for one notification.  A removal cannot fail:
    /// failures of the underlying call are ignored.
    pub fn unregister(&mut self, id: EventId)
        ensures
            old(self).eq_admin(*final (self)),
            old(self).eq_roles(*final (self)),
            final (self).started == old(self).started,
            final (self).faults == old(self).faults,
            final (self).subs == old(self).subs.spec_with(id, false),
    {
        match id {
            EventId::StaStart => self.subs.sta_start = false,
            EventId::StaConnected => self.subs.sta_connected = false,
            EventId::StaDisconnected => self.subs.sta_disconnected = false,
            EventId::GotIp => self.subs.got_ip = false,
            EventId::ScanDone => self.subs.scan_done = false,
        }
    }
}

} // verus!
