//! The radio handle: the exclusive owner of the peripheral, tying the mode
//! guards, configuration, and role composition together.

use vstd::prelude::*;
use vstd::pervasive::unreached;
use crate::ap_config::ApConfig;
use crate::error::{EspError, WifiError};
use crate::mode::{mode_op_apply, ModeOp, WifiMode};
use crate::radio::{
    fault_at, faults_after, lemma_fault_at_after, script_fails_with, script_ok, Radio,
};
use crate::sta_config::StaConfig;

verus! {

/// The access-point role of a running radio handle.
#[derive(Debug)]
pub struct Ap {
    marker: (),
}

impl Ap {
    /// The access-point configuration the hardware currently holds.
    pub fn config<'a>(&self, radio: &'a Radio) -> (r: &'a ApConfig)
        requires
            radio.ap_config is Some,
        ensures
            r == radio.ap_config.unwrap(),
    {
        match &radio.ap_config {
            Some(config) => config,
            None => unreached(),
        }
    }
}

/// The station role of a running radio handle.
#[derive(Debug)]
pub struct Sta {
    marker: (),
}

impl Sta {
    /// A fresh station role token, handed out when a connect operation
    /// completes and its reservation moves into the handle.
    pub(crate) fn acquire() -> (r: Sta) {
        Sta { marker: () }
    }

    /// The station configuration the hardware currently holds.
    pub fn config<'a>(&self, radio: &'a Radio) -> (r: &'a StaConfig)
        requires
            radio.sta_config is Some,
        ensures
            r == radio.sta_config.unwrap(),
    {
        match &radio.sta_config {
            Some(config) => config,
            None => unreached(),
        }
    }
}

/// The composition of roles a radio handle currently owns: none, access
/// point, station, or both.  Transitions are total over all four states.
#[derive(Debug)]
pub enum WifiInner {
    Inactive,
    Ap(Ap),
    Sta(Sta),
    ApSta(Ap, Sta),
}

impl WifiInner {
    /// Whether the access-point role is part of this composition.
    pub open spec fn spec_has_ap(&self) -> bool {
        match self {
            WifiInner::Ap(_) => true,
            WifiInner::ApSta(_, _) => true,
            _ => false,
        }
    }

    /// Whether the station role is part of this composition.
    pub open spec fn spec_has_sta(&self) -> bool {
        match self {
            WifiInner::Sta(_) => true,
            WifiInner::ApSta(_, _) => true,
            _ => false,
        }
    }
}

/// An instance of the WiFi peripheral.  At most one exists per radio; it is
/// acquired with [`Wifi::take`] and released with [`Wifi::shutdown`].
#[derive(Debug)]
pub struct Wifi {
    pub inner: WifiInner,
}

impl Wifi {
    /// The handle's role composition is covered by the radio's reference
    /// counters.
    pub open spec fn consistent(&self, radio: Radio) -> bool {
        &&& self.inner.spec_has_ap() ==> radio.ap_count > 0
        &&& self.inner.spec_has_sta() ==> radio.sta_count > 0
    }

    /// Take the WiFi peripheral if it is not already in use.  On success the
    /// peripheral is initialized with no role active; a second live handle
    /// is refused.
    pub fn take(radio: &mut Radio) -> (r: Option<Wifi>)
        requires
            old(radio).wf(),
            !old(radio).active ==> old(radio).ap_count == 0 && old(radio).sta_count == 0,
        ensures
            final (radio).wf(),
            if old(radio).active {
                r is None && *final (radio) == *old(radio)
            } else {
                r matches Some(w) && w.inner is Inactive && final (radio).active && final (radio).mode == WifiMode::Null && !final (radio).started && final (radio).ap_count == 0
                    && final (radio).sta_count == 0 && final (radio).subs == old(radio).subs && final (radio).faults == old(radio).faults && final (radio).sta_config == old(radio).sta_config && final (radio).ap_config == old(
                    radio,
                ).ap_config && final (radio).scan_starts == old(radio).scan_starts && final (radio).last_scan == old(radio).last_scan && final (radio).scan_records == old(
                    radio,
                ).scan_records
            },
    {
        if radio.active {
            None
        } else {
            radio.active = true;
            radio.mode = WifiMode::Null;
            radio.started = false;
            Some(Wifi { inner: WifiInner::Inactive })
        }
    }

    /// Start an access point with the given configuration: reserve the
    /// access-point role, hand the configuration to the hardware, and start
    /// the radio.  Any SDK failure is returned with the reservation rolled
    /// back, leaving the handle's roles unchanged.
    pub fn start_ap(&mut self, radio: &mut Radio, config: ApConfig) -> (r: Result<(), WifiError>)
        requires
            old(radio).wf(),
            old(radio).ap_count < u32::MAX,
            old(self).consistent(*old(radio)),
        ensures
            final (radio).wf(),
            final (self).consistent(*final (radio)),
            final (radio).active == old(radio).active,
            final (radio).sta_count == old(radio).sta_count,
            final (radio).sta_config == old(radio).sta_config,
            final (radio).scan_starts == old(radio).scan_starts,
            final (radio).last_scan == old(radio).last_scan,
            final (radio).scan_records == old(radio).scan_records,
            final (radio).subs == old(radio).subs,
            match r {
                Ok(()) => {
                    &&& final (radio).mode_state() == mode_op_apply(
                        old(radio).mode_state(),
                        ModeOp::EnterAp,
                    )
                    &&& final (radio).ap_config == Some(config)
                    &&& final (radio).started
                    &&& final (self).inner.spec_has_ap()
                    &&& final (self).inner.spec_has_sta() == old(self).inner.spec_has_sta()
                },
                Err(e) => {
                    &&& old(radio).eq_roles(*final (radio))
                    &&& (final (radio).started == old(radio).started || (old(radio).ap_count == 0
                        && old(radio).sta_count == 0 && !final (radio).started))
                    &&& *final (self) == *old(self)
                    &&& (e matches WifiError::Internal(esp) && script_fails_with(
                        old(radio).faults@,
                        if old(radio).ap_count == 0 {
                            4int
                        } else {
                            2int
                        },
                        esp.code,
                    ))
                },
            },
            r is Ok <==> script_ok(
                old(radio).faults@,
                if old(radio).ap_count == 0 {
                    4int
                } else {
                    2int
                },
            ),
    {
        let ghost q0 = radio.faults@;
        let ghost base: int = if radio.ap_count == 0 {
            2int
        } else {
            0int
        };

        if let Err(err) = radio.enter_ap() {
            return Err(WifiError::internal(err));
        }

        proof {
            lemma_fault_at_after(q0, base, 0);
            lemma_fault_at_after(q0, base, 1);
        }

        if let Err(err) = radio.set_ap_config(config) {
            radio.leave_ap();
            return Err(WifiError::internal(err));
        }

        proof {
            lemma_fault_at_after(faults_after(q0, base), 1, 0);
            lemma_fault_at_after(q0, base + 1, 0);
        }

        if let Err(err) = radio.start() {
            radio.leave_ap();
            return Err(WifiError::internal(err));
        }

        let mut inner = WifiInner::Inactive;
        core::mem::swap(&mut inner, &mut self.inner);
        self.inner = match inner {
            WifiInner::Sta(sta) => WifiInner::ApSta(Ap { marker: () }, sta),
            WifiInner::ApSta(_, sta) => WifiInner::ApSta(Ap { marker: () }, sta),
            _ => WifiInner::Ap(Ap { marker: () }),
        };

        Ok(())
    }

    /// The station role of this handle, if it owns one.
    pub fn as_sta(&self) -> (r: Option<&Sta>)
        ensures
            r is Some <==> self.inner.spec_has_sta(),
    {
        match &self.inner {
            WifiInner::Sta(sta) => Some(sta),
            WifiInner::ApSta(_, sta) => Some(sta),
            _ => None,
        }
    }

    /// The access-point role of this handle, if it owns one.
    pub fn as_ap(&self) -> (r: Option<&Ap>)
        ensures
            r is Some <==> self.inner.spec_has_ap(),
    {
        match &self.inner {
            WifiInner::Ap(ap) => Some(ap),
            WifiInner::ApSta(ap, _) => Some(ap),
            _ => None,
        }
    }

    /// Stop the station role: whatever roles the handle owns besides the
    /// access point are released.
    pub fn stop_sta(&mut self, radio: &mut Radio) -> (r: &mut Wifi)
        requires
            old(radio).wf(),
            old(self).consistent(*old(radio)),
        ensures
            final (radio).wf(),
            r.consistent(*final (radio)),
            *final (self) == *final (r),
            r.inner.spec_has_ap() == old(self).inner.spec_has_ap(),
            !r.inner.spec_has_sta(),
            old(radio).eq_admin(*final (radio)),
            final (radio).subs == old(radio).subs,
            final (radio).faults == old(radio).faults,
            final (radio).mode_state() == (if old(self).inner.spec_has_sta() {
                mode_op_apply(old(radio).mode_state(), ModeOp::LeaveSta)
            } else {
                old(radio).mode_state()
            }),
    {
        let mut inner = WifiInner::Inactive;
        core::mem::swap(&mut inner, &mut self.inner);
        self.inner = match inner {
            WifiInner::ApSta(ap, _) => {
                radio.leave_sta();
                WifiInner::Ap(ap)
            },
            WifiInner::Sta(_) => {
                radio.leave_sta();
                WifiInner::Inactive
            },
            WifiInner::Ap(ap) => WifiInner::Ap(ap),
            WifiInner::Inactive => WifiInner::Inactive,
        };
        self
    }

    /// Stop the access-point role: whatever roles the handle owns besides
    /// the station are released.
    pub fn stop_ap(&mut self, radio: &mut Radio) -> (r: &mut Wifi)
        requires
            old(radio).wf(),
            old(self).consistent(*old(radio)),
        ensures
            final (radio).wf(),
            r.consistent(*final (radio)),
            *final (self) == *final (r),
            r.inner.spec_has_sta() == old(self).inner.spec_has_sta(),
            !r.inner.spec_has_ap(),
            old(radio).eq_admin(*final (radio)),
            final (radio).subs == old(radio).subs,
            final (radio).faults == old(radio).faults,
            final (radio).mode_state() == (if old(self).inner.spec_has_ap() {
                mode_op_apply(old(radio).mode_state(), ModeOp::LeaveAp)
            } else {
                old(radio).mode_state()
            }),
    {
        let mut inner = WifiInner::Inactive;
        core::mem::swap(&mut inner, &mut self.inner);
        self.inner = match inner {
            WifiInner::ApSta(_, sta) => {
                radio.leave_ap();
                WifiInner::Sta(sta)
            },
            WifiInner::Ap(_) => {
                radio.leave_ap();
                WifiInner::Inactive
            },
            WifiInner::Sta(sta) => WifiInner::Sta(sta),
            WifiInner::Inactive => WifiInner::Inactive,
        };
        self
    }

    /// Release the handle: stop whatever roles it still owns, stop and
    /// deinitialize the peripheral, and clear the singleton flag, making the
    /// peripheral available to [`Wifi::take`] again.
    pub fn shutdown(self, radio: &mut Radio)
        requires
            old(radio).wf(),
            self.consistent(*old(radio)),
        ensures
            final (radio).wf(),
            !final (radio).active,
            !final (radio).started,
            final (radio).ap_count == old(radio).ap_count - (if self.inner.spec_has_ap() {
                1int
            } else {
                0int
            }),
            final (radio).sta_count == old(radio).sta_count - (if self.inner.spec_has_sta() {
                1int
            } else {
                0int
            }),
            final (radio).subs == old(radio).subs,
            final (radio).faults == old(radio).faults,
            final (radio).sta_config == old(radio).sta_config,
            final (radio).ap_config == old(radio).ap_config,
            final (radio).scan_starts == old(radio).scan_starts,
            final (radio).last_scan == old(radio).last_scan,
            final (radio).scan_records == old(radio).scan_records,
    {
        match self.inner {
            WifiInner::Inactive => (),
            WifiInner::Ap(_) => radio.leave_ap(),
            WifiInner::Sta(_) => radio.leave_sta(),
            WifiInner::ApSta(_, _) => {
                radio.leave_sta();
                radio.leave_ap();
            },
        }
        radio.started = false;
        radio.active = false;
    }
}

} // verus!
