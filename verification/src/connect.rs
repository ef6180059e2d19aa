//! The connect state machine: drives a station-mode connection to completion
//! or failure through callback-driven state transitions.
//!
//! A connect operation is polled by its caller and advanced by hardware
//! notifications delivered through [`ConnectOperation::handle_event`]; each
//! notification's only job is one state replacement and, where due, a wake
//! of the suspended caller.

use vstd::prelude::*;
use crate::auth_mode::AuthMode;
use crate::error::{ConnectionError, EspError, WifiError};
use crate::ip::IpInfo;
use crate::mode::{mode_op_apply, ModeOp};
use crate::radio::{
    fault_at, faults_after, lemma_fault_at_after, script_fails_with, script_ok, EventId, Radio,
    Subscriptions,
};
use crate::ssid::Ssid;
use crate::sta_config::StaConfig;
use crate::wifi::{Sta, Wifi, WifiInner};

verus! {

/// The state of a connect operation.  `Failed` and `Connected` are terminal:
/// once reached, later notifications are ignored.
#[derive(Debug)]
pub enum ConnectState {
    /// The operation failed; the error is returned at the next poll.
    Failed(WifiError),
    /// Waiting for the station to start and associate.
    Starting,
    /// Associated with an access point, waiting for an IP address.
    ConnectedWithoutIp { ssid: Ssid, bssid: [u8; 6], channel: u8, auth_mode: AuthMode },
    /// Fully connected; the result is returned at the next poll.
    Connected { ip_info: IpInfo, ssid: Ssid, bssid: [u8; 6], channel: u8, auth_mode: AuthMode },
}

impl ConnectState {
    /// Whether the operation can still move: neither failed nor connected.
    pub open spec fn is_live(&self) -> bool {
        self is Starting || self is ConnectedWithoutIp
    }
}

/// A hardware notification relevant to a connect operation.
#[derive(Debug)]
pub enum ConnectEvent {
    /// The station interface has started.
    StaStart,
    /// The station associated with an access point on a (non-zero) channel.
    StaConnected { ssid: Ssid, bssid: [u8; 6], channel: u8, auth_mode: AuthMode },
    /// The station disconnected or failed to associate, with a reason code.
    StaDisconnected { ssid: Ssid, bssid: [u8; 6], reason: u16 },
    /// An IP configuration was acquired.
    GotIp { ip_info: IpInfo },
}

impl ConnectEvent {
    /// The subscription slot this notification is delivered through.
    pub open spec fn event_id(&self) -> EventId {
        match self {
            ConnectEvent::StaStart => EventId::StaStart,
            ConnectEvent::StaConnected { .. } => EventId::StaConnected,
            ConnectEvent::StaDisconnected { .. } => EventId::StaDisconnected,
            ConnectEvent::GotIp { .. } => EventId::GotIp,
        }
    }
}

/// The result of polling a connect operation.
#[derive(Debug)]
pub enum ConnectPoll {
    /// The operation is suspended, waiting for a notification.
    Pending,
    /// The operation finished with the given result.
    Ready(Result<ConnectionInfo, WifiError>),
}

/// The type returned when a connect operation succeeds.
#[derive(Debug, Clone)]
pub struct ConnectionInfo {
    pub ip_info: IpInfo,
    pub ssid: Ssid,
    pub bssid: [u8; 6],
    pub channel: u8,
    pub auth_mode: AuthMode,
}

impl ConnectionInfo {
    /// The acquired IP configuration.
    pub fn ip_info(&self) -> (r: &IpInfo)
        ensures
            r == &self.ip_info,
    {
        &self.ip_info
    }

    /// The name of the network the station joined.
    pub fn ssid(&self) -> (r: &Ssid)
        ensures
            r == &self.ssid,
    {
        &self.ssid
    }

    /// The hardware address of the access point.
    pub fn bssid(&self) -> (r: [u8; 6])
        ensures
            r == self.bssid,
    {
        self.bssid
    }

    /// The negotiated channel; non-zero on every successful association.
    pub fn channel(&self) -> (r: u8)
        ensures
            r == self.channel,
    {
        self.channel
    }

    /// The negotiated authentication mode.
    pub fn auth_mode(&self) -> (r: AuthMode)
        ensures
            r == self.auth_mode,
    {
        self.auth_mode
    }
}

/// The subscriptions with the four connect-related slots (station start,
/// station connected, station disconnected, IP acquired) set to `v`.
pub open spec fn with_connect_subs(s: Subscriptions, v: bool) -> Subscriptions {
    Subscriptions {
        sta_start: v,
        sta_connected: v,
        sta_disconnected: v,
        got_ip: v,
        scan_done: s.scan_done,
    }
}

/// The effect of one notification on the state of a connect operation.
/// `cmd_code` is the status the connect command returns when the
/// notification triggers one; terminal states absorb every notification.
pub open spec fn connect_step(s: ConnectState, ev: ConnectEvent, cmd_code: i32) -> ConnectState {
    if !s.is_live() {
        s
    } else {
        match ev {
            ConnectEvent::StaStart => {
                if s is Starting && cmd_code != 0 {
                    ConnectState::Failed(WifiError::Internal(EspError { code: cmd_code }))
                } else {
                    s
                }
            },
            ConnectEvent::StaConnected { ssid, bssid, channel, auth_mode } => {
                ConnectState::ConnectedWithoutIp { ssid, bssid, channel, auth_mode }
            },
            ConnectEvent::StaDisconnected { ssid, bssid, reason } => {
                ConnectState::Failed(
                    WifiError::ConnectionError(ConnectionError { ssid, bssid, reason }),
                )
            },
            ConnectEvent::GotIp { ip_info } => {
                match s {
                    ConnectState::ConnectedWithoutIp { ssid, bssid, channel, auth_mode } => {
                        ConnectState::Connected { ip_info, ssid, bssid, channel, auth_mode }
                    },
                    _ => s,
                }
            },
        }
    }
}

/// Whether one notification wakes the suspended caller: failures and the
/// final IP acquisition do, intermediate progress does not.
pub open spec fn connect_step_wakes(s: ConnectState, ev: ConnectEvent, cmd_code: i32) -> bool {
    s.is_live() && match ev {
        ConnectEvent::StaStart => s is Starting && cmd_code != 0,
        ConnectEvent::StaConnected { .. } => false,
        ConnectEvent::StaDisconnected { .. } => true,
        ConnectEvent::GotIp { .. } => s is ConnectedWithoutIp,
    }
}

/// The state of a connect operation after a whole sequence of
/// notifications, each paired with the status code its connect command
/// would return, applied left to right.
pub open spec fn connect_run(s: ConnectState, evs: Seq<(ConnectEvent, i32)>) -> ConnectState
    decreases evs.len(),
{
    if evs.len() == 0 {
        s
    } else {
        connect_run(connect_step(s, evs[0].0, evs[0].1), evs.drop_first())
    }
}

/// Terminal states absorb every further notification.
pub proof fn lemma_connect_terminal_absorbs(s: ConnectState, evs: Seq<(ConnectEvent, i32)>)
    requires
        !s.is_live(),
    ensures
        connect_run(s, evs) == s,
    decreases evs.len(),
{
    if evs.len() > 0 {
        lemma_connect_terminal_absorbs(s, evs.drop_first());
    }
}

/// A connect operation that receives a disconnect notification before any
/// IP acquisition ends in `Failed`, never in `Connected`: whatever
/// notifications preceded it, the disconnect (or an earlier failure) pins
/// the terminal state.
pub proof fn lemma_disconnect_before_ip_fails(
    s: ConnectState,
    evs: Seq<(ConnectEvent, i32)>,
    i: int,
)
    requires
        s is Starting || s is ConnectedWithoutIp,
        0 <= i < evs.len(),
        evs[i].0 is StaDisconnected,
        forall|j: int| 0 <= j < i ==> !((#[trigger] evs[j].0) is GotIp),
    ensures
        connect_run(s, evs) is Failed,
    decreases i,
{
    let s1 = connect_step(s, evs[0].0, evs[0].1);
    if i == 0 {
        assert(s1 is Failed);
        lemma_connect_terminal_absorbs(s1, evs.drop_first());
    } else {
        if s1 is Failed {
            lemma_connect_terminal_absorbs(s1, evs.drop_first());
        } else {
            assert(!(evs[0].0 is GotIp));
            assert(s1 is Starting || s1 is ConnectedWithoutIp);
            assert(forall|j: int|
                0 <= j < i - 1 ==> !((#[trigger] evs.drop_first()[j].0) is GotIp));
            assert(evs.drop_first()[i - 1] == evs[i]);
            lemma_disconnect_before_ip_fails(s1, evs.drop_first(), i - 1);
        }
    }
}

/// A connect operation that receives an IP acquisition while associated
/// ends in `Connected`, carrying exactly the IP delivered by that
/// notification and the non-zero channel recorded at association.
pub proof fn lemma_got_ip_connects(
    s: ConnectState,
    evs: Seq<(ConnectEvent, i32)>,
    i: int,
    ip_info: IpInfo,
)
    requires
        0 <= i < evs.len(),
        evs[i].0 == (ConnectEvent::GotIp { ip_info }),
        connect_run(s, evs.take(i)) is ConnectedWithoutIp,
        (connect_run(s, evs.take(i)) matches ConnectState::ConnectedWithoutIp { channel, .. }
            ==> channel != 0),
    ensures
        connect_run(s, evs) matches ConnectState::Connected { ip_info: got, channel, .. }
            && got == ip_info && channel != 0,
    decreases i,
{
    if i == 0 {
        assert(evs.take(0) =~= Seq::<(ConnectEvent, i32)>::empty());
        let s1 = connect_step(s, evs[0].0, evs[0].1);
        assert(s1 matches ConnectState::Connected { ip_info: got, channel, .. } && got == ip_info
            && channel != 0);
        lemma_connect_terminal_absorbs(s1, evs.drop_first());
    } else {
        let s1 = connect_step(s, evs[0].0, evs[0].1);
        assert(evs.take(i).drop_first() =~= evs.drop_first().take(i - 1));
        assert(evs.drop_first()[i - 1] == evs[i]);
        lemma_got_ip_connects(s1, evs.drop_first(), i - 1, ip_info);
    }
}

/// An ongoing connection to an access point.  The caller drives it with
/// [`ConnectOperation::poll`]; the hardware notification channel advances it
/// through [`ConnectOperation::handle_event`].
#[derive(Debug)]
pub struct ConnectOperation {
    /// The state of the negotiation.
    pub state: ConnectState,
    /// Whether this operation holds the station mode reservation.
    pub sta_entered: bool,
    /// Whether the four event subscriptions are installed.
    pub subs_held: bool,
    /// Whether a waker is stored from the last poll.
    pub waker: bool,
    /// Whether the operation has returned its result.
    pub finished: bool,
}

impl ConnectOperation {
    /// The well-formedness of an operation against the shared radio state:
    /// held resources are reflected in the radio, a stored channel is
    /// non-zero, and a finished operation holds nothing.
    pub open spec fn wf(&self, radio: Radio) -> bool {
        &&& self.sta_entered ==> radio.sta_count > 0
        &&& self.subs_held ==> radio.subs.sta_start && radio.subs.sta_connected
            && radio.subs.sta_disconnected && radio.subs.got_ip
        &&& (self.state matches ConnectState::ConnectedWithoutIp { channel, .. } ==> channel != 0)
        &&& (self.state matches ConnectState::Connected { channel, .. } ==> channel != 0)
        &&& self.finished ==> !self.sta_entered && !self.subs_held
    }
}

impl Wifi {
    /// Begin connecting to a network in station mode: reserve the station
    /// role and hand the configuration to the hardware.  A failure of either
    /// step yields an operation that is already `Failed` and reports the
    /// error at its first poll; the reservation is kept only if it
    /// succeeded.
    pub fn connect_sta(&mut self, radio: &mut Radio, config: StaConfig) -> (op: ConnectOperation)
        requires
            old(radio).wf(),
            old(radio).sta_count < u32::MAX,
        ensures
            final (radio).wf(),
            *final (self) == *old(self),
            op.wf(*final (radio)),
            !op.finished && !op.subs_held && !op.waker,
            final (radio).active == old(radio).active,
            final (radio).ap_config == old(radio).ap_config,
            final (radio).scan_starts == old(radio).scan_starts,
            final (radio).last_scan == old(radio).last_scan,
            final (radio).scan_records == old(radio).scan_records,
            final (radio).subs == old(radio).subs,
            final (radio).started == old(radio).started,
            final (radio).ap_count == old(radio).ap_count,
            ({
                let q = old(radio).faults@;
                let n: int = if old(radio).sta_count == 0 {
                    3int
                } else {
                    1int
                };
                if script_ok(q, n) {
                    &&& op.state is Starting
                    &&& op.sta_entered
                    &&& final (radio).mode_state() == mode_op_apply(
                        old(radio).mode_state(),
                        ModeOp::EnterSta,
                    )
                    &&& final (radio).sta_config == Some(config)
                } else {
                    &&& (op.state matches ConnectState::Failed(e) && e matches WifiError::Internal(
                        esp,
                    ) && script_fails_with(q, n, esp.code))
                    &&& final (radio).sta_config == old(radio).sta_config
                    &&& (op.sta_entered <==> script_ok(q, n - 1))
                    &&& (op.sta_entered ==> final (radio).mode_state() == mode_op_apply(
                        old(radio).mode_state(),
                        ModeOp::EnterSta,
                    ))
                    &&& (!op.sta_entered ==> old(radio).eq_roles(*final (radio)))
                }
            }),
    {
        let ghost q0 = radio.faults@;
        let ghost base: int = if radio.sta_count == 0 {
            2int
        } else {
            0int
        };

        let state = match radio.enter_sta() {
            Err(err) => {
                return ConnectOperation {
                    state: ConnectState::Failed(WifiError::internal(err)),
                    sta_entered: false,
                    subs_held: false,
                    waker: false,
                    finished: false,
                };
            },
            Ok(()) => {
                proof {
                    lemma_fault_at_after(q0, base, 0);
                }
                match radio.set_sta_config(config) {
                    Err(err) => ConnectState::Failed(WifiError::internal(err)),
                    Ok(()) => ConnectState::Starting,
                }
            },
        };

        ConnectOperation { state, sta_entered: true, subs_held: false, waker: false, finished: false
        }
    }
}

impl ConnectOperation {
    /// Deliver one hardware notification to this operation, as the
    /// registered callback does: replace the state as [`connect_step`]
    /// prescribes and report whether the suspended caller must be woken.
    /// A notification can only arrive while its subscription is installed;
    /// an association is reported with a non-zero channel; an IP acquisition
    /// cannot precede the association report.
    pub fn handle_event(&mut self, radio: &mut Radio, event: ConnectEvent) -> (wake: bool)
        requires
            old(radio).subs.spec_has(event.event_id()),
            event matches ConnectEvent::StaConnected { channel, .. } ==> channel != 0,
            event matches ConnectEvent::GotIp { .. } ==> !(old(self).state is Starting),
        ensures
            ({
                let cmd_code = if event is StaStart && old(self).state is Starting {
                    fault_at(old(radio).faults@, 0)
                } else {
                    0
                };
                &&& final (self).state == connect_step(old(self).state, event, cmd_code)
                &&& wake == (old(self).waker && connect_step_wakes(old(self).state, event, cmd_code))
                &&& final (radio).faults@ == (if event is StaStart && old(self).state is Starting {
                    faults_after(old(radio).faults@, 1)
                } else {
                    old(radio).faults@
                })
            }),
            final (self).sta_entered == old(self).sta_entered,
            final (self).subs_held == old(self).subs_held,
            final (self).waker == old(self).waker,
            final (self).finished == old(self).finished,
            old(radio).eq_admin(*final (radio)),
            old(radio).eq_roles(*final (radio)),
            final (radio).subs == old(radio).subs,
            final (radio).started == old(radio).started,
            old(self).wf(*old(radio)) ==> final (self).wf(*final (radio)),
    {
        let live = matches!(
            self.state,
            ConnectState::Starting | ConnectState::ConnectedWithoutIp { .. }
        );

        match event {
            ConnectEvent::StaStart => {
                let in_starting = matches!(self.state, ConnectState::Starting);
                if in_starting {
                    if let Err(err) = radio.connect_cmd() {
                        self.state = ConnectState::Failed(WifiError::internal(err));
                        return self.waker;
                    }
                }
                false
            },
            ConnectEvent::StaConnected { ssid, bssid, channel, auth_mode } => {
                if live {
                    self.state = ConnectState::ConnectedWithoutIp { ssid, bssid, channel, auth_mode
                    };
                }
                false
            },
            ConnectEvent::StaDisconnected { ssid, bssid, reason } => {
                if live {
                    self.state = ConnectState::Failed(
                        WifiError::ConnectionError(ConnectionError { ssid, bssid, reason }),
                    );
                    self.waker
                } else {
                    false
                }
            },
            ConnectEvent::GotIp { ip_info } => {
                let mut taken = ConnectState::Starting;
                core::mem::swap(&mut taken, &mut self.state);
                match taken {
                    ConnectState::ConnectedWithoutIp { ssid, bssid, channel, auth_mode } => {
                        self.state = ConnectState::Connected {
                            ip_info,
                            ssid,
                            bssid,
                            channel,
                            auth_mode,
                        };
                        self.waker
                    },
                    other => {
                        self.state = other;
                        false
                    },
                }
            },
        }
    }

    /// Drive the operation one step.  On the first poll a live operation
    /// installs its four subscriptions and starts the radio, failing
    /// immediately if any of those five SDK calls fails; afterwards it
    /// suspends until a notification wakes it.  Polling a terminal state
    /// releases the subscriptions and, on failure, the station reservation,
    /// then returns the result: on success the station role is merged into
    /// the handle instead of being released.
    pub fn poll(&mut self, wifi: &mut Wifi, radio: &mut Radio) -> (r: ConnectPoll)
        requires
            old(radio).wf(),
            !old(self).finished,
            old(self).wf(*old(radio)),
            old(wifi).consistent(*old(radio)),
            old(self).state matches ConnectState::Connected { .. } ==> old(self).sta_entered,
            old(self).sta_entered && old(wifi).inner.spec_has_sta() ==> old(radio).sta_count >= 2,
            old(self).state is Starting && !old(self).subs_held ==> !old(
                radio,
            ).subs.sta_start && !old(radio).subs.sta_connected && !old(
                radio,
            ).subs.sta_disconnected && !old(radio).subs.got_ip,
        ensures
            final (radio).wf(),
            final (self).wf(*final (radio)),
            final (wifi).consistent(*final (radio)),
            final (radio).active == old(radio).active,
            final (radio).sta_config == old(radio).sta_config,
            final (radio).ap_config == old(radio).ap_config,
            final (radio).scan_starts == old(radio).scan_starts,
            final (radio).last_scan == old(radio).last_scan,
            final (radio).scan_records == old(radio).scan_records,
            final (radio).ap_count == old(radio).ap_count,
            r is Pending ==> final (self).state == old(self).state,
            match old(self).state {
                ConnectState::Starting => {
                    if !old(self).subs_held {
                        let q = old(radio).faults@;
                        if script_ok(q, 5) {
                            &&& r is Pending
                            &&& final (self).subs_held && final (self).waker && !final (self).finished
                            &&& final (self).sta_entered == old(self).sta_entered
                            &&& final (radio).subs == with_connect_subs(old(radio).subs, true)
                            &&& final (radio).started
                            &&& old(radio).eq_roles(*final (radio))
                        } else {
                            &&& (r matches ConnectPoll::Ready(res) && res matches Err(e)
                                && e matches WifiError::Internal(esp) && script_fails_with(
                                q,
                                5,
                                esp.code,
                            ))
                            &&& final (self).finished && !final (self).subs_held && !final (self).sta_entered
                            &&& final (radio).subs == with_connect_subs(old(radio).subs, false)
                            &&& final (radio).sta_count == old(radio).sta_count - (if old(
                                self,
                            ).sta_entered {
                                1int
                            } else {
                                0int
                            })
                        }
                    } else {
                        &&& r is Pending
                        &&& final (self).waker && final (self).subs_held == old(self).subs_held
                        &&& final (self).sta_entered == old(self).sta_entered && !final (self).finished
                        &&& *final (radio) == *old(radio)
                    }
                },
                ConnectState::ConnectedWithoutIp { .. } => {
                    &&& r is Pending
                    &&& *final (radio) == *old(radio)
                    &&& final (self).sta_entered == old(self).sta_entered
                    &&& final (self).subs_held == old(self).subs_held
                    &&& !final (self).finished
                },
                ConnectState::Failed(err) => {
                    &&& r == ConnectPoll::Ready(Result::<ConnectionInfo, WifiError>::Err(err))
                    &&& final (self).finished && !final (self).subs_held && !final (self).sta_entered
                    &&& final (radio).subs == with_connect_subs(old(radio).subs, false)
                    &&& final (radio).faults == old(radio).faults
                    &&& final (radio).sta_count == old(radio).sta_count - (if old(
                        self,
                    ).sta_entered {
                        1int
                    } else {
                        0int
                    })
                    &&& *final (wifi) == *old(wifi)
                },
                ConnectState::Connected { ip_info, ssid, bssid, channel, auth_mode } => {
                    &&& (r matches ConnectPoll::Ready(res) && res matches Ok(info) && info.ip_info
                        == ip_info && info.ssid == ssid && info.bssid == bssid && info.channel
                        == channel && info.channel != 0 && info.auth_mode == auth_mode)
                    &&& final (self).finished && !final (self).subs_held && !final (self).sta_entered
                    &&& final (radio).subs == with_connect_subs(old(radio).subs, false)
                    &&& final (radio).faults == old(radio).faults
                    &&& old(radio).eq_roles(*final (radio))
                    &&& final (radio).started == old(radio).started
                    &&& final (wifi).inner.spec_has_sta()
                    &&& final (wifi).inner.spec_has_ap() == old(wifi).inner.spec_has_ap()
                },
            },
    {
        if matches!(self.state, ConnectState::Starting) {
            if !self.subs_held {
                if let Err(err) = self.start_calls(radio) {
                    self.release(radio);
                    self.finished = true;
                    return ConnectPoll::Ready(Err(WifiError::internal(err)));
                }
                self.subs_held = true;
            }
            self.waker = true;
            return ConnectPoll::Pending;
        }

        if matches!(self.state, ConnectState::ConnectedWithoutIp { .. }) {
            return ConnectPoll::Pending;
        }

        let mut taken = ConnectState::Starting;
        core::mem::swap(&mut taken, &mut self.state);
        match taken {
            ConnectState::Failed(err) => {
                self.release(radio);
                self.finished = true;
                ConnectPoll::Ready(Err(err))
            },
            ConnectState::Connected { ip_info, ssid, bssid, channel, auth_mode } => {
                self.release_subs(radio);
                self.sta_entered = false;
                self.finished = true;

                let mut inner = WifiInner::Inactive;
                core::mem::swap(&mut inner, &mut wifi.inner);
                wifi.inner = match inner {
                    WifiInner::Ap(ap) => WifiInner::ApSta(ap, Sta::acquire()),
                    WifiInner::ApSta(ap, _) => WifiInner::ApSta(ap, Sta::acquire()),
                    _ => WifiInner::Sta(Sta::acquire()),
                };

                ConnectPoll::Ready(Ok(ConnectionInfo { ip_info, ssid, bssid, channel, auth_mode }))
            },
            other => {
                self.state = other;
                ConnectPoll::Pending
            },
        }
    }

    /// Install the four connect subscriptions and start the radio: five
    /// fallible SDK calls, stopping at the first failure.
    fn start_calls(&mut self, radio: &mut Radio) -> (r: Result<(), EspError>)
        requires
            old(radio).wf(),
            !old(radio).subs.sta_start,
            !old(radio).subs.sta_connected,
            !old(radio).subs.sta_disconnected,
            !old(radio).subs.got_ip,
        ensures
            final (radio).wf(),
            *final (self) == *old(self),
            old(radio).eq_admin(*final (radio)),
            old(radio).eq_roles(*final (radio)),
            final (radio).subs.scan_done == old(radio).subs.scan_done,
            match r {
                Ok(()) => {
                    &&& script_ok(old(radio).faults@, 5)
                    &&& final (radio).subs == with_connect_subs(old(radio).subs, true)
                    &&& final (radio).started
                    &&& final (radio).faults@ == faults_after(old(radio).faults@, 5)
                },
                Err(e) => {
                    &&& script_fails_with(old(radio).faults@, 5, e.code)
                    &&& !script_ok(old(radio).faults@, 5)
                    &&& final (radio).started == old(radio).started
                },
            },
    {
        let ghost q0 = radio.faults@;

        if let Err(err) = radio.register(EventId::StaStart) {
            return Err(err);
        }
        proof {
            lemma_fault_at_after(q0, 1, 0);
        }

        if let Err(err) = radio.register(EventId::StaConnected) {
            return Err(err);
        }
        proof {
            lemma_fault_at_after(q0, 2, 0);
        }

        if let Err(err) = radio.register(EventId::StaDisconnected) {
            return Err(err);
        }
        proof {
            lemma_fault_at_after(q0, 3, 0);
        }

        if let Err(err) = radio.register(EventId::GotIp) {
            return Err(err);
        }
        proof {
            lemma_fault_at_after(q0, 4, 0);
        }

        if let Err(err) = radio.start() {
            return Err(err);
        }

        Ok(())
    }

    /// Remove the four connect subscriptions.
    fn release_subs(&mut self, radio: &mut Radio)
        ensures
            final (self).state == old(self).state,
            final (self).sta_entered == old(self).sta_entered,
            !final (self).subs_held,
            final (self).waker == old(self).waker,
            final (self).finished == old(self).finished,
            old(radio).eq_admin(*final (radio)),
            old(radio).eq_roles(*final (radio)),
            final (radio).started == old(radio).started,
            final (radio).faults == old(radio).faults,
            final (radio).subs == with_connect_subs(old(radio).subs, false),
    {
        radio.unregister(EventId::StaStart);
        radio.unregister(EventId::StaConnected);
        radio.unregister(EventId::StaDisconnected);
        radio.unregister(EventId::GotIp);
        self.subs_held = false;
    }

    /// Remove the four connect subscriptions and release the station
    /// reservation, if this operation holds it.  Subscriptions are released
    /// before the mode reservation, so no notification can fire into an
    /// already-released mode.
    fn release(&mut self, radio: &mut Radio)
        requires
            old(radio).wf(),
            old(self).sta_entered ==> old(radio).sta_count > 0,
        ensures
            final (radio).wf(),
            final (self).state == old(self).state,
            !final (self).sta_entered,
            !final (self).subs_held,
            final (self).waker == old(self).waker,
            final (self).finished == old(self).finished,
            old(radio).eq_admin(*final (radio)),
            final (radio).faults == old(radio).faults,
            final (radio).subs == with_connect_subs(old(radio).subs, false),
            final (radio).ap_count == old(radio).ap_count,
            final (radio).sta_count == old(radio).sta_count - (if old(self).sta_entered {
                1int
            } else {
                0int
            }),
            final (radio).mode_state() == (if old(self).sta_entered {
                mode_op_apply(old(radio).mode_state(), ModeOp::LeaveSta)
            } else {
                old(radio).mode_state()
            }),
            final (radio).started == (if old(self).sta_entered && old(radio).sta_count == 1 && old(
                radio,
            ).ap_count == 0 {
                false
            } else {
                old(radio).started
            }),
    {
        self.release_subs(radio);
        if self.sta_entered {
            radio.leave_sta();
            self.sta_entered = false;
        }
    }

    /// Abandon a pending operation, as dropping it mid-flight does: the four
    /// subscriptions are removed and the station reservation is released
    /// exactly once, whatever state the operation is in.
    pub fn cancel(&mut self, radio: &mut Radio)
        requires
            old(radio).wf(),
            old(self).sta_entered ==> old(radio).sta_count > 0,
        ensures
            final (radio).wf(),
            final (self).state == old(self).state,
            !final (self).sta_entered,
            !final (self).subs_held,
            final (self).finished,
            old(radio).eq_admin(*final (radio)),
            final (radio).faults == old(radio).faults,
            final (radio).subs == with_connect_subs(old(radio).subs, false),
            final (radio).ap_count == old(radio).ap_count,
            final (radio).sta_count == old(radio).sta_count - (if old(self).sta_entered {
                1int
            } else {
                0int
            }),
            final (radio).mode_state() == (if old(self).sta_entered {
                mode_op_apply(old(radio).mode_state(), ModeOp::LeaveSta)
            } else {
                old(radio).mode_state()
            }),
    {
        self.release(radio);
        self.finished = true;
    }
}

} // verus!
