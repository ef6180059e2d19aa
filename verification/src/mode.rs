//! The radio's operating mode and the fixed transition tables used by the
//! reference-counted mode guards.

use vstd::prelude::*;

verus! {

/// The operating mode of the physical radio: none, access point, station, or
/// both roles combined.
#[derive(Debug, Clone, Copy, PartialEq, Eq, Structural)]
pub enum WifiMode {
    Null,
    Ap,
    Sta,
    ApSta,
}

/// The mode the hardware must be in when the access-point role is active
/// iff `ap` and the station role is active iff `sta`.
pub open spec fn mode_of_roles(ap: bool, sta: bool) -> WifiMode {
    if ap && sta {
        WifiMode::ApSta
    } else if ap {
        WifiMode::Ap
    } else if sta {
        WifiMode::Sta
    } else {
        WifiMode::Null
    }
}

/// Whether the access-point role is part of `mode`.
pub open spec fn spec_has_ap(mode: WifiMode) -> bool {
    mode == WifiMode::Ap || mode == WifiMode::ApSta
}

/// Whether the station role is part of `mode`.
pub open spec fn spec_has_sta(mode: WifiMode) -> bool {
    mode == WifiMode::Sta || mode == WifiMode::ApSta
}

impl WifiMode {
    /// Whether the access-point role is part of this mode.
    pub fn has_ap(self) -> (r: bool)
        ensures
            r == spec_has_ap(self),
    {
        matches!(self, WifiMode::Ap | WifiMode::ApSta)
    }

    /// Whether the station role is part of this mode.
    pub fn has_sta(self) -> (r: bool)
        ensures
            r == spec_has_sta(self),
    {
        matches!(self, WifiMode::Sta | WifiMode::ApSta)
    }

    /// The mode after adding the access-point role: `Null` becomes `Ap`, a
    /// lone `Sta` becomes `ApSta`, and a mode that already carries the role
    /// is unchanged.
    pub fn with_ap(self) -> (r: WifiMode)
        ensures
            r == mode_of_roles(true, spec_has_sta(self)),
            spec_has_ap(self) ==> r == self,
    {
        match self {
            WifiMode::Null => WifiMode::Ap,
            WifiMode::Sta => WifiMode::ApSta,
            WifiMode::Ap => WifiMode::Ap,
            WifiMode::ApSta => WifiMode::ApSta,
        }
    }

    /// The mode after adding the station role.
    pub fn with_sta(self) -> (r: WifiMode)
        ensures
            r == mode_of_roles(spec_has_ap(self), true),
            spec_has_sta(self) ==> r == self,
    {
        match self {
            WifiMode::Null => WifiMode::Sta,
            WifiMode::Ap => WifiMode::ApSta,
            WifiMode::Sta => WifiMode::Sta,
            WifiMode::ApSta => WifiMode::ApSta,
        }
    }

    /// The reverse transition for the access-point role: `ApSta` falls back
    /// to `Sta` and a lone `Ap` to `Null`.
    pub fn without_ap(self) -> (r: WifiMode)
        ensures
            r == mode_of_roles(false, spec_has_sta(self)),
    {
        match self {
            WifiMode::ApSta => WifiMode::Sta,
            WifiMode::Ap => WifiMode::Null,
            WifiMode::Sta => WifiMode::Sta,
            WifiMode::Null => WifiMode::Null,
        }
    }

    /// The reverse transition for the station role.
    pub fn without_sta(self) -> (r: WifiMode)
        ensures
            r == mode_of_roles(spec_has_ap(self), false),
    {
        match self {
            WifiMode::ApSta => WifiMode::Ap,
            WifiMode::Sta => WifiMode::Null,
            WifiMode::Ap => WifiMode::Ap,
            WifiMode::Null => WifiMode::Null,
        }
    }
}

/// The reference-counted role state: one non-negative counter per role,
/// together with the mode the hardware is in.
pub ghost struct ModeState {
    pub ap: nat,
    pub sta: nat,
    pub mode: WifiMode,
}

/// The guard invariant: the hardware mode is always the union of the roles
/// whose counters are positive.
pub open spec fn mode_state_wf(s: ModeState) -> bool {
    s.mode == mode_of_roles(s.ap > 0, s.sta > 0)
}

/// One reservation or release of one role.
pub ghost enum ModeOp {
    EnterAp,
    LeaveAp,
    EnterSta,
    LeaveSta,
}

/// The effect of one guard operation on the role state.
pub open spec fn mode_op_apply(s: ModeState, op: ModeOp) -> ModeState {
    match op {
        ModeOp::EnterAp => ModeState {
            ap: s.ap + 1,
            sta: s.sta,
            mode: mode_of_roles(true, s.sta > 0),
        },
        ModeOp::LeaveAp => {
            let ap = if s.ap > 0 {
                (s.ap - 1) as nat
            } else {
                0
            };
            ModeState { ap, sta: s.sta, mode: mode_of_roles(ap > 0, s.sta > 0) }
        },
        ModeOp::EnterSta => ModeState {
            ap: s.ap,
            sta: s.sta + 1,
            mode: mode_of_roles(s.ap > 0, true),
        },
        ModeOp::LeaveSta => {
            let sta = if s.sta > 0 {
                (s.sta - 1) as nat
            } else {
                0
            };
            ModeState { ap: s.ap, sta, mode: mode_of_roles(s.ap > 0, sta > 0) }
        },
    }
}

/// The effect of a sequence of guard operations, applied left to right.
pub open spec fn mode_ops_apply(s: ModeState, ops: Seq<ModeOp>) -> ModeState
    decreases ops.len(),
{
    if ops.len() == 0 {
        s
    } else {
        mode_ops_apply(mode_op_apply(s, ops[0]), ops.drop_first())
    }
}

/// The number of operations in `ops` that equal `op`.
pub open spec fn mode_op_count(ops: Seq<ModeOp>, op: ModeOp) -> int
    decreases ops.len(),
{
    if ops.len() == 0 {
        0
    } else {
        (if ops[0] == op {
            1int
        } else {
            0int
        }) + mode_op_count(ops.drop_first(), op)
    }
}

/// In every prefix of `ops`, no role is released more often than it was
/// reserved on top of its starting count.
pub open spec fn mode_ops_prefix_safe(s: ModeState, ops: Seq<ModeOp>) -> bool {
    forall|i: int|
        0 <= i <= ops.len() ==> {
            let pre = #[trigger] ops.take(i);
            &&& mode_op_count(pre, ModeOp::LeaveAp) <= s.ap + mode_op_count(pre, ModeOp::EnterAp)
            &&& mode_op_count(pre, ModeOp::LeaveSta) <= s.sta + mode_op_count(
                pre,
                ModeOp::EnterSta,
            )
        }
}

/// Each guard operation preserves the guard invariant.
pub proof fn lemma_mode_op_preserves_wf(s: ModeState, op: ModeOp)
    requires
        mode_state_wf(s),
    ensures
        mode_state_wf(mode_op_apply(s, op)),
{
}


/// The counters after a sequence of guard operations: each counter moves by
/// the number of its reservations minus the number of its releases, and the
/// invariant is preserved throughout.
proof fn lemma_mode_ops_counts(s: ModeState, ops: Seq<ModeOp>)
    requires
        mode_state_wf(s),
        mode_ops_prefix_safe(s, ops),
    ensures
        mode_state_wf(mode_ops_apply(s, ops)),
        mode_ops_apply(s, ops).ap == s.ap + mode_op_count(ops, ModeOp::EnterAp) - mode_op_count(
            ops,
            ModeOp::LeaveAp,
        ),
        mode_ops_apply(s, ops).sta == s.sta + mode_op_count(ops, ModeOp::EnterSta) - mode_op_count(
            ops,
            ModeOp::LeaveSta,
        ),
    decreases ops.len(),
{
    reveal_with_fuel(mode_op_count, 3);
    if ops.len() > 0 {
        let s1 = mode_op_apply(s, ops[0]);
        lemma_mode_op_preserves_wf(s, ops[0]);

        // The first operation may not release below zero: instantiate the
        // prefix condition at length 1.
        assert(ops.take(1) =~= seq![ops[0]]);
        assert(ops.take(1).drop_first() =~= Seq::<ModeOp>::empty());
        if ops[0] == ModeOp::LeaveAp {
            assert(mode_op_count(ops.take(1), ModeOp::LeaveAp) == 1);
            assert(s.ap > 0);
        }
        if ops[0] == ModeOp::LeaveSta {
            assert(mode_op_count(ops.take(1), ModeOp::LeaveSta) == 1);
            assert(s.sta > 0);
        }

        // Prefixes of the tail are prefixes of the whole, shifted by one.
        assert forall|i: int| 0 <= i <= ops.drop_first().len() implies {
            let pre = #[trigger] ops.drop_first().take(i);
            &&& mode_op_count(pre, ModeOp::LeaveAp) <= s1.ap + mode_op_count(pre, ModeOp::EnterAp)
            &&& mode_op_count(pre, ModeOp::LeaveSta) <= s1.sta + mode_op_count(
                pre,
                ModeOp::EnterSta,
            )
        } by {
            let pre_full = ops.take(i + 1);
            assert(pre_full.len() > 0);
            assert(pre_full[0] == ops[0]);
            assert(pre_full.drop_first() =~= ops.drop_first().take(i));
            assert(mode_op_count(pre_full, ModeOp::LeaveAp) <= s.ap + mode_op_count(
                pre_full,
                ModeOp::EnterAp,
            ));
            assert(mode_op_count(pre_full, ModeOp::LeaveSta) <= s.sta + mode_op_count(
                pre_full,
                ModeOp::EnterSta,
            ));
        }

        lemma_mode_ops_counts(s1, ops.drop_first());
    }
}

/// Balanced reservation/release sequences restore the hardware mode: if every
/// reservation of a role is matched by a release, in any interleaving that
/// never releases a role more often than it was reserved, the counters and
/// the hardware mode return to their starting values.
pub proof fn lemma_mode_ops_balanced_restore(s: ModeState, ops: Seq<ModeOp>)
    requires
        mode_state_wf(s),
        mode_ops_prefix_safe(s, ops),
        mode_op_count(ops, ModeOp::EnterAp) == mode_op_count(ops, ModeOp::LeaveAp),
        mode_op_count(ops, ModeOp::EnterSta) == mode_op_count(ops, ModeOp::LeaveSta),
    ensures
        mode_ops_apply(s, ops) == s,
{
    lemma_mode_ops_counts(s, ops);
}

} // verus!
