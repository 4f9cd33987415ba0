//! The scheduler's per-cycle bookkeeping.
//!
//! The loop itself lives outside the library: it polls the round
//! oracle, performs the decided submissions, sleeps, and repeats
//! forever. What the library holds is the state the loop threads
//! through — the last observed snapshot and the locked-round memo —
//! together with the plan of one cycle (what to evaluate, at which
//! verbosity to report) and the end-of-cycle state update. A cycle
//! whose oracle read failed changes nothing and skips every rule.

use crate::config::{ActionPolicy, TransferBondPolicy, WithdrawFeesPolicy};
use crate::round::{observe, LockedSnapshot, RoundSnapshot};
use vstd::prelude::*;

verus! {

/// The only state that outlives a cycle. It is owned by the loop,
/// mutated only at cycle end, and lost on restart — after which every
/// rule is simply re-evaluated from live chain state.
#[derive(Clone, Copy, Debug, PartialEq, Eq, Structural)]
pub struct SchedulerState {
    /// The snapshot of the previous cycle, if any.
    pub last_snapshot: Option<RoundSnapshot>,
    /// The locked-round amounts last reported, if any.
    pub last_locked_memo: Option<LockedSnapshot>,
}

impl SchedulerState {
    /// The state a fresh process starts from: nothing observed yet.
    pub fn new() -> (s: SchedulerState)
        ensures
            s.last_snapshot is None,
            s.last_locked_memo is None,
    {
        SchedulerState { last_snapshot: None, last_locked_memo: None }
    }
}

/// What one cycle with a fresh snapshot is to do.
#[derive(Clone, Copy, Debug, PartialEq, Eq, Structural)]
pub struct CyclePlan {
    /// Whether the snapshot differs from the previous cycle's; chooses
    /// the reporting verbosity only, never gates an action.
    pub changed: bool,
    /// Evaluate the reward rule: the action is enabled and the round
    /// is initialized.
    pub eval_reward: bool,
    /// Enter the locked-round section at all: the round is locked and
    /// at least one of the two balance actions is enabled.
    pub eval_locked: bool,
    /// Read pending stake and evaluate the transfer rule.
    pub eval_transfer: bool,
    /// Read pending fees and evaluate the withdrawal rule.
    pub eval_withdraw: bool,
}

/// Lays out one cycle from the fresh snapshot and the validated
/// policy. Pure: the plan reads the live snapshot and the enablement
/// flags, nothing else.
pub fn plan_cycle(policy: &ActionPolicy, state: &SchedulerState, snap: &RoundSnapshot) -> (p:
    CyclePlan)
    ensures
        p.changed == match state.last_snapshot {
            Some(prev) => prev != *snap,
            None => true,
        },
        p.eval_reward == (policy.reward_enabled && snap.initialized),
        p.eval_locked == (snap.locked && (policy.transfer_bond is Enabled || policy.withdraw_fees
            is Enabled)),
        p.eval_transfer == (snap.locked && policy.transfer_bond is Enabled),
        p.eval_withdraw == (snap.locked && policy.withdraw_fees is Enabled),
{
    let transition = observe(snap, &state.last_snapshot);
    let transfer_enabled = match &policy.transfer_bond {
        TransferBondPolicy::Enabled { .. } => true,
        TransferBondPolicy::Disabled => false,
    };
    let withdraw_enabled = match &policy.withdraw_fees {
        WithdrawFeesPolicy::Enabled { .. } => true,
        WithdrawFeesPolicy::Disabled => false,
    };
    CyclePlan {
        changed: transition.changed,
        eval_reward: policy.reward_enabled && snap.initialized,
        eval_locked: snap.locked && (transfer_enabled || withdraw_enabled),
        eval_transfer: snap.locked && transfer_enabled,
        eval_withdraw: snap.locked && withdraw_enabled,
    }
}

/// Closes one cycle. A cycle that obtained a snapshot records it as
/// the new "last seen", whether or not any action fired or failed; a
/// cycle whose oracle read failed leaves the state exactly as it was,
/// and the loop only sleeps the full interval. The locked-round memo
/// is written elsewhere, while the locked section runs, and is never
/// touched here.
pub fn record_cycle(state: &mut SchedulerState, fetched: &Option<RoundSnapshot>)
    ensures
        final(state).last_snapshot == match *fetched {
            Some(s) => Some(s),
            None => old(state).last_snapshot,
        },
        final(state).last_locked_memo == old(state).last_locked_memo,
        fetched is None ==> *final(state) == *old(state),
{
    match fetched {
        Some(s) => {
            state.last_snapshot = Some(*s);
        },
        None => {
        },
    }
}

} // verus!
