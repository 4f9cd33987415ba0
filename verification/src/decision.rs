//! The action decision engine: three independent, pure rules.
//!
//! Each rule decides from the live snapshot and the freshly read
//! on-chain amounts whether its action is due this cycle. No rule
//! consults local history: "at most once per round" comes from the
//! chain's own state (the last reward round, the pending amounts), so
//! the rules stay idempotent and the scheduler may re-evaluate them
//! every cycle without risking duplicate work.

use crate::config::{ActionPolicy, TransferBondPolicy, WithdrawFeesPolicy};
use crate::ids::Address;
use crate::round::RoundSnapshot;
use crate::uint256::Uint256;
use vstd::prelude::*;

verus! {

/// Reward-claim rule: due exactly when the action is enabled, the
/// round is initialized, and the chain's last reward round lies behind
/// the current round.
pub open spec fn reward_due(
    enabled: bool,
    snap: RoundSnapshot,
    last_reward_round: Uint256,
) -> bool {
    enabled && snap.initialized && last_reward_round.as_nat() < snap.round.as_nat()
}

/// How much stake the transfer rule may move: whatever exceeds the
/// configured minimum to retain, zero when nothing does.
pub open spec fn transferable_amount(pending_stake: nat, min_retain: nat) -> nat {
    if pending_stake > min_retain {
        (pending_stake - min_retain) as nat
    } else {
        0
    }
}

/// Decides the reward claim.
pub fn decide_reward(enabled: bool, snap: &RoundSnapshot, last_reward_round: &Uint256) -> (fire:
    bool)
    ensures
        fire == reward_due(enabled, *snap, *last_reward_round),
{
    enabled && snap.initialized && last_reward_round.lt(&snap.round)
}

/// A decided bond transfer, ready for submission.
///
/// The submission signature downstream takes four auxiliary addresses
/// that this policy never uses; they are carried here explicitly, and
/// always zero, so that a caller preserves the exact arity and
/// zero-fill of the call.
#[derive(Clone, Copy, Debug, PartialEq, Eq, Structural)]
pub struct TransferBondAction {
    pub receiver: Address,
    pub amount: Uint256,
    pub aux1: Address,
    pub aux2: Address,
    pub aux3: Address,
    pub aux4: Address,
}

/// What a correct bond-transfer decision looks like.
pub open spec fn transfer_decision_ok(
    policy: TransferBondPolicy,
    locked: bool,
    pending_stake: Option<Uint256>,
    d: Option<TransferBondAction>,
) -> bool {
    &&& d is Some <==> ({
        &&& policy matches TransferBondPolicy::Enabled { min_retain, .. }
        &&& locked
        &&& pending_stake matches Some(s)
        &&& transferable_amount(s.as_nat(), min_retain.as_nat()) > 0
    })
    &&& d matches Some(a) ==> ({
        &&& policy matches TransferBondPolicy::Enabled { receiver, min_retain }
        &&& a.receiver == receiver
        &&& pending_stake matches Some(s)
        &&& a.amount.as_nat() == transferable_amount(s.as_nat(), min_retain.as_nat())
        &&& a.aux1 == (Address { hi: 0u32, lo: 0u128 })
        &&& a.aux2 == (Address { hi: 0u32, lo: 0u128 })
        &&& a.aux3 == (Address { hi: 0u32, lo: 0u128 })
        &&& a.aux4 == (Address { hi: 0u32, lo: 0u128 })
    })
}

/// Decides the bond transfer.
///
/// The subtraction saturates: pending stake at or below the retained
/// minimum transfers nothing and is not an error. `pending_stake` is
/// `None` when the amount was not read this cycle (rule not applicable,
/// or the read failed), in which case nothing fires.
pub fn decide_transfer_bond(
    policy: &TransferBondPolicy,
    locked: bool,
    pending_stake: &Option<Uint256>,
) -> (d: Option<TransferBondAction>)
    ensures
        transfer_decision_ok(*policy, locked, *pending_stake, d),
{
    match policy {
        TransferBondPolicy::Disabled => None,
        TransferBondPolicy::Enabled { receiver, min_retain } => {
            if !locked {
                return None;
            }
            match pending_stake {
                None => None,
                Some(stake) => {
                    let transferable = match stake.checked_sub(min_retain) {
                        Some(v) => v,
                        None => Uint256::zero(),
                    };
                    if transferable.is_zero() {
                        None
                    } else {
                        Some(
                            TransferBondAction {
                                receiver: *receiver,
                                amount: transferable,
                                aux1: Address::zero(),
                                aux2: Address::zero(),
                                aux3: Address::zero(),
                                aux4: Address::zero(),
                            },
                        )
                    }
                },
            }
        },
    }
}

/// A decided fee withdrawal, ready for submission. The whole pending
/// amount is withdrawn.
#[derive(Clone, Copy, Debug, PartialEq, Eq, Structural)]
pub struct WithdrawFeesAction {
    pub receiver: Address,
    pub amount: Uint256,
}

/// What a correct fee-withdrawal decision looks like. The threshold
/// may legitimately be zero, so reaching the threshold and having
/// anything to withdraw are two separate conditions.
pub open spec fn withdraw_decision_ok(
    policy: WithdrawFeesPolicy,
    locked: bool,
    pending_fees: Option<Uint256>,
    d: Option<WithdrawFeesAction>,
) -> bool {
    &&& d is Some <==> ({
        &&& policy matches WithdrawFeesPolicy::Enabled { threshold, .. }
        &&& locked
        &&& pending_fees matches Some(f)
        &&& f.as_nat() >= threshold.as_nat()
        &&& f.as_nat() > 0
    })
    &&& d matches Some(a) ==> ({
        &&& policy matches WithdrawFeesPolicy::Enabled { receiver, .. }
        &&& a.receiver == receiver
        &&& pending_fees matches Some(f)
        &&& a.amount == f
    })
}

/// Decides the fee withdrawal.
pub fn decide_withdraw_fees(
    policy: &WithdrawFeesPolicy,
    locked: bool,
    pending_fees: &Option<Uint256>,
) -> (d: Option<WithdrawFeesAction>)
    ensures
        withdraw_decision_ok(*policy, locked, *pending_fees, d),
{
    match policy {
        WithdrawFeesPolicy::Disabled => None,
        WithdrawFeesPolicy::Enabled { receiver, threshold } => {
            if !locked {
                return None;
            }
            match pending_fees {
                None => None,
                Some(fees) => {
                    if fees.ge(threshold) && !fees.is_zero() {
                        Some(WithdrawFeesAction { receiver: *receiver, amount: *fees })
                    } else {
                        None
                    }
                },
            }
        },
    }
}

/// The on-chain amounts read for one cycle. A `None` means the value
/// was not read: the rule that needs it was not applicable, or the
/// read failed and the rule is skipped until the next cycle.
#[derive(Clone, Copy, Debug, PartialEq, Eq, Structural)]
pub struct CycleReads {
    pub last_reward_round: Option<Uint256>,
    pub pending_stake: Option<Uint256>,
    pub pending_fees: Option<Uint256>,
}

/// Everything one evaluation of the engine decided.
#[derive(Clone, Copy, Debug, PartialEq, Eq, Structural)]
pub struct CycleDecisions {
    pub fire_reward: bool,
    pub transfer: Option<TransferBondAction>,
    pub withdraw: Option<WithdrawFeesAction>,
}

/// What a correct full evaluation looks like: each rule judged
/// independently against the same snapshot and reads.
pub open spec fn cycle_decisions_ok(
    policy: ActionPolicy,
    snap: RoundSnapshot,
    reads: CycleReads,
    d: CycleDecisions,
) -> bool {
    &&& d.fire_reward <==> (reads.last_reward_round matches Some(l) && reward_due(
        policy.reward_enabled,
        snap,
        l,
    ))
    &&& transfer_decision_ok(policy.transfer_bond, snap.locked, reads.pending_stake, d.transfer)
    &&& withdraw_decision_ok(policy.withdraw_fees, snap.locked, reads.pending_fees, d.withdraw)
}

/// Runs all three rules on one cycle's snapshot and reads.
///
/// No rule short-circuits another: a cycle may fire zero, one, two or
/// three actions.
pub fn decide_cycle(policy: &ActionPolicy, snap: &RoundSnapshot, reads: &CycleReads) -> (d:
    CycleDecisions)
    ensures
        cycle_decisions_ok(*policy, *snap, *reads, d),
{
    let fire_reward = match &reads.last_reward_round {
        Some(l) => decide_reward(policy.reward_enabled, snap, l),
        None => false,
    };
    let transfer = decide_transfer_bond(&policy.transfer_bond, snap.locked, &reads.pending_stake);
    let withdraw = decide_withdraw_fees(&policy.withdraw_fees, snap.locked, &reads.pending_fees);
    CycleDecisions { fire_reward, transfer, withdraw }
}

/// The decision rules are idempotent: two evaluations of the same
/// snapshot and reads agree on every decision, because a correct
/// evaluation is a function of those inputs alone — no memo or other
/// hidden state can tell two runs apart.
pub proof fn lemma_decisions_idempotent(
    policy: ActionPolicy,
    snap: RoundSnapshot,
    reads: CycleReads,
    d1: CycleDecisions,
    d2: CycleDecisions,
)
    requires
        cycle_decisions_ok(policy, snap, reads, d1),
        cycle_decisions_ok(policy, snap, reads, d2),
    ensures
        d1 == d2,
{
    if d1.transfer is Some {
        Uint256::lemma_as_nat_injective(d1.transfer->Some_0.amount, d2.transfer->Some_0.amount);
    }
}

/// While the round is not locked, no balance-moving rule fires,
/// whatever the pending amounts read: only the reward rule may.
pub proof fn lemma_unlocked_round_moves_no_balances(
    policy: ActionPolicy,
    snap: RoundSnapshot,
    reads: CycleReads,
    d: CycleDecisions,
)
    requires
        cycle_decisions_ok(policy, snap, reads, d),
        !snap.locked,
    ensures
        d.transfer is None,
        d.withdraw is None,
{
}

} // verus!
