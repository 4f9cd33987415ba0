use funds_transfer::config::{ActionPolicy, TransferBondPolicy, WithdrawFeesPolicy};
use funds_transfer::decision::{
    decide_cycle, decide_reward, decide_transfer_bond, decide_withdraw_fees, CycleReads,
};
use funds_transfer::ids::Address;
use funds_transfer::round::RoundSnapshot;
use funds_transfer::uint256::Uint256;

fn snapshot(round: u64, initialized: bool, locked: bool) -> RoundSnapshot {
    RoundSnapshot {
        round: Uint256::from_u64(round),
        initialized,
        locked,
    }
}

fn receiver() -> Address {
    Address::new(0x12, 0x34)
}

#[test]
fn reward_fires_only_behind_the_current_round() {
    let snap = snapshot(10, true, false);
    assert!(decide_reward(true, &snap, &Uint256::from_u64(9)));
    assert!(!decide_reward(true, &snap, &Uint256::from_u64(10)));
    assert!(!decide_reward(true, &snap, &Uint256::from_u64(11)));
}

#[test]
fn reward_needs_enablement_and_initialization() {
    let behind = Uint256::from_u64(9);
    assert!(!decide_reward(false, &snapshot(10, true, false), &behind));
    assert!(!decide_reward(true, &snapshot(10, false, false), &behind));
}

#[test]
fn transfer_skips_at_or_below_the_retained_minimum() {
    let policy = TransferBondPolicy::Enabled {
        receiver: receiver(),
        min_retain: Uint256::from_u64(100),
    };
    assert_eq!(decide_transfer_bond(&policy, true, &Some(Uint256::from_u64(100))), None);
    assert_eq!(decide_transfer_bond(&policy, true, &Some(Uint256::from_u64(40))), None);
}

#[test]
fn transfer_moves_exactly_the_excess() {
    let policy = TransferBondPolicy::Enabled {
        receiver: receiver(),
        min_retain: Uint256::from_u64(100),
    };
    let d = decide_transfer_bond(&policy, true, &Some(Uint256::from_u64(101))).unwrap();
    assert_eq!(d.amount, Uint256::from_u64(1));
    assert_eq!(d.receiver, receiver());
}

#[test]
fn transfer_passes_four_zero_placeholders() {
    let policy = TransferBondPolicy::Enabled {
        receiver: receiver(),
        min_retain: Uint256::zero(),
    };
    let d = decide_transfer_bond(&policy, true, &Some(Uint256::from_u64(5))).unwrap();
    let zero = Address::zero();
    assert_eq!(d.aux1, zero);
    assert_eq!(d.aux2, zero);
    assert_eq!(d.aux3, zero);
    assert_eq!(d.aux4, zero);
}

#[test]
fn transfer_needs_lock_enablement_and_a_read() {
    let policy = TransferBondPolicy::Enabled {
        receiver: receiver(),
        min_retain: Uint256::zero(),
    };
    let stake = Some(Uint256::from_u64(5));
    assert_eq!(decide_transfer_bond(&policy, false, &stake), None);
    assert_eq!(decide_transfer_bond(&TransferBondPolicy::Disabled, true, &stake), None);
    assert_eq!(decide_transfer_bond(&policy, true, &None), None);
}

#[test]
fn withdraw_fires_at_a_positive_threshold_exactly_met() {
    let policy = WithdrawFeesPolicy::Enabled {
        receiver: receiver(),
        threshold: Uint256::from_u64(30),
    };
    let d = decide_withdraw_fees(&policy, true, &Some(Uint256::from_u64(30))).unwrap();
    assert_eq!(d.amount, Uint256::from_u64(30));
    assert_eq!(d.receiver, receiver());
}

#[test]
fn withdraw_never_fires_on_zero_pending_fees() {
    // Threshold zero with zero fees: the threshold is met, yet there
    // is nothing to withdraw, so the rule must not fire.
    let policy = WithdrawFeesPolicy::Enabled {
        receiver: receiver(),
        threshold: Uint256::zero(),
    };
    assert_eq!(decide_withdraw_fees(&policy, true, &Some(Uint256::zero())), None);
    // With anything pending, a zero threshold fires.
    assert!(decide_withdraw_fees(&policy, true, &Some(Uint256::from_u64(1))).is_some());
}

#[test]
fn withdraw_skips_below_threshold() {
    let policy = WithdrawFeesPolicy::Enabled {
        receiver: receiver(),
        threshold: Uint256::from_u64(30),
    };
    assert_eq!(decide_withdraw_fees(&policy, true, &Some(Uint256::from_u64(29))), None);
}

#[test]
fn withdraw_needs_lock_enablement_and_a_read() {
    let policy = WithdrawFeesPolicy::Enabled {
        receiver: receiver(),
        threshold: Uint256::zero(),
    };
    let fees = Some(Uint256::from_u64(5));
    assert_eq!(decide_withdraw_fees(&policy, false, &fees), None);
    assert_eq!(decide_withdraw_fees(&WithdrawFeesPolicy::Disabled, true, &fees), None);
    assert_eq!(decide_withdraw_fees(&policy, true, &None), None);
}

#[test]
fn full_cycle_fires_all_three_actions() {
    // Round 10, initialized and locked; the reward lags one round;
    // five LPT of pending stake against one retained; 0.05 ETH of
    // fees against a 0.03 ETH threshold.
    let policy = ActionPolicy {
        reward_enabled: true,
        transfer_bond: TransferBondPolicy::Enabled {
            receiver: receiver(),
            min_retain: Uint256::from_u64(1_000_000_000_000_000_000),
        },
        withdraw_fees: WithdrawFeesPolicy::Enabled {
            receiver: receiver(),
            threshold: Uint256::from_u64(30_000_000_000_000_000),
        },
        loop_sleep_secs: 6,
        receipt_timeout_secs: 90,
    };
    let snap = snapshot(10, true, true);
    let reads = CycleReads {
        last_reward_round: Some(Uint256::from_u64(9)),
        pending_stake: Some(Uint256::from_u64(5_000_000_000_000_000_000)),
        pending_fees: Some(Uint256::from_u64(50_000_000_000_000_000)),
    };
    let d = decide_cycle(&policy, &snap, &reads);
    assert!(d.fire_reward);
    let transfer = d.transfer.unwrap();
    assert_eq!(transfer.amount, Uint256::from_u64(4_000_000_000_000_000_000));
    let withdraw = d.withdraw.unwrap();
    assert_eq!(withdraw.amount, Uint256::from_u64(50_000_000_000_000_000));
}

#[test]
fn failed_reward_read_skips_the_rule() {
    // When the last reward round could not be read this cycle, the
    // reward rule is simply not evaluated; the next cycle retries.
    let policy = ActionPolicy {
        reward_enabled: true,
        transfer_bond: TransferBondPolicy::Disabled,
        withdraw_fees: WithdrawFeesPolicy::Disabled,
        loop_sleep_secs: 6,
        receipt_timeout_secs: 90,
    };
    let snap = snapshot(10, true, true);
    let reads = CycleReads {
        last_reward_round: None,
        pending_stake: None,
        pending_fees: None,
    };
    let d = decide_cycle(&policy, &snap, &reads);
    assert!(!d.fire_reward);
}

#[test]
fn unlocked_round_moves_no_balances() {
    // Whatever the balances read, an unlocked round transfers and
    // withdraws nothing; only the reward rule may fire.
    let policy = ActionPolicy {
        reward_enabled: true,
        transfer_bond: TransferBondPolicy::Enabled {
            receiver: receiver(),
            min_retain: Uint256::zero(),
        },
        withdraw_fees: WithdrawFeesPolicy::Enabled {
            receiver: receiver(),
            threshold: Uint256::zero(),
        },
        loop_sleep_secs: 6,
        receipt_timeout_secs: 90,
    };
    let snap = snapshot(10, true, false);
    let reads = CycleReads {
        last_reward_round: Some(Uint256::from_u64(9)),
        pending_stake: Some(Uint256::from_u64(1_000_000)),
        pending_fees: Some(Uint256::from_u64(1_000_000)),
    };
    let d = decide_cycle(&policy, &snap, &reads);
    assert!(d.fire_reward);
    assert_eq!(d.transfer, None);
    assert_eq!(d.withdraw, None);
}

#[test]
fn rerunning_the_rules_changes_nothing() {
    let policy = ActionPolicy {
        reward_enabled: true,
        transfer_bond: TransferBondPolicy::Enabled {
            receiver: receiver(),
            min_retain: Uint256::from_u64(3),
        },
        withdraw_fees: WithdrawFeesPolicy::Enabled {
            receiver: receiver(),
            threshold: Uint256::from_u64(2),
        },
        loop_sleep_secs: 6,
        receipt_timeout_secs: 90,
    };
    let snap = snapshot(4, true, true);
    let reads = CycleReads {
        last_reward_round: Some(Uint256::from_u64(4)),
        pending_stake: Some(Uint256::from_u64(9)),
        pending_fees: Some(Uint256::from_u64(2)),
    };
    let first = decide_cycle(&policy, &snap, &reads);
    let second = decide_cycle(&policy, &snap, &reads);
    assert_eq!(first, second);
}
