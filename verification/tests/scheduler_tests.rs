use funds_transfer::config::{
    load_config, validate_config, ActionPolicy, Config, EnvValues, TransferBondPolicy,
    WithdrawFeesPolicy,
};
use funds_transfer::error::AppError;
use funds_transfer::ids::Address;
use funds_transfer::round::{note_locked_snapshot, observe, LockedSnapshot, RoundSnapshot};
use funds_transfer::scheduler::{plan_cycle, record_cycle, SchedulerState};
use funds_transfer::uint256::Uint256;

fn snapshot(round: u64, initialized: bool, locked: bool) -> RoundSnapshot {
    RoundSnapshot {
        round: Uint256::from_u64(round),
        initialized,
        locked,
    }
}

fn policy(reward: bool, transfer: bool, withdraw: bool) -> ActionPolicy {
    ActionPolicy {
        reward_enabled: reward,
        transfer_bond: if transfer {
            TransferBondPolicy::Enabled {
                receiver: Address::new(1, 2),
                min_retain: Uint256::zero(),
            }
        } else {
            TransferBondPolicy::Disabled
        },
        withdraw_fees: if withdraw {
            WithdrawFeesPolicy::Enabled {
                receiver: Address::new(3, 4),
                threshold: Uint256::zero(),
            }
        } else {
            WithdrawFeesPolicy::Disabled
        },
        loop_sleep_secs: 6,
        receipt_timeout_secs: 90,
    }
}

#[test]
fn first_observation_counts_as_a_change() {
    let t = observe(&snapshot(3, true, false), &None);
    assert!(t.changed);
}

#[test]
fn repeated_snapshot_is_steady_state() {
    let prev = snapshot(3, true, false);
    assert!(!observe(&snapshot(3, true, false), &Some(prev)).changed);
    assert!(observe(&snapshot(4, true, false), &Some(prev)).changed);
    assert!(observe(&snapshot(3, true, true), &Some(prev)).changed);
}

#[test]
fn memo_reports_only_on_change() {
    let mut memo: Option<LockedSnapshot> = None;
    let snap = LockedSnapshot {
        round: Uint256::from_u64(7),
        pending_stake: Uint256::from_u64(10),
        pending_fees: Uint256::from_u64(20),
        stake_present: true,
        fees_present: true,
    };
    assert!(note_locked_snapshot(&mut memo, &snap));
    assert!(!note_locked_snapshot(&mut memo, &snap));
    let changed = LockedSnapshot {
        pending_fees: Uint256::from_u64(21),
        ..snap
    };
    assert!(note_locked_snapshot(&mut memo, &changed));
    assert_eq!(memo, Some(changed));
}

#[test]
fn plan_gates_each_rule_independently() {
    let state = SchedulerState::new();
    let p = plan_cycle(&policy(true, true, false), &state, &snapshot(5, true, true));
    assert!(p.eval_reward);
    assert!(p.eval_locked);
    assert!(p.eval_transfer);
    assert!(!p.eval_withdraw);

    let p = plan_cycle(&policy(true, false, false), &state, &snapshot(5, true, true));
    assert!(!p.eval_locked);

    let p = plan_cycle(&policy(true, true, true), &state, &snapshot(5, true, false));
    assert!(!p.eval_locked && !p.eval_transfer && !p.eval_withdraw);

    let p = plan_cycle(&policy(true, true, true), &state, &snapshot(5, false, true));
    assert!(!p.eval_reward);
}

#[test]
fn cycle_end_records_the_snapshot() {
    let mut state = SchedulerState::new();
    let snap = snapshot(5, true, false);
    record_cycle(&mut state, &Some(snap));
    assert_eq!(state.last_snapshot, Some(snap));
}

#[test]
fn failed_oracle_read_leaves_state_untouched() {
    // The cycle that could not fetch a snapshot changes nothing: the
    // last snapshot and the memo survive as they were.
    let mut state = SchedulerState::new();
    let snap = snapshot(5, true, false);
    record_cycle(&mut state, &Some(snap));
    let before = state;
    record_cycle(&mut state, &None);
    assert_eq!(state, before);
}

fn full_config() -> Config {
    Config {
        enable_reward: true,
        enable_transfer_bond: true,
        lpt_receiver_addr: Some(Address::new(1, 2)),
        lpt_min_retain_wei: Some(Uint256::from_u64(5)),
        enable_withdraw_fees: true,
        eth_fee_receiver_addr: Some(Address::new(3, 4)),
        eth_fee_withdraw_threshold_wei: Some(Uint256::from_u64(6)),
        loop_sleep_secs: 6,
        receipt_timeout_secs: 90,
    }
}

#[test]
fn valid_config_passes_validation() {
    assert!(validate_config(&full_config()).is_ok());
    let mut disabled = full_config();
    disabled.enable_transfer_bond = false;
    disabled.lpt_receiver_addr = None;
    disabled.lpt_min_retain_wei = None;
    assert!(validate_config(&disabled).is_ok());
}

#[test]
fn enabled_transfer_needs_both_parameters() {
    let mut cfg = full_config();
    cfg.lpt_receiver_addr = None;
    assert!(matches!(
        validate_config(&cfg),
        Err(AppError::BadEnv("LPT_RECEIVER_ADDR", _))
    ));
    let mut cfg = full_config();
    cfg.lpt_min_retain_wei = None;
    assert!(matches!(
        validate_config(&cfg),
        Err(AppError::BadEnv("LPT_MIN_RETAIN_WEI", _))
    ));
}

#[test]
fn enabled_withdrawal_needs_both_parameters() {
    let mut cfg = full_config();
    cfg.eth_fee_receiver_addr = None;
    assert!(matches!(
        validate_config(&cfg),
        Err(AppError::BadEnv("ETH_FEE_RECEIVER_ADDR", _))
    ));
    let mut cfg = full_config();
    cfg.eth_fee_withdraw_threshold_wei = None;
    assert!(matches!(
        validate_config(&cfg),
        Err(AppError::BadEnv("ETH_FEE_WITHDRAW_THRESHOLD_WEI", _))
    ));
}

#[test]
fn policy_carries_the_parameters_over() {
    let p = ActionPolicy::from_config(&full_config()).unwrap();
    assert!(p.reward_enabled);
    match p.transfer_bond {
        TransferBondPolicy::Enabled {
            receiver,
            min_retain,
        } => {
            assert_eq!(receiver, Address::new(1, 2));
            assert_eq!(min_retain, Uint256::from_u64(5));
        }
        TransferBondPolicy::Disabled => panic!("transfer should be enabled"),
    }
    match p.withdraw_fees {
        WithdrawFeesPolicy::Enabled {
            receiver,
            threshold,
        } => {
            assert_eq!(receiver, Address::new(3, 4));
            assert_eq!(threshold, Uint256::from_u64(6));
        }
        WithdrawFeesPolicy::Disabled => panic!("withdrawal should be enabled"),
    }
}

#[test]
fn invalid_config_yields_no_policy() {
    let mut cfg = full_config();
    cfg.eth_fee_receiver_addr = None;
    assert!(ActionPolicy::from_config(&cfg).is_err());
}

fn empty_env() -> EnvValues {
    EnvValues {
        enable_reward: None,
        enable_transfer_bond: None,
        enable_withdraw_fees: None,
        loop_sleep_secs: None,
        receipt_timeout_secs: None,
        lpt_receiver_addr: None,
        lpt_min_retain_wei: None,
        eth_fee_receiver_addr: None,
        eth_fee_withdraw_threshold_wei: None,
    }
}

fn full_env() -> EnvValues {
    EnvValues {
        enable_reward: None,
        enable_transfer_bond: None,
        enable_withdraw_fees: None,
        loop_sleep_secs: Some(b"12".to_vec()),
        receipt_timeout_secs: Some(b"45".to_vec()),
        lpt_receiver_addr: Some(b"0x00000000000000000000000000000000000000aa".to_vec()),
        lpt_min_retain_wei: Some(b"1000000000000000000".to_vec()),
        eth_fee_receiver_addr: Some(b"0x00000000000000000000000000000000000000bb".to_vec()),
        eth_fee_withdraw_threshold_wei: Some(b"30000000000000000".to_vec()),
    }
}

#[test]
fn loading_applies_defaults_and_values() {
    let cfg = load_config(&full_env()).unwrap();
    // Actions default to enabled when their flags are absent.
    assert!(cfg.enable_reward && cfg.enable_transfer_bond && cfg.enable_withdraw_fees);
    assert_eq!(cfg.loop_sleep_secs, 12);
    assert_eq!(cfg.receipt_timeout_secs, 45);
    assert_eq!(cfg.lpt_receiver_addr, Some(Address::new(0, 0xaa)));
    assert_eq!(
        cfg.lpt_min_retain_wei,
        Some(Uint256::from_u64(1_000_000_000_000_000_000))
    );
    assert_eq!(cfg.eth_fee_receiver_addr, Some(Address::new(0, 0xbb)));
    assert_eq!(
        cfg.eth_fee_withdraw_threshold_wei,
        Some(Uint256::from_u64(30_000_000_000_000_000))
    );
    assert!(validate_config(&cfg).is_ok());
}

#[test]
fn loading_defaults_timing_when_absent() {
    let mut env = full_env();
    env.loop_sleep_secs = None;
    env.receipt_timeout_secs = None;
    let cfg = load_config(&env).unwrap();
    assert_eq!(cfg.loop_sleep_secs, 6);
    assert_eq!(cfg.receipt_timeout_secs, 90);
}

#[test]
fn disabling_an_action_skips_its_parameters() {
    let mut env = empty_env();
    env.enable_transfer_bond = Some(b"false".to_vec());
    env.enable_withdraw_fees = Some(b"off".to_vec());
    let cfg = load_config(&env).unwrap();
    assert!(!cfg.enable_transfer_bond && !cfg.enable_withdraw_fees);
    assert_eq!(cfg.lpt_receiver_addr, None);
    assert_eq!(cfg.eth_fee_withdraw_threshold_wei, None);
}

#[test]
fn loading_demands_parameters_of_enabled_actions() {
    let mut env = empty_env();
    env.enable_withdraw_fees = Some(b"false".to_vec());
    // Transfer stays enabled by default but has no receiver.
    assert!(matches!(
        load_config(&env),
        Err(AppError::MissingEnv("LPT_RECEIVER_ADDR"))
    ));
}

#[test]
fn loading_rejects_malformed_values() {
    let mut env = full_env();
    env.enable_reward = Some(b"perhaps".to_vec());
    assert!(matches!(
        load_config(&env),
        Err(AppError::BadEnv("ENABLE_REWARD", _))
    ));
    let mut env = full_env();
    env.lpt_min_retain_wei = Some(b"one".to_vec());
    assert!(matches!(
        load_config(&env),
        Err(AppError::BadEnv("LPT_MIN_RETAIN_WEI", _))
    ));
}
