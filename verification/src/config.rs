//! Configuration of the three actions and of the loop timing.
//!
//! A [`Config`] is the flat flag/threshold set assembled from the
//! environment. It is cross-validated once at startup: an enabled
//! action must come with its parameters, and a failed validation is
//! fatal before the loop begins. The validated form is an
//! [`ActionPolicy`], a tagged variant per action, so that the decision
//! rules can assume presence instead of re-checking options.

use crate::error::AppError;
use crate::ids::Address;
use crate::parse::{
    addr_token_ok, bool_token, dec_val, hex_val, must_parse_env_addr, must_parse_env_u256,
    opt_bytes, parse_env_bool_opt, parse_env_u64_opt, strip_0x, strip_plus, u256_token_ok,
    u64_token_ok,
};
use crate::uint256::Uint256;
use vstd::prelude::*;

verus! {

/// The recognized options, before cross-validation.
#[derive(Clone, Copy, Debug)]
pub struct Config {
    /// Whether the reward claim is performed at all.
    pub enable_reward: bool,
    /// Whether excess stake is transferred away.
    pub enable_transfer_bond: bool,
    pub lpt_receiver_addr: Option<Address>,
    pub lpt_min_retain_wei: Option<Uint256>,
    /// Whether accumulated fees are withdrawn.
    pub enable_withdraw_fees: bool,
    pub eth_fee_receiver_addr: Option<Address>,
    pub eth_fee_withdraw_threshold_wei: Option<Uint256>,
    /// Seconds slept between cycles.
    pub loop_sleep_secs: u64,
    /// Seconds granted to each transaction receipt wait.
    pub receipt_timeout_secs: u64,
}

impl Config {
    /// Every enabled action has the parameters it requires.
    pub open spec fn valid(self) -> bool {
        &&& self.enable_transfer_bond ==> self.lpt_receiver_addr is Some
            && self.lpt_min_retain_wei is Some
        &&& self.enable_withdraw_fees ==> self.eth_fee_receiver_addr is Some
            && self.eth_fee_withdraw_threshold_wei is Some
    }
}

/// Checks that each enabled action has its required parameters.
///
/// The checks run in a fixed order and the first missing parameter is
/// reported, so the error names exactly one environment key.
pub fn validate_config(cfg: &Config) -> (r: Result<(), AppError>)
    ensures
        r is Ok <==> cfg.valid(),
        cfg.enable_transfer_bond && cfg.lpt_receiver_addr is None ==> ({
            &&& r matches Err(AppError::BadEnv(k, _))
            &&& k@ == "LPT_RECEIVER_ADDR"@
        }),
        cfg.enable_transfer_bond && cfg.lpt_receiver_addr is Some && cfg.lpt_min_retain_wei is None
            ==> ({
            &&& r matches Err(AppError::BadEnv(k, _))
            &&& k@ == "LPT_MIN_RETAIN_WEI"@
        }),
        (cfg.enable_transfer_bond ==> cfg.lpt_receiver_addr is Some && cfg.lpt_min_retain_wei
            is Some) && cfg.enable_withdraw_fees && cfg.eth_fee_receiver_addr is None ==> ({
            &&& r matches Err(AppError::BadEnv(k, _))
            &&& k@ == "ETH_FEE_RECEIVER_ADDR"@
        }),
        (cfg.enable_transfer_bond ==> cfg.lpt_receiver_addr is Some && cfg.lpt_min_retain_wei
            is Some) && cfg.enable_withdraw_fees && cfg.eth_fee_receiver_addr is Some
            && cfg.eth_fee_withdraw_threshold_wei is None ==> ({
            &&& r matches Err(AppError::BadEnv(k, _))
            &&& k@ == "ETH_FEE_WITHDRAW_THRESHOLD_WEI"@
        }),
{
    if cfg.enable_transfer_bond {
        if cfg.lpt_receiver_addr.is_none() {
            return Err(
                AppError::BadEnv(
                    "LPT_RECEIVER_ADDR",
                    "required when ENABLE_TRANSFER_BOND=true".to_owned(),
                ),
            );
        }
        if cfg.lpt_min_retain_wei.is_none() {
            return Err(
                AppError::BadEnv(
                    "LPT_MIN_RETAIN_WEI",
                    "required when ENABLE_TRANSFER_BOND=true".to_owned(),
                ),
            );
        }
    }
    if cfg.enable_withdraw_fees {
        if cfg.eth_fee_receiver_addr.is_none() {
            return Err(
                AppError::BadEnv(
                    "ETH_FEE_RECEIVER_ADDR",
                    "required when ENABLE_WITHDRAW_FEES=true".to_owned(),
                ),
            );
        }
        if cfg.eth_fee_withdraw_threshold_wei.is_none() {
            return Err(
                AppError::BadEnv(
                    "ETH_FEE_WITHDRAW_THRESHOLD_WEI",
                    "required when ENABLE_WITHDRAW_FEES=true".to_owned(),
                ),
            );
        }
    }
    Ok(())
}

/// The raw environment values the configuration is assembled from:
/// for each recognized variable, its bytes, or nothing when the
/// variable is absent.
#[derive(Clone, Debug)]
pub struct EnvValues {
    pub enable_reward: Option<Vec<u8>>,
    pub enable_transfer_bond: Option<Vec<u8>>,
    pub enable_withdraw_fees: Option<Vec<u8>>,
    pub loop_sleep_secs: Option<Vec<u8>>,
    pub receipt_timeout_secs: Option<Vec<u8>>,
    pub lpt_receiver_addr: Option<Vec<u8>>,
    pub lpt_min_retain_wei: Option<Vec<u8>>,
    pub eth_fee_receiver_addr: Option<Vec<u8>>,
    pub eth_fee_withdraw_threshold_wei: Option<Vec<u8>>,
}

/// An optional flag either is absent or holds a boolean word.
pub open spec fn env_bool_ok(o: Option<Vec<u8>>) -> bool {
    o matches Some(v) ==> bool_token(v@) is Some
}

/// The flag's value, with absence meaning `default`.
pub open spec fn env_bool_val(o: Option<Vec<u8>>, default: bool) -> bool {
    match o {
        None => default,
        Some(v) => bool_token(v@) == Some(true),
    }
}

/// An optional number either is absent or holds a decimal that fits.
pub open spec fn env_u64_ok(o: Option<Vec<u8>>) -> bool {
    o matches Some(v) ==> u64_token_ok(v@)
}

/// The number's value, with absence meaning `default`.
pub open spec fn env_u64_val(o: Option<Vec<u8>>, default: u64) -> nat {
    match o {
        None => default as nat,
        Some(v) => dec_val(strip_plus(v@)),
    }
}

/// A required address is present and holds an address token.
pub open spec fn env_addr_req_ok(o: Option<Vec<u8>>) -> bool {
    o matches Some(v) && addr_token_ok(v@)
}

pub open spec fn env_addr_val(o: Option<Vec<u8>>) -> nat
    recommends
        o is Some,
{
    hex_val(strip_0x(o->0@))
}

/// A required amount is present and holds a 256-bit decimal.
pub open spec fn env_u256_req_ok(o: Option<Vec<u8>>) -> bool {
    o matches Some(v) && u256_token_ok(v@)
}

pub open spec fn env_u256_val(o: Option<Vec<u8>>) -> nat
    recommends
        o is Some,
{
    dec_val(o->0@)
}

/// Everything `load_config` demands of the environment: well-formed
/// flags and timings, and, for each action left (or defaulted to)
/// enabled, its well-formed parameters.
pub open spec fn env_loadable(env: EnvValues) -> bool {
    &&& env_bool_ok(env.enable_reward)
    &&& env_bool_ok(env.enable_transfer_bond)
    &&& env_bool_ok(env.enable_withdraw_fees)
    &&& env_u64_ok(env.loop_sleep_secs)
    &&& env_u64_ok(env.receipt_timeout_secs)
    &&& env_bool_val(env.enable_transfer_bond, true) ==> env_addr_req_ok(env.lpt_receiver_addr)
        && env_u256_req_ok(env.lpt_min_retain_wei)
    &&& env_bool_val(env.enable_withdraw_fees, true) ==> env_addr_req_ok(env.eth_fee_receiver_addr)
        && env_u256_req_ok(env.eth_fee_withdraw_threshold_wei)
}

/// Assembles the configuration from the environment values.
///
/// Every action defaults to enabled; the loop interval defaults to 6
/// seconds and the receipt timeout to 90. The parameters of a
/// disabled action are not read at all. Succeeds exactly on loadable
/// environments, and every reported error blames one variable.
pub fn load_config(env: &EnvValues) -> (r: Result<Config, AppError>)
    ensures
        r is Ok <==> env_loadable(*env),
        r matches Ok(c) ==> ({
            &&& c.enable_reward == env_bool_val(env.enable_reward, true)
            &&& c.enable_transfer_bond == env_bool_val(env.enable_transfer_bond, true)
            &&& c.enable_withdraw_fees == env_bool_val(env.enable_withdraw_fees, true)
            &&& c.loop_sleep_secs == env_u64_val(env.loop_sleep_secs, 6)
            &&& c.receipt_timeout_secs == env_u64_val(env.receipt_timeout_secs, 90)
            &&& c.enable_transfer_bond ==> ({
                &&& c.lpt_receiver_addr matches Some(a) && a.as_nat() == env_addr_val(
                    env.lpt_receiver_addr,
                )
                &&& c.lpt_min_retain_wei matches Some(m) && m.as_nat() == env_u256_val(
                    env.lpt_min_retain_wei,
                )
            })
            &&& !c.enable_transfer_bond ==> c.lpt_receiver_addr is None && c.lpt_min_retain_wei
                is None
            &&& c.enable_withdraw_fees ==> ({
                &&& c.eth_fee_receiver_addr matches Some(a) && a.as_nat() == env_addr_val(
                    env.eth_fee_receiver_addr,
                )
                &&& c.eth_fee_withdraw_threshold_wei matches Some(t) && t.as_nat() == env_u256_val(
                    env.eth_fee_withdraw_threshold_wei,
                )
            })
            &&& !c.enable_withdraw_fees ==> c.eth_fee_receiver_addr is None
                && c.eth_fee_withdraw_threshold_wei is None
            &&& c.valid()
        }),
        r matches Err(e) ==> e matches AppError::BadEnv(_, _) || e matches AppError::MissingEnv(_),
{
    let enable_reward = match parse_env_bool_opt("ENABLE_REWARD", opt_bytes(&env.enable_reward))? {
        Some(b) => b,
        None => true,
    };
    let enable_transfer_bond = match parse_env_bool_opt(
        "ENABLE_TRANSFER_BOND",
        opt_bytes(&env.enable_transfer_bond),
    )? {
        Some(b) => b,
        None => true,
    };
    let enable_withdraw_fees = match parse_env_bool_opt(
        "ENABLE_WITHDRAW_FEES",
        opt_bytes(&env.enable_withdraw_fees),
    )? {
        Some(b) => b,
        None => true,
    };
    let loop_sleep_secs = match parse_env_u64_opt(
        "LOOP_SLEEP_SECS",
        opt_bytes(&env.loop_sleep_secs),
    )? {
        Some(v) => v,
        None => 6,
    };
    let receipt_timeout_secs = match parse_env_u64_opt(
        "RECEIPT_TIMEOUT_SECS",
        opt_bytes(&env.receipt_timeout_secs),
    )? {
        Some(v) => v,
        None => 90,
    };
    let (lpt_receiver_addr, lpt_min_retain_wei) = if enable_transfer_bond {
        (
            Some(must_parse_env_addr("LPT_RECEIVER_ADDR", opt_bytes(&env.lpt_receiver_addr))?),
            Some(must_parse_env_u256("LPT_MIN_RETAIN_WEI", opt_bytes(&env.lpt_min_retain_wei))?),
        )
    } else {
        (None, None)
    };
    let (eth_fee_receiver_addr, eth_fee_withdraw_threshold_wei) = if enable_withdraw_fees {
        (
            Some(
                must_parse_env_addr(
                    "ETH_FEE_RECEIVER_ADDR",
                    opt_bytes(&env.eth_fee_receiver_addr),
                )?,
            ),
            Some(
                must_parse_env_u256(
                    "ETH_FEE_WITHDRAW_THRESHOLD_WEI",
                    opt_bytes(&env.eth_fee_withdraw_threshold_wei),
                )?,
            ),
        )
    } else {
        (None, None)
    };
    Ok(
        Config {
            enable_reward,
            enable_transfer_bond,
            lpt_receiver_addr,
            lpt_min_retain_wei,
            enable_withdraw_fees,
            eth_fee_receiver_addr,
            eth_fee_withdraw_threshold_wei,
            loop_sleep_secs,
            receipt_timeout_secs,
        },
    )
}

/// The bond-transfer action, validated: disabled, or enabled with its
/// receiver and the minimum stake to retain.
#[derive(Clone, Copy, Debug)]
pub enum TransferBondPolicy {
    Disabled,
    Enabled { receiver: Address, min_retain: Uint256 },
}

/// The fee-withdrawal action, validated: disabled, or enabled with its
/// receiver and the withdrawal threshold.
#[derive(Clone, Copy, Debug)]
pub enum WithdrawFeesPolicy {
    Disabled,
    Enabled { receiver: Address, threshold: Uint256 },
}

/// The validated configuration the scheduler runs on.
#[derive(Clone, Copy, Debug)]
pub struct ActionPolicy {
    pub reward_enabled: bool,
    pub transfer_bond: TransferBondPolicy,
    pub withdraw_fees: WithdrawFeesPolicy,
    pub loop_sleep_secs: u64,
    pub receipt_timeout_secs: u64,
}

impl ActionPolicy {
    /// Validates a configuration into the tagged per-action form.
    ///
    /// Succeeds exactly on valid configurations and carries every
    /// parameter over unchanged.
    pub fn from_config(cfg: &Config) -> (r: Result<ActionPolicy, AppError>)
        ensures
            r is Ok <==> cfg.valid(),
            r matches Ok(p) ==> {
                &&& p.reward_enabled == cfg.enable_reward
                &&& p.loop_sleep_secs == cfg.loop_sleep_secs
                &&& p.receipt_timeout_secs == cfg.receipt_timeout_secs
                &&& cfg.enable_transfer_bond ==> ({
                    &&& p.transfer_bond matches TransferBondPolicy::Enabled { receiver, min_retain }
                    &&& Some(receiver) == cfg.lpt_receiver_addr
                    &&& Some(min_retain) == cfg.lpt_min_retain_wei
                })
                &&& !cfg.enable_transfer_bond ==> p.transfer_bond is Disabled
                &&& cfg.enable_withdraw_fees ==> ({
                    &&& p.withdraw_fees matches WithdrawFeesPolicy::Enabled { receiver, threshold }
                    &&& Some(receiver) == cfg.eth_fee_receiver_addr
                    &&& Some(threshold) == cfg.eth_fee_withdraw_threshold_wei
                })
                &&& !cfg.enable_withdraw_fees ==> p.withdraw_fees is Disabled
            },
            r matches Err(e) ==> e matches AppError::BadEnv(_, _),
    {
        validate_config(cfg)?;
        let transfer_bond = if cfg.enable_transfer_bond {
            match (cfg.lpt_receiver_addr, cfg.lpt_min_retain_wei) {
                (Some(receiver), Some(min_retain)) => TransferBondPolicy::Enabled {
                    receiver,
                    min_retain,
                },
                _ => {
                    return Err(
                        AppError::BadEnv(
                            "LPT_RECEIVER_ADDR",
                            "required when ENABLE_TRANSFER_BOND=true".to_owned(),
                        ),
                    );
                },
            }
        } else {
            TransferBondPolicy::Disabled
        };
        let withdraw_fees = if cfg.enable_withdraw_fees {
            match (cfg.eth_fee_receiver_addr, cfg.eth_fee_withdraw_threshold_wei) {
                (Some(receiver), Some(threshold)) => WithdrawFeesPolicy::Enabled {
                    receiver,
                    threshold,
                },
                _ => {
                    return Err(
                        AppError::BadEnv(
                            "ETH_FEE_RECEIVER_ADDR",
                            "required when ENABLE_WITHDRAW_FEES=true".to_owned(),
                        ),
                    );
                },
            }
        } else {
            WithdrawFeesPolicy::Disabled
        };
        Ok(
            ActionPolicy {
                reward_enabled: cfg.enable_reward,
                transfer_bond,
                withdraw_fees,
                loop_sleep_secs: cfg.loop_sleep_secs,
                receipt_timeout_secs: cfg.receipt_timeout_secs,
            },
        )
    }
}

} // verus!
