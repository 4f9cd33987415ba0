//! Round-gated action scheduler for a staking protocol account.
//!
//! The library holds the decision core of an unattended agent that watches
//! the state of a staking round and conditionally submits three financial
//! operations (claim reward, transfer excess stake, withdraw accumulated
//! fees). Everything here is pure logic over plain values: the decision
//! rules, the round-state tracker, the transaction lifecycle classifier,
//! the scheduler's cycle bookkeeping, and the parsing and validation of
//! the configuration values. The surrounding process (RPC transport,
//! signing, environment access, logging) drives this library from outside
//! and performs every effectful step itself.

pub mod config;
pub mod decision;
pub mod error;
pub mod ids;
pub mod lifecycle;
pub mod parse;
pub mod round;
pub mod scheduler;
pub mod uint256;
