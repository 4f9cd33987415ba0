//! The error taxonomy of the scheduler.
//!
//! Configuration errors are fatal before the loop starts; every other
//! variant is recoverable and only costs the affected part of one
//! cycle. The library itself never panics: each variant is produced as
//! an ordinary value and handed to the caller to log.

use vstd::prelude::*;

verus! {

#[derive(Clone, Debug)]
pub enum AppError {
    /// A required environment value was absent.
    MissingEnv(&'static str),
    /// An environment value was present but malformed, with a note
    /// saying what was expected.
    BadEnv(&'static str, String),
    /// The transport provider could not be set up.
    Provider(String),
    /// The signing identity could not be loaded.
    Wallet(String),
    /// A read-only contract call failed.
    Contract(String),
    /// A transaction submission or its receipt wait failed.
    Tx(String),
}

} // verus!
