//! Round state and the round-state tracker.
//!
//! Each poll cycle produces a fresh [`RoundSnapshot`]. The tracker
//! compares it with the previous cycle's snapshot, and the comparison
//! only chooses a reporting verbosity: action gating always reads the
//! live snapshot, never the transition flag, so a restart with no
//! previous snapshot re-evaluates every rule from scratch.

use crate::uint256::Uint256;
use vstd::prelude::*;

verus! {

/// What the round oracle reported for one poll cycle.
#[derive(Clone, Copy, Debug, PartialEq, Eq, Structural)]
pub struct RoundSnapshot {
    /// Monotonically increasing round identifier.
    pub round: Uint256,
    /// Whether the current round has been initialized.
    pub initialized: bool,
    /// Whether the current round is locked, i.e. its accounting is
    /// finalized and safe to act upon.
    pub locked: bool,
}

/// The tracker's classification of one cycle against the previous one.
#[derive(Clone, Copy, Debug, PartialEq, Eq, Structural)]
pub struct Transition {
    /// True when the snapshot differs from the previous cycle's, or
    /// when there is no previous cycle to compare against.
    pub changed: bool,
}

/// Compares the fresh snapshot with the previously observed one.
///
/// A missing previous snapshot counts as a change: the first cycle
/// after a restart reports at the material-event verbosity.
pub fn observe(current: &RoundSnapshot, previous: &Option<RoundSnapshot>) -> (t: Transition)
    ensures
        t.changed == match *previous {
            Some(p) => p != *current,
            None => true,
        },
{
    let changed = match previous {
        Some(p) => !(*p == *current),
        None => true,
    };
    Transition { changed }
}

/// The amounts seen during one locked-round evaluation, memorized only
/// to keep informational reporting quiet while nothing changes. The
/// memo never drives a decision.
#[derive(Clone, Copy, Debug, PartialEq, Eq, Structural)]
pub struct LockedSnapshot {
    pub round: Uint256,
    pub pending_stake: Uint256,
    pub pending_fees: Uint256,
    /// Whether `pending_stake` was actually read this cycle.
    pub stake_present: bool,
    /// Whether `pending_fees` was actually read this cycle.
    pub fees_present: bool,
}

/// Overwrites the memo with this cycle's locked-round amounts and says
/// whether they deserve a report: they do exactly when they differ from
/// what the previous cycle memorized.
pub fn note_locked_snapshot(memo: &mut Option<LockedSnapshot>, snap: &LockedSnapshot) -> (report:
    bool)
    ensures
        report == match *old(memo) {
            Some(m) => m != *snap,
            None => true,
        },
        *final(memo) == Some(*snap),
{
    let report = match memo {
        Some(m) => !(*m == *snap),
        None => true,
    };
    *memo = Some(*snap);
    report
}

} // verus!
