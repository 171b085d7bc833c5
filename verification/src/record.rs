use vstd::prelude::*;

verus! {

/// The largest score a record may hold.
pub const MAX_SCORE: u32 = 1000;

/// What is kept for one identity: its score and the ledger time of the write
/// that set it.
#[derive(Clone, Copy, Debug, PartialEq, Eq, Structural)]
pub struct ReputationData {
    pub score: u32,
    pub timestamp: u64,
}

/// The score that is stored for a requested score: the request itself up to
/// `MAX_SCORE`, and `MAX_SCORE` for anything above.
pub open spec fn clamped(score: u32) -> u32 {
    if score <= MAX_SCORE {
        score
    } else {
        MAX_SCORE
    }
}

/// The record that a write of `score` at ledger time `now` installs.
pub open spec fn record_for(score: u32, now: u64) -> ReputationData {
    ReputationData { score: clamped(score), timestamp: now }
}

/// Caps a requested score at `MAX_SCORE`.
pub fn clamp_score(score: u32) -> (r: u32)
    ensures
        r == clamped(score),
        r <= MAX_SCORE,
{
    if score <= MAX_SCORE {
        score
    } else {
        MAX_SCORE
    }
}

/// Builds the record for a write of `score` at ledger time `now`.
pub fn stamped_record(score: u32, now: u64) -> (r: ReputationData)
    ensures
        r == record_for(score, now),
{
    ReputationData { score: clamp_score(score), timestamp: now }
}

} // verus!
