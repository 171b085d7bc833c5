use vstd::prelude::*;
use crate::host::{identity, Table};
use crate::table::{
    after_set,
    or_empty,
    persisted,
    record_in,
    score_and_time_of,
    score_of,
    scores_bounded,
    write_record,
};

verus! {

/// The administrator did not approve the invocation.
#[derive(Clone, Copy, Debug, PartialEq, Eq, Structural)]
pub struct AuthorizationError;

/// The reputation store of a contract: one table from identities to
/// records, kept whole in one slot of the contract's instance storage.
///
/// The operations work on the slot's content in hand. Their caller reads
/// the slot before the call and, after a write that went through, puts the
/// slot's new content back; it also asks the authorization oracle whether
/// the administrator approved the invocation, and reads the ledger time.
pub struct StellaRepContract;

/// The key of the slot that holds the table.
pub fn table_key() -> (key: &'static str)
    ensures
        key@ == "reputation"@,
{
    "reputation"
}

impl StellaRepContract {
    /// Sets the reputation of `user_address` to `score`, capped at the
    /// largest score and stamped with the ledger time `now`.
    ///
    /// `approved` is the oracle's answer on whether the administrator
    /// approved this invocation. With it, the slot afterwards holds the
    /// table with the new record in place of any record `user_address` had.
    /// Without it the error is returned and the slot is left exactly as it
    /// was, whatever it held.
    pub fn set_reputation(
        env: &soroban_sdk::Env,
        approved: bool,
        slot: &mut Option<Table>,
        user_address: &soroban_sdk::Address,
        score: u32,
        now: u64,
    ) -> (done: Result<(), AuthorizationError>)
        ensures
            done == (if approved {
                Ok::<(), AuthorizationError>(())
            } else {
                Err::<(), AuthorizationError>(AuthorizationError)
            }),
            persisted(*final(slot)) == after_set(
                approved,
                persisted(*old(slot)),
                identity(*user_address),
                score,
                now,
            ),
            approved ==> (*final(slot)) is Some,
            !approved ==> *final(slot) == *old(slot),
            scores_bounded(persisted(*old(slot))) ==> scores_bounded(persisted(*final(slot))),
    {
        if !approved {
            return Err(AuthorizationError);
        }
        let mut table = or_empty(env, slot.take());
        write_record(&mut table, user_address, score, now);
        *slot = Some(table);
        Ok(())
    }

    /// The score of `user_address`: the recorded one, and 0 where the slot
    /// is empty or holds no record of `user_address`.
    pub fn get_reputation(
        slot: &Option<Table>,
        user_address: &soroban_sdk::Address,
    ) -> (score: u32)
        ensures
            score == score_of(persisted(*slot), identity(*user_address)),
    {
        match record_in(slot, user_address) {
            Some(record) => record.score,
            None => 0,
        }
    }

    /// The score of `user_address` with the ledger time of the write that set
    /// it; `None` where the slot is empty or holds no record of
    /// `user_address`.
    pub fn get_reputation_with_timestamp(
        slot: &Option<Table>,
        user_address: &soroban_sdk::Address,
    ) -> (found: Option<(u32, u64)>)
        ensures
            found == score_and_time_of(persisted(*slot), identity(*user_address)),
    {
        match record_in(slot, user_address) {
            Some(record) => Some((record.score, record.timestamp)),
            None => None,
        }
    }
}

} // verus!
