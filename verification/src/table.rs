use vstd::prelude::*;
use crate::host::{entries, identity, table_get, table_new, table_set, Table};
use crate::record::{record_for, stamped_record, ReputationData, MAX_SCORE};

verus! {

/// The records of the persisted slot: those of the table found there, and
/// none where nothing was persisted yet.
pub open spec fn persisted(slot: Option<Table>) -> Map<Seq<u8>, ReputationData> {
    match slot {
        Some(table) => entries(table),
        None => Map::empty(),
    }
}

/// The records after a write for `who`: the new record stands in place of
/// whatever `who` had, and nobody else's record is touched.
pub open spec fn after_write(
    records: Map<Seq<u8>, ReputationData>,
    who: Seq<u8>,
    score: u32,
    now: u64,
) -> Map<Seq<u8>, ReputationData> {
    records.insert(who, record_for(score, now))
}

/// The records that a call to set a reputation leaves behind: those after
/// the write where the administrator approved it, and the records as they
/// were where the approval is missing.
pub open spec fn after_set(
    approved: bool,
    records: Map<Seq<u8>, ReputationData>,
    who: Seq<u8>,
    score: u32,
    now: u64,
) -> Map<Seq<u8>, ReputationData> {
    if approved {
        after_write(records, who, score, now)
    } else {
        records
    }
}

/// The score that is reported for `who`: the recorded one, and 0 where `who`
/// has no record.
pub open spec fn score_of(records: Map<Seq<u8>, ReputationData>, who: Seq<u8>) -> u32 {
    if records.contains_key(who) {
        records[who].score
    } else {
        0
    }
}

/// The score of `who` with the time of the write that set it, or `None`
/// where `who` has no record.
pub open spec fn score_and_time_of(records: Map<Seq<u8>, ReputationData>, who: Seq<u8>) -> Option<
    (u32, u64),
> {
    if records.contains_key(who) {
        Some((records[who].score, records[who].timestamp))
    } else {
        None
    }
}

/// No record holds a score above `MAX_SCORE`.
pub open spec fn scores_bounded(records: Map<Seq<u8>, ReputationData>) -> bool {
    forall|who: Seq<u8>| #[trigger] records.contains_key(who) ==> records[who].score <= MAX_SCORE
}

/// The table to work on: the persisted one, or an empty one where nothing was
/// persisted yet.
pub fn or_empty(env: &soroban_sdk::Env, slot: Option<Table>) -> (table: Table)
    ensures
        entries(table) == persisted(slot),
        slot matches Some(kept) ==> table == kept,
{
    match slot {
        Some(table) => table,
        None => table_new(env),
    }
}

/// Writes the record for `score` at ledger time `now` under `who`, in place of
/// any record `who` had.
pub fn write_record(table: &mut Table, who: &soroban_sdk::Address, score: u32, now: u64)
    ensures
        entries(*final(table)) == after_write(entries(*old(table)), identity(*who), score, now),
        scores_bounded(entries(*old(table))) ==> scores_bounded(entries(*final(table))),
{
    let record = stamped_record(score, now);
    table_set(table, who, record);
}

/// The record of `who` in the persisted slot, if there is one.
pub fn record_in(slot: &Option<Table>, who: &soroban_sdk::Address) -> (found: Option<
    ReputationData,
>)
    ensures
        found == (if persisted(*slot).contains_key(identity(*who)) {
            Some(persisted(*slot)[identity(*who)])
        } else {
            None
        }),
{
    match slot {
        Some(table) => table_get(table, who),
        None => None,
    }
}

} // verus!
