use vstd::prelude::*;
use crate::record::{clamped, ReputationData, MAX_SCORE};
use crate::table::{after_set, score_and_time_of, score_of, scores_bounded};

verus! {

/// A score within the limit that was written for an identity is read back
/// as it was written, together with the ledger time of the write.
pub proof fn written_score_is_read_back(
    records: Map<Seq<u8>, ReputationData>,
    who: Seq<u8>,
    score: u32,
    now: u64,
)
    requires
        score <= MAX_SCORE,
    ensures
        score_of(after_set(true, records, who, score, now), who) == score,
        score_and_time_of(after_set(true, records, who, score, now), who) == Some((score, now)),
{
}

/// A score above the limit that was written for an identity is read back as
/// the limit.
pub proof fn excess_score_is_read_back_as_limit(
    records: Map<Seq<u8>, ReputationData>,
    who: Seq<u8>,
    score: u32,
    now: u64,
)
    requires
        score > MAX_SCORE,
    ensures
        score_of(after_set(true, records, who, score, now), who) == MAX_SCORE,
        score_and_time_of(after_set(true, records, who, score, now), who) == Some(
            (MAX_SCORE, now),
        ),
{
}

/// An identity without a record reads as score 0 and as no record at all.
pub proof fn unwritten_identity_reads_as_nothing(
    records: Map<Seq<u8>, ReputationData>,
    who: Seq<u8>,
)
    requires
        !records.contains_key(who),
    ensures
        score_of(records, who) == 0,
        score_and_time_of(records, who).is_none(),
{
}

/// Before anything was written, every identity reads as score 0 and as no
/// record at all.
pub proof fn empty_table_reads_as_nothing(who: Seq<u8>)
    ensures
        score_of(Map::empty(), who) == 0,
        score_and_time_of(Map::empty(), who).is_none(),
{
}

/// A write without the administrator's approval changes no record, that of
/// its target included.
pub proof fn unapproved_write_changes_nothing(
    records: Map<Seq<u8>, ReputationData>,
    who: Seq<u8>,
    score: u32,
    now: u64,
)
    ensures
        after_set(false, records, who, score, now) == records,
        score_of(after_set(false, records, who, score, now), who) == score_of(records, who),
        score_and_time_of(after_set(false, records, who, score, now), who) == score_and_time_of(
            records,
            who,
        ),
{
}

/// Of two writes for one identity only the later one is kept: the table is
/// the one that the later write alone would have left, and the identity
/// reads as the later score and time, with nothing of the earlier record.
pub proof fn later_write_replaces_earlier(
    records: Map<Seq<u8>, ReputationData>,
    who: Seq<u8>,
    first_score: u32,
    first_time: u64,
    second_score: u32,
    second_time: u64,
)
    ensures
        after_set(
            true,
            after_set(true, records, who, first_score, first_time),
            who,
            second_score,
            second_time,
        ) == after_set(true, records, who, second_score, second_time),
        score_and_time_of(
            after_set(
                true,
                after_set(true, records, who, first_score, first_time),
                who,
                second_score,
                second_time,
            ),
            who,
        ) == Some((clamped(second_score), second_time)),
{
    let once = after_set(true, records, who, second_score, second_time);
    let twice = after_set(
        true,
        after_set(true, records, who, first_score, first_time),
        who,
        second_score,
        second_time,
    );
    assert(twice =~= once);
}

/// A write for one identity leaves the record of every other identity as it
/// was: present or absent as before, and unchanged where present.
pub proof fn write_leaves_others_untouched(
    records: Map<Seq<u8>, ReputationData>,
    written: Seq<u8>,
    other: Seq<u8>,
    score: u32,
    now: u64,
)
    requires
        other != written,
    ensures
        after_set(true, records, written, score, now).contains_key(other) == records.contains_key(
            other,
        ),
        records.contains_key(other) ==> after_set(true, records, written, score, now)[other]
            == records[other],
        score_of(after_set(true, records, written, score, now), other) == score_of(records, other),
        score_and_time_of(after_set(true, records, written, score, now), other)
            == score_and_time_of(records, other),
{
}

/// No score above the limit is ever stored: an empty table holds none, and
/// a call to set a reputation, approved or not, keeps it so.
pub proof fn stored_scores_stay_within_limit(
    approved: bool,
    records: Map<Seq<u8>, ReputationData>,
    who: Seq<u8>,
    score: u32,
    now: u64,
)
    requires
        scores_bounded(records),
    ensures
        scores_bounded(Map::empty()),
        scores_bounded(after_set(approved, records, who, score, now)),
{
}

/// Where no score above the limit is stored, none is read.
pub proof fn read_scores_stay_within_limit(records: Map<Seq<u8>, ReputationData>, who: Seq<u8>)
    requires
        scores_bounded(records),
    ensures
        score_of(records, who) <= MAX_SCORE,
        score_and_time_of(records, who) matches Some(found) ==> found.0 <= MAX_SCORE,
{
}

} // verus!
