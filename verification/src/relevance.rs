//! Which outage currently matters: the first record, in document order, that
//! neither began nor ended more than a day before now.

use crate::record::records_view;
use crate::record::OutageRecord;
use crate::record::RecordView;
use crate::time::CivilTime;
use crate::time::DAY_SECONDS;
use vstd::prelude::*;

verus! {

/// The moment from which on an outage still counts: one day before `now`.
pub open spec fn baseline(now: int) -> int {
    now - DAY_SECONDS
}

/// Whether `record` counts at `now`: it neither begins nor ends before the
/// baseline.
pub open spec fn is_relevant(record: RecordView, now: int) -> bool {
    record.start >= baseline(now) && record.end >= baseline(now)
}

/// Whether `records[at]` counts at `now` and no record before it does.
pub open spec fn is_first_relevant(records: Seq<RecordView>, now: int, at: int) -> bool {
    &&& 0 <= at < records.len()
    &&& is_relevant(records[at], now)
    &&& forall|before: int| 0 <= before < at ==> !is_relevant(#[trigger] records[before], now)
}

/// The position of the first record that counts at `now`, if any does.
pub open spec fn first_relevant(records: Seq<RecordView>, now: int) -> Option<int> {
    if exists|at: int| is_first_relevant(records, now, at) {
        Some(choose|at: int| is_first_relevant(records, now, at))
    } else {
        None
    }
}

/// Whether `record` still counts at `now`: neither its start nor its end
/// lies before `now` less one day.
pub fn counts_at(record: &OutageRecord, now: CivilTime) -> (counts: bool)
    ensures
        counts == is_relevant(record@, now@),
{
    let floor: i64 = now.seconds() - DAY_SECONDS;
    record.start.seconds() >= floor && record.end.seconds() >= floor
}

/// Selects the record that currently matters: scanning `records` in order,
/// the first that neither begins nor ends before `now` less one day.
pub fn evaluate(records: &Vec<OutageRecord>, now: CivilTime) -> (found: Option<&OutageRecord>)
    ensures
        match first_relevant(records_view(records@), now@) {
            Some(at) => found == Some(&records@[at]),
            None => found is None,
        },
{
    let mut i: usize = 0;
    while i < records.len()
        invariant
            i <= records.len(),
            forall|before: int|
                0 <= before < i ==> !is_relevant(#[trigger] records_view(records@)[before], now@),
        decreases records.len() - i,
    {
        let record = &records[i];
        if counts_at(record, now) {
            proof {
                lemma_first_match(records_view(records@), now@, i as int);
            }
            return Some(record);
        }
        i += 1;
    }
    proof {
        lemma_none_relevant(records_view(records@), now@);
    }
    None
}

/// First match wins: where `records[at]` counts at `now` and no earlier
/// record does, the evaluation yields position `at`, whatever follows it.
pub proof fn lemma_first_match(records: Seq<RecordView>, now: int, at: int)
    requires
        is_first_relevant(records, now, at),
    ensures
        first_relevant(records, now) == Some(at),
{
}

/// Of two records that both count at `now`, the one that stands first in
/// document order is selected.
pub proof fn lemma_first_of_two(first: RecordView, second: RecordView, now: int)
    requires
        is_relevant(first, now),
        is_relevant(second, now),
    ensures
        first_relevant(seq![first, second], now) == Some(0int),
{
    lemma_first_match(seq![first, second], now, 0);
}

/// Where no record counts at `now`, the evaluation yields nothing; the empty
/// sequence is one such case.
pub proof fn lemma_none_relevant(records: Seq<RecordView>, now: int)
    requires
        forall|at: int| 0 <= at < records.len() ==> !is_relevant(#[trigger] records[at], now),
    ensures
        first_relevant(records, now) is None,
{
}

/// Expired outages are left out: where every record ended before `now` less
/// one day, the evaluation yields nothing.
pub proof fn lemma_all_expired(records: Seq<RecordView>, now: int)
    requires
        forall|at: int| 0 <= at < records.len() ==> (#[trigger] records[at]).end < now - 86_400,
    ensures
        first_relevant(records, now) is None,
{
    lemma_none_relevant(records, now);
}

/// Whatever the evaluation selects counts at `now` and is the first to do so.
pub proof fn lemma_selected_is_first(records: Seq<RecordView>, now: int)
    ensures
        first_relevant(records, now) matches Some(at) ==> is_first_relevant(records, now, at),
{
}

} // verus!
