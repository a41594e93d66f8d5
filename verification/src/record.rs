//! Outage records, and how the rows of the schedule table become records.

use crate::markup::texts_view;
use crate::markup::rows_view;
use crate::markup::RowView;
use crate::markup::ScheduleRow;
use crate::text::chars_of;
use crate::text::contains;
use crate::text::find_chars;
use crate::time::civil_seconds;
use crate::time::CivilTime;
use vstd::prelude::*;

verus! {

/// One planned outage that touches the monitored locality.
#[derive(Clone, Debug, PartialEq, Eq)]
pub struct OutageRecord {
    /// The affected streets, in the order and as often as the page lists them.
    pub streets: Vec<String>,
    /// When the outage begins.
    pub start: CivilTime,
    /// When the outage ends.
    pub end: CivilTime,
}

/// A record as plain values: the streets' characters, and both times in
/// seconds since 1970-01-01 00:00:00.
pub struct RecordView {
    pub streets: Seq<Seq<char>>,
    pub start: int,
    pub end: int,
}

impl View for OutageRecord {
    type V = RecordView;

    open spec fn view(&self) -> RecordView {
        RecordView { streets: texts_view(self.streets@), start: self.start@, end: self.end@ }
    }
}

/// The plain-value form of each record in `records`.
pub open spec fn records_view(records: Seq<OutageRecord>) -> Seq<RecordView> {
    records.map_values(|record: OutageRecord| record@)
}

/// Why a row that names the locality is no usable record.
#[derive(Clone, Copy, Debug, PartialEq, Eq, Structural)]
pub enum ParseFault {
    /// The row has no cell to list its streets.
    Streets,
    /// The row's second cell is missing or holds no civil time.
    StartTime,
    /// The row's third cell is missing or holds no civil time.
    EndTime,
}

/// The record that `row` stands for, by the positions of its cells: the
/// streets are the list entries of the first cell, the second cell holds the
/// start and the third the end. The first cell that is missing or unreadable
/// names the fault.
pub open spec fn record_of(row: RowView) -> Result<RecordView, ParseFault> {
    if row.cells.len() < 1 {
        Err(ParseFault::Streets)
    } else if row.cells.len() < 2 || civil_seconds(row.cells[1].content) is None {
        Err(ParseFault::StartTime)
    } else if row.cells.len() < 3 || civil_seconds(row.cells[2].content) is None {
        Err(ParseFault::EndTime)
    } else {
        Ok(
            RecordView {
                streets: row.cells[0].items,
                start: civil_seconds(row.cells[1].content)->0,
                end: civil_seconds(row.cells[2].content)->0,
            },
        )
    }
}

/// Whether `row` names `locality` anywhere in its markup.
pub open spec fn names_locality(row: RowView, locality: Seq<char>) -> bool {
    contains(row.markup, locality)
}

/// The rows that name `locality`, in document order.
pub open spec fn retained(rows: Seq<RowView>, locality: Seq<char>) -> Seq<RowView> {
    rows.filter(|row: RowView| names_locality(row, locality))
}

/// The records of `rows`, one for each row and in the same order, or the
/// fault of the first row that is no record.
pub open spec fn records_of(rows: Seq<RowView>) -> Result<Seq<RecordView>, ParseFault>
    decreases rows.len(),
{
    if rows.len() == 0 {
        Ok(Seq::empty())
    } else {
        match records_of(rows.drop_last()) {
            Err(fault) => Err(fault),
            Ok(records) => match record_of(rows.last()) {
                Err(fault) => Err(fault),
                Ok(record) => Ok(records.push(record)),
            },
        }
    }
}

/// What extraction yields for `rows` and `locality`: the records of the rows
/// that name the locality.
pub open spec fn extracted(rows: Seq<RowView>, locality: Seq<char>) -> Result<
    Seq<RecordView>,
    ParseFault,
> {
    records_of(retained(rows, locality))
}

/// The outcome of an extraction as plain values.
pub open spec fn extraction_view(outcome: Result<Vec<OutageRecord>, ParseFault>) -> Result<
    Seq<RecordView>,
    ParseFault,
> {
    match outcome {
        Ok(records) => Ok(records_view(records@)),
        Err(fault) => Err(fault),
    }
}

/// A copy of `texts`.
fn copy_texts(texts: &Vec<String>) -> (copy: Vec<String>)
    ensures
        copy@ == texts@,
{
    let mut copy: Vec<String> = Vec::new();
    let mut i: usize = 0;
    while i < texts.len()
        invariant
            i <= texts.len(),
            copy@ == texts@.take(i as int),
        decreases texts.len() - i,
    {
        copy.push(texts[i].clone());
        i += 1;
    }
    copy
}

/// Reads one row as a record.
pub fn read_record(row: &ScheduleRow) -> (outcome: Result<OutageRecord, ParseFault>)
    ensures
        match outcome {
            Ok(record) => record_of(row@) == Ok::<RecordView, ParseFault>(record@),
            Err(fault) => record_of(row@) == Err::<RecordView, ParseFault>(fault),
        },
{
    if row.cells.len() < 1 {
        return Err(ParseFault::Streets);
    }
    if row.cells.len() < 2 {
        return Err(ParseFault::StartTime);
    }
    let start = match CivilTime::parse(row.cells[1].content.as_str()) {
        Some(time) => time,
        None => {
            return Err(ParseFault::StartTime);
        },
    };
    if row.cells.len() < 3 {
        return Err(ParseFault::EndTime);
    }
    let end = match CivilTime::parse(row.cells[2].content.as_str()) {
        Some(time) => time,
        None => {
            return Err(ParseFault::EndTime);
        },
    };
    let streets = copy_texts(&row.cells[0].items);
    Ok(OutageRecord { streets, start, end })
}

/// Turns the rows of the schedule table into the outage records of
/// `locality`. A row counts where its markup holds `locality` as a literal
/// substring; every such row must be a record, and the first that is not
/// fails the extraction with its fault.
pub fn extract(rows: &Vec<ScheduleRow>, locality: &str) -> (outcome: Result<
    Vec<OutageRecord>,
    ParseFault,
>)
    ensures
        extraction_view(outcome) == extracted(rows_view(rows@), locality@),
{
    let needle = chars_of(locality);
    let mut records: Vec<OutageRecord> = Vec::new();
    let mut i: usize = 0;
    proof {
        reveal(Seq::filter);
        assert(records_view(records@) =~= Seq::empty());
    }
    while i < rows.len()
        invariant
            i <= rows.len(),
            needle@ == locality@,
            extracted(rows_view(rows@).take(i as int), locality@) == Ok::<
                Seq<RecordView>,
                ParseFault,
            >(records_view(records@)),
        decreases rows.len() - i,
    {
        let markup = chars_of(rows[i].markup.as_str());
        let ghost before = rows_view(rows@).take(i as int);
        let ghost row = rows_view(rows@)[i as int];
        proof {
            lemma_retained_push(before, row, locality@);
            assert(rows_view(rows@).take(i + 1) =~= before.push(row));
        }
        if find_chars(&markup, &needle) {
            match read_record(&rows[i]) {
                Ok(record) => {
                    proof {
                        assert(records_view(records@.push(record)) =~= records_view(
                            records@,
                        ).push(record@));
                        assert(retained(before, locality@).push(row).drop_last() =~= retained(
                            before,
                            locality@,
                        ));
                    }
                    records.push(record);
                },
                Err(fault) => {
                    proof {
                        assert(retained(before, locality@).push(row).drop_last() =~= retained(
                            before,
                            locality@,
                        ));
                        lemma_fault_stays(rows_view(rows@), (i + 1) as int, locality@);
                    }
                    return Err(fault);
                },
            }
        }
        i += 1;
    }
    assert(rows_view(rows@).take(i as int) =~= rows_view(rows@));
    Ok(records)
}

/// The records of `rows` exist exactly where every row is a record, and then
/// there is one for each row, in the same order.
pub proof fn lemma_records_of_all(rows: Seq<RowView>)
    ensures
        records_of(rows) is Ok <==> forall|at: int|
            0 <= at < rows.len() ==> record_of(#[trigger] rows[at]) is Ok,
        records_of(rows) matches Ok(records) ==> records.len() == rows.len() && forall|at: int|
            0 <= at < rows.len() ==> record_of(#[trigger] rows[at]) == Ok::<
                RecordView,
                ParseFault,
            >(records[at]),
    decreases rows.len(),
{
    if rows.len() > 0 {
        lemma_records_of_all(rows.drop_last());
        assert forall|at: int| 0 <= at < rows.len() - 1 implies rows.drop_last()[at] == rows[at] by {}
    }
}

/// The fault of an extraction is that of the first row that is no record.
pub proof fn lemma_records_of_fault(rows: Seq<RowView>, at: int)
    requires
        0 <= at < rows.len(),
        record_of(rows[at]) is Err,
        forall|before: int| 0 <= before < at ==> record_of(#[trigger] rows[before]) is Ok,
    ensures
        records_of(rows) == Err::<Seq<RecordView>, ParseFault>(record_of(rows[at])->Err_0),
    decreases rows.len(),
{
    let shorter = rows.drop_last();
    assert forall|before: int| 0 <= before < shorter.len() implies shorter[before] == rows[before] by {}
    if at == rows.len() - 1 {
        lemma_records_of_all(shorter);
    } else {
        lemma_records_of_fault(shorter, at);
    }
}

/// Adding a row at the end adds it to the retained rows where it names the
/// locality, and leaves them as they were where it does not.
pub proof fn lemma_retained_push(rows: Seq<RowView>, row: RowView, locality: Seq<char>)
    ensures
        retained(rows.push(row), locality) == if names_locality(row, locality) {
            retained(rows, locality).push(row)
        } else {
            retained(rows, locality)
        },
{
    assert(rows.push(row).drop_last() =~= rows);
    reveal(Seq::filter);
}

/// A fault among the first `n` rows is the fault of the whole extraction.
pub proof fn lemma_fault_stays(rows: Seq<RowView>, n: int, locality: Seq<char>)
    requires
        0 <= n <= rows.len(),
        extracted(rows.take(n), locality) is Err,
    ensures
        extracted(rows, locality) == extracted(rows.take(n), locality),
    decreases rows.len() - n,
{
    if n < rows.len() {
        lemma_retained_push(rows.take(n), rows[n], locality);
        assert(rows.take(n + 1) =~= rows.take(n).push(rows[n]));
        if names_locality(rows[n], locality) {
            assert(retained(rows.take(n), locality).push(rows[n]).drop_last() =~= retained(
                rows.take(n),
                locality,
            ));
        }
        lemma_fault_stays(rows, n + 1, locality);
    } else {
        assert(rows.take(n) =~= rows);
    }
}

} // verus!
