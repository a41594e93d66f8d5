//! The monitoring engine: from the outcome of a fetch and the current time
//! to the notice that is due, if any.

use crate::markup::read_schedule;
use crate::markup::rows_view;
use crate::markup::schedule_rows;
use crate::markup::LayoutFault;
use crate::markup::RowView;
use crate::markup::ScheduleRow;
use crate::notice::notice_text;
use crate::record::extract;
use crate::record::extracted;
use crate::record::lemma_retained_push;
use crate::record::names_locality;
use crate::record::retained;
use crate::record::ParseFault;
use crate::record::RecordView;
use crate::relevance::evaluate;
use crate::relevance::first_relevant;
use crate::time::CivilTime;
use vstd::prelude::*;

verus! {

/// The locality whose outages the engine watches.
pub const LOCALITY: &'static str = "Nieporęt";

/// Why the schedule page could not be had.
#[derive(Clone, Copy, Debug, PartialEq, Eq, Structural)]
pub enum FetchError {
    /// The source could not be reached, or did not answer in time.
    Network,
    /// The source answered with a status other than success.
    HttpStatus,
    /// The answer's body is no text.
    Body,
}

/// Why no answer on the current outage could be given.
#[derive(Clone, Copy, Debug, PartialEq, Eq, Structural)]
pub enum NoticeError {
    /// The page could not be fetched.
    Fetch(FetchError),
    /// The schedule table could not be cut out of the page.
    Layout(LayoutFault),
    /// A row that names the locality is no record.
    Parse(ParseFault),
}

/// The notice that `records` call for at `now`: that of the first record
/// that counts, or none.
pub open spec fn notice_of_records(records: Seq<RecordView>, locality: Seq<char>, now: int) -> Option<
    Seq<char>,
> {
    match first_relevant(records, now) {
        Some(at) => Some(notice_text(records[at], locality)),
        None => None,
    }
}

/// The notice that the rows of a schedule table call for: extraction, then
/// evaluation, then the text. A fault of the extraction is the outcome.
pub open spec fn notice_of_rows(rows: Seq<RowView>, locality: Seq<char>, now: int) -> Result<
    Option<Seq<char>>,
    ParseFault,
> {
    match extracted(rows, locality) {
        Ok(records) => Ok(notice_of_records(records, locality, now)),
        Err(fault) => Err(fault),
    }
}

/// The notice that the page `document` calls for.
pub open spec fn notice_of_document(document: Seq<char>, locality: Seq<char>, now: int) -> Result<
    Option<Seq<char>>,
    NoticeError,
> {
    match schedule_rows(document) {
        Ok(rows) => match notice_of_rows(rows, locality, now) {
            Ok(notice) => Ok(notice),
            Err(fault) => Err(NoticeError::Parse(fault)),
        },
        Err(fault) => Err(NoticeError::Layout(fault)),
    }
}

/// The notice that the outcome of a fetch calls for, with the engine's own
/// locality. A failed fetch is an error, and so is a page that cannot be read.
pub open spec fn notice_of_fetch(fetched: Result<Seq<char>, FetchError>, now: int) -> Result<
    Option<Seq<char>>,
    NoticeError,
> {
    match fetched {
        Ok(document) => notice_of_document(document, LOCALITY@, now),
        Err(failure) => Err(NoticeError::Fetch(failure)),
    }
}

/// An outcome with its text as characters.
pub open spec fn outcome_view<E>(outcome: Result<Option<String>, E>) -> Result<
    Option<Seq<char>>,
    E,
> {
    match outcome {
        Ok(Some(text)) => Ok(Some(text@)),
        Ok(None) => Ok(None),
        Err(error) => Err(error),
    }
}

/// The outcome of a fetch with its page as characters.
pub open spec fn fetched_view(fetched: Result<String, FetchError>) -> Result<
    Seq<char>,
    FetchError,
> {
    match fetched {
        Ok(document) => Ok(document@),
        Err(failure) => Err(failure),
    }
}

/// The notice for the rows of a schedule table at `now`: the rows that name
/// `locality` become records, the first record that still counts is chosen,
/// and its notice is rendered. `Ok(None)` says that no outage is due.
pub fn notice_from_rows(rows: &Vec<ScheduleRow>, locality: &str, now: CivilTime) -> (outcome:
    Result<Option<String>, ParseFault>)
    ensures
        outcome_view(outcome) == notice_of_rows(rows_view(rows@), locality@, now@),
{
    match extract(rows, locality) {
        Ok(records) => match evaluate(&records, now) {
            Some(record) => Ok(Some(crate::notice::format(record, locality))),
            None => Ok(None),
        },
        Err(fault) => Err(fault),
    }
}

/// The notice for the schedule page `document` at `now`.
pub fn notice_from_document(document: &str, locality: &str, now: CivilTime) -> (outcome: Result<
    Option<String>,
    NoticeError,
>)
    ensures
        outcome_view(outcome) == notice_of_document(document@, locality@, now@),
{
    match read_schedule(document) {
        Ok(rows) => match notice_from_rows(&rows, locality, now) {
            Ok(notice) => Ok(notice),
            Err(fault) => Err(NoticeError::Parse(fault)),
        },
        Err(fault) => Err(NoticeError::Layout(fault)),
    }
}

/// The engine's single entry point: given what the fetch of the schedule page
/// brought and the current local time, the notice that is due for
/// [`LOCALITY`]. The outcome depends on nothing but these two values. A fetch
/// that failed is handed on as an error and never read as "no outage".
pub fn current_notice(fetched: Result<String, FetchError>, now: CivilTime) -> (outcome: Result<
    Option<String>,
    NoticeError,
>)
    ensures
        outcome_view(outcome) == notice_of_fetch(fetched_view(fetched), now@),
        fetched matches Err(failure) ==> outcome == Err::<Option<String>, NoticeError>(
            NoticeError::Fetch(failure),
        ),
{
    match fetched {
        Ok(document) => notice_from_document(document.as_str(), LOCALITY, now),
        Err(failure) => Err(NoticeError::Fetch(failure)),
    }
}

/// Every failed fetch ends in an error that carries the failure.
pub proof fn lemma_fetch_failure_is_error(failure: FetchError, now: int)
    ensures
        notice_of_fetch(Err(failure), now) == Err::<Option<Seq<char>>, NoticeError>(
            NoticeError::Fetch(failure),
        ),
{
}

/// Where no row names the locality, no row is retained.
pub proof fn lemma_nothing_retained(rows: Seq<RowView>, locality: Seq<char>)
    requires
        forall|at: int| 0 <= at < rows.len() ==> !names_locality(#[trigger] rows[at], locality),
    ensures
        retained(rows, locality) == Seq::<RowView>::empty(),
    decreases rows.len(),
{
    if rows.len() == 0 {
        reveal(Seq::filter);
    } else {
        lemma_nothing_retained(rows.drop_last(), locality);
        lemma_retained_push(rows.drop_last(), rows.last(), locality);
        assert(rows.drop_last().push(rows.last()) =~= rows);
    }
}

/// Where no row names the locality, no outage is due: the outcome is
/// `Ok(None)`, whatever the rows hold otherwise and whatever the time.
pub proof fn lemma_no_row_names_locality(rows: Seq<RowView>, locality: Seq<char>, now: int)
    requires
        forall|at: int| 0 <= at < rows.len() ==> !names_locality(#[trigger] rows[at], locality),
    ensures
        notice_of_rows(rows, locality, now) == Ok::<Option<Seq<char>>, ParseFault>(None),
{
    lemma_nothing_retained(rows, locality);
}

/// A page none of whose rows names the locality gives `Ok(None)`.
pub proof fn lemma_page_without_locality(document: Seq<char>, locality: Seq<char>, now: int)
    requires
        schedule_rows(document) is Ok,
        forall|at: int|
            0 <= at < schedule_rows(document)->Ok_0.len() ==> !names_locality(
                #[trigger] schedule_rows(document)->Ok_0[at],
                locality,
            ),
    ensures
        notice_of_document(document, locality, now) == Ok::<Option<Seq<char>>, NoticeError>(None),
{
    lemma_no_row_names_locality(schedule_rows(document)->Ok_0, locality, now);
}

} // verus!
