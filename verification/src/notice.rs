//! The notice: the text that tells subscribers of a planned outage.

use crate::markup::texts_view;
use crate::record::OutageRecord;
use crate::record::RecordView;
use crate::time::displayed_time;
use crate::text::occurs_at;
use vstd::prelude::*;
use vstd::string::StringExecFns;

verus! {

/// Opens the notice; the locality follows.
pub const HEADING_OPEN: &'static str = "WARN: Planned power outage in ";

/// Stands between the locality and the start of the outage.
pub const HEADING_FROM: &'static str = " at ";

/// Stands between the start and the end of the outage.
pub const HEADING_UNTIL: &'static str = " to ";

/// Closes the heading and opens the list of streets.
pub const HEADING_CLOSE: &'static str = "\n\n Affected addresses:\n";

/// Begins the line of each street.
pub const STREET_MARKER: &'static str = "   - ";

/// Ends the line of each street.
pub const LINE_END: &'static str = "\n";

/// The heading of the notice: the locality and the time window.
pub open spec fn heading(record: RecordView, locality: Seq<char>) -> Seq<char> {
    HEADING_OPEN@ + locality + HEADING_FROM@ + displayed_time(record.start) + HEADING_UNTIL@
        + displayed_time(record.end) + HEADING_CLOSE@
}

/// The line that lists one street.
pub open spec fn street_line(street: Seq<char>) -> Seq<char> {
    STREET_MARKER@ + street + LINE_END@
}

/// The lines of `streets`, one after the other.
pub open spec fn street_lines(streets: Seq<Seq<char>>) -> Seq<char>
    decreases streets.len(),
{
    if streets.len() == 0 {
        Seq::empty()
    } else {
        street_lines(streets.drop_last()) + street_line(streets.last())
    }
}

/// The notice for `record`: the heading, then one line for each street.
pub open spec fn notice_text(record: RecordView, locality: Seq<char>) -> Seq<char> {
    heading(record, locality) + street_lines(record.streets)
}

/// Renders the notice for `record`: a heading that names `locality` and the
/// start and end of the outage, then the affected streets, one on each line
/// and in the record's order. Street names pass through as they are.
pub fn format(record: &OutageRecord, locality: &str) -> (text: String)
    ensures
        text@ == notice_text(record@, locality@),
{
    let start = record.start.render();
    let end = record.end.render();
    let mut text = String::new();
    text.append(HEADING_OPEN);
    text.append(locality);
    text.append(HEADING_FROM);
    text.append(start.as_str());
    text.append(HEADING_UNTIL);
    text.append(end.as_str());
    text.append(HEADING_CLOSE);
    let ghost streets = texts_view(record.streets@);
    let mut i: usize = 0;
    while i < record.streets.len()
        invariant
            i <= record.streets.len(),
            streets == texts_view(record.streets@),
            text@ == heading(record@, locality@) + street_lines(streets.take(i as int)),
        decreases record.streets.len() - i,
    {
        proof {
            assert(streets.take(i + 1).drop_last() =~= streets.take(i as int));
        }
        text.append(STREET_MARKER);
        text.append(record.streets[i].as_str());
        text.append(LINE_END);
        i += 1;
    }
    assert(streets.take(i as int) =~= streets);
    text
}

/// Where the start of the outage begins in the notice.
pub open spec fn start_offset(locality: Seq<char>) -> nat {
    HEADING_OPEN@.len() + locality.len() + HEADING_FROM@.len()
}

/// Where the end of the outage begins in the notice.
pub open spec fn end_offset(record: RecordView, locality: Seq<char>) -> nat {
    start_offset(locality) + displayed_time(record.start).len() + HEADING_UNTIL@.len()
}

/// Where the name of the street at `index` begins in the notice.
pub open spec fn street_offset(record: RecordView, locality: Seq<char>, index: int) -> nat {
    heading(record, locality).len() + street_lines(record.streets.take(index)).len()
        + STREET_MARKER@.len()
}

/// The lines of a list are the lines of its first `count` streets, then the
/// lines of the rest.
pub proof fn lemma_lines_split(streets: Seq<Seq<char>>, count: int)
    requires
        0 <= count <= streets.len(),
    ensures
        street_lines(streets) == street_lines(streets.take(count)) + street_lines(
            streets.skip(count),
        ),
    decreases streets.len(),
{
    if count == streets.len() {
        assert(streets.take(count) =~= streets);
    } else {
        let shorter = streets.drop_last();
        lemma_lines_split(shorter, count);
        assert(shorter.take(count) =~= streets.take(count));
        assert(streets.skip(count).drop_last() =~= shorter.skip(count));
    }
}

/// The lines of a list that is not empty begin with the line of its first
/// street.
pub proof fn lemma_lines_first(streets: Seq<Seq<char>>)
    requires
        streets.len() > 0,
    ensures
        street_lines(streets) == street_line(streets[0]) + street_lines(streets.skip(1)),
{
    lemma_lines_split(streets, 1);
    let first = streets.take(1);
    assert(street_lines(first.drop_last()) =~= Seq::empty());
}

/// The notice holds both times of the record in its heading, the start
/// before the end, and the heading ends before the first street begins.
pub proof fn lemma_times_shown(record: RecordView, locality: Seq<char>)
    ensures
        occurs_at(
            notice_text(record, locality),
            displayed_time(record.start),
            start_offset(locality) as int,
        ),
        occurs_at(
            notice_text(record, locality),
            displayed_time(record.end),
            end_offset(record, locality) as int,
        ),
        start_offset(locality) + displayed_time(record.start).len() <= end_offset(record, locality),
        end_offset(record, locality) + displayed_time(record.end).len() <= heading(
            record,
            locality,
        ).len(),
{
    let text = notice_text(record, locality);
    let start = displayed_time(record.start);
    let end = displayed_time(record.end);
    let from = start_offset(locality) as int;
    let until = end_offset(record, locality) as int;
    assert(text.subrange(from, from + start.len()) =~= start);
    assert(text.subrange(until, until + end.len()) =~= end);
}

/// The notice holds the name of every street of the record, at the place
/// that its position in the record gives it.
pub proof fn lemma_street_listed(record: RecordView, locality: Seq<char>, index: int)
    requires
        0 <= index < record.streets.len(),
    ensures
        occurs_at(
            notice_text(record, locality),
            record.streets[index],
            street_offset(record, locality, index) as int,
        ),
{
    let rest = record.streets.skip(index);
    lemma_lines_split(record.streets, index);
    lemma_lines_first(rest);
    let text = notice_text(record, locality);
    let at = street_offset(record, locality, index) as int;
    assert(text.subrange(at, at + rest[0].len()) =~= rest[0]);
}

/// The streets stand in the notice in the record's order with nothing but a
/// line end and a marker between them: the first name begins one marker after
/// the heading, each further name one line end and one marker after the name
/// before it, and the notice ends one line end after the last name.
pub proof fn lemma_streets_in_order(record: RecordView, locality: Seq<char>, index: int)
    requires
        0 <= index < record.streets.len(),
    ensures
        index == 0 ==> street_offset(record, locality, index) == heading(record, locality).len()
            + STREET_MARKER@.len(),
        index > 0 ==> street_offset(record, locality, index) == street_offset(
            record,
            locality,
            index - 1,
        ) + record.streets[index - 1].len() + LINE_END@.len() + STREET_MARKER@.len(),
        index == record.streets.len() - 1 ==> notice_text(record, locality).len() == street_offset(
            record,
            locality,
            index,
        ) + record.streets[index].len() + LINE_END@.len(),
{
    if index > 0 {
        assert(record.streets.take(index).drop_last() =~= record.streets.take(index - 1));
    }
}

/// A record without streets gives the heading alone.
pub proof fn lemma_no_streets(record: RecordView, locality: Seq<char>)
    requires
        record.streets.len() == 0,
    ensures
        notice_text(record, locality) == heading(record, locality),
{
}

} // verus!
