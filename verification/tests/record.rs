use outage_monitor::markup::ScheduleCell;
use outage_monitor::markup::ScheduleRow;
use outage_monitor::record::extract;
use outage_monitor::record::read_record;
use outage_monitor::record::OutageRecord;
use outage_monitor::record::ParseFault;
use outage_monitor::time::CivilTime;

fn cell(content: &str) -> ScheduleCell {
    ScheduleCell { content: content.to_string(), items: vec![] }
}

fn street_cell(streets: &[&str]) -> ScheduleCell {
    ScheduleCell {
        content: "streets".to_string(),
        items: streets.iter().map(|street| street.to_string()).collect(),
    }
}

fn row(markup: &str, cells: Vec<ScheduleCell>) -> ScheduleRow {
    ScheduleRow { markup: markup.to_string(), cells }
}

fn outage(markup: &str, streets: &[&str], start: &str, end: &str) -> ScheduleRow {
    row(markup, vec![street_cell(streets), cell(start), cell(end)])
}

fn record(streets: &[&str], start: &str, end: &str) -> OutageRecord {
    OutageRecord {
        streets: streets.iter().map(|street| street.to_string()).collect(),
        start: CivilTime::parse(start).unwrap(),
        end: CivilTime::parse(end).unwrap(),
    }
}

#[test]
fn reads_a_row_by_position() {
    let row = outage("<tr>X</tr>", &["Oak", "Pine"], "2024-01-10 08:00", "2024-01-10 14:00");
    let read = read_record(&row).unwrap();
    assert_eq!(read, record(&["Oak", "Pine"], "2024-01-10 08:00", "2024-01-10 14:00"));
    assert_eq!(read.start.seconds(), 1_704_873_600);
    assert_eq!(read.end.seconds(), 1_704_895_200);
}

#[test]
fn further_cells_are_ignored() {
    let mut row = outage("<tr>X</tr>", &["Oak"], "2024-01-10 08:00", "2024-01-10 14:00");
    row.cells.push(cell("not a time"));
    assert_eq!(read_record(&row), Ok(record(&["Oak"], "2024-01-10 08:00", "2024-01-10 14:00")));
}

#[test]
fn streets_keep_order_and_duplicates() {
    let row = outage("", &["Pine", "Oak", "Pine", ""], "2024-01-10 08:00", "2024-01-10 14:00");
    let read = read_record(&row).unwrap();
    assert_eq!(read.streets, vec!["Pine", "Oak", "Pine", ""]);
}

#[test]
fn row_without_streets_is_still_a_record() {
    let row = outage("", &[], "2024-01-10 08:00", "2024-01-10 14:00");
    assert!(read_record(&row).unwrap().streets.is_empty());
}

#[test]
fn row_without_cells_has_no_streets_cell() {
    assert_eq!(read_record(&row("<tr></tr>", vec![])), Err(ParseFault::Streets));
}

#[test]
fn missing_or_unreadable_start_is_a_fault() {
    assert_eq!(read_record(&row("", vec![street_cell(&["Oak"])])), Err(ParseFault::StartTime));
    assert_eq!(
        read_record(&outage("", &["Oak"], "tomorrow", "2024-01-10 14:00")),
        Err(ParseFault::StartTime)
    );
    assert_eq!(
        read_record(&outage("", &["Oak"], "", "2024-01-10 14:00")),
        Err(ParseFault::StartTime)
    );
}

#[test]
fn missing_or_unreadable_end_is_a_fault() {
    assert_eq!(
        read_record(&row("", vec![street_cell(&["Oak"]), cell("2024-01-10 08:00")])),
        Err(ParseFault::EndTime)
    );
    assert_eq!(
        read_record(&outage("", &["Oak"], "2024-01-10 08:00", "")),
        Err(ParseFault::EndTime)
    );
    assert_eq!(
        read_record(&outage("", &["Oak"], "2024-01-10 08:00", "2024-01-10")),
        Err(ParseFault::EndTime)
    );
}

#[test]
fn start_is_checked_before_end() {
    assert_eq!(read_record(&outage("", &[], "bad", "worse")), Err(ParseFault::StartTime));
}

#[test]
fn extract_keeps_rows_that_name_the_locality() {
    let rows = vec![
        outage("<tr>Y one</tr>", &["Elm"], "2024-01-09 08:00", "2024-01-09 14:00"),
        outage("<tr>X two</tr>", &["Oak"], "2024-01-10 08:00", "2024-01-10 14:00"),
        outage("<tr>Y three</tr>", &["Ash"], "2024-01-11 08:00", "2024-01-11 14:00"),
        outage("<tr>four X</tr>", &["Pine"], "2024-01-12 08:00", "2024-01-12 14:00"),
    ];
    assert_eq!(
        extract(&rows, "X"),
        Ok(vec![
            record(&["Oak"], "2024-01-10 08:00", "2024-01-10 14:00"),
            record(&["Pine"], "2024-01-12 08:00", "2024-01-12 14:00"),
        ])
    );
    assert_eq!(extract(&rows, "Y").unwrap().len(), 2);
    assert_eq!(extract(&rows, "two").unwrap().len(), 1);
}

#[test]
fn extract_of_nothing_is_nothing() {
    assert_eq!(extract(&vec![], "X"), Ok(vec![]));
    let rows = vec![outage("<tr>Y</tr>", &["Elm"], "2024-01-09 08:00", "2024-01-09 14:00")];
    assert_eq!(extract(&rows, "X"), Ok(vec![]));
}

#[test]
fn extract_matches_case_and_markup() {
    let rows = vec![outage(
        "<tr><td class=\"area\">Xanadu</td></tr>",
        &["Elm"],
        "2024-01-09 08:00",
        "2024-01-09 14:00",
    )];
    assert_eq!(extract(&rows, "Xanadu").unwrap().len(), 1);
    assert_eq!(extract(&rows, "xanadu").unwrap().len(), 0);
    assert_eq!(extract(&rows, "area").unwrap().len(), 1);
    assert_eq!(extract(&rows, "").unwrap().len(), 1);
}

#[test]
fn faulty_rows_elsewhere_do_no_harm() {
    let rows = vec![
        row("<tr>Y</tr>", vec![]),
        outage("<tr>X</tr>", &["Oak"], "2024-01-10 08:00", "2024-01-10 14:00"),
        outage("<tr>Y</tr>", &["Elm"], "never", "never"),
    ];
    assert_eq!(extract(&rows, "X").unwrap().len(), 1);
}

#[test]
fn faulty_row_of_the_locality_fails_the_extraction() {
    let rows = vec![
        outage("<tr>X</tr>", &["Oak"], "2024-01-10 08:00", "2024-01-10 14:00"),
        outage("<tr>X</tr>", &["Elm"], "2024-01-11 08:00", "later"),
        outage("<tr>X</tr>", &["Ash"], "sooner", "2024-01-12 14:00"),
        row("<tr>X</tr>", vec![]),
    ];
    assert_eq!(extract(&rows, "X"), Err(ParseFault::EndTime));
    assert_eq!(extract(&rows[2..].to_vec(), "X"), Err(ParseFault::StartTime));
    assert_eq!(extract(&rows[3..].to_vec(), "X"), Err(ParseFault::Streets));
}
