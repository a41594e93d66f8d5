use outage_monitor::record::OutageRecord;
use outage_monitor::relevance::counts_at;
use outage_monitor::relevance::evaluate;
use outage_monitor::time::CivilTime;
use outage_monitor::time::MIN_SECONDS;

fn at(text: &str) -> CivilTime {
    CivilTime::parse(text).unwrap()
}

fn record(street: &str, start: &str, end: &str) -> OutageRecord {
    OutageRecord { streets: vec![street.to_string()], start: at(start), end: at(end) }
}

#[test]
fn nothing_to_evaluate_gives_nothing() {
    assert_eq!(evaluate(&vec![], at("2024-01-10 09:00")), None);
}

#[test]
fn running_outage_is_relevant() {
    let records = vec![record("Oak", "2024-01-10 08:00", "2024-01-10 14:00")];
    assert_eq!(evaluate(&records, at("2024-01-10 09:00")), Some(&records[0]));
}

#[test]
fn coming_outage_is_relevant() {
    let records = vec![record("Oak", "2024-03-01 08:00", "2024-03-01 14:00")];
    assert_eq!(evaluate(&records, at("2024-01-10 09:00")), Some(&records[0]));
}

#[test]
fn outage_of_the_last_day_is_still_relevant() {
    let records = vec![record("Oak", "2024-01-10 10:00", "2024-01-10 14:00")];
    assert_eq!(evaluate(&records, at("2024-01-11 09:00")), Some(&records[0]));
}

#[test]
fn expired_outages_are_left_out() {
    let records = vec![
        record("Oak", "2024-01-10 08:00", "2024-01-10 14:00"),
        record("Elm", "2024-01-09 08:00", "2024-01-11 08:59"),
        record("Ash", "2023-12-24 00:00", "2023-12-25 00:00"),
    ];
    assert_eq!(evaluate(&records, at("2024-01-12 09:00")), None);
}

#[test]
fn baseline_is_one_day_back_to_the_second() {
    let now = CivilTime::from_seconds(1_704_877_200).unwrap();
    let on_the_baseline = CivilTime::from_seconds(1_704_877_200 - 86_400).unwrap();
    let just_before = CivilTime::from_seconds(1_704_877_200 - 86_401).unwrap();
    let later = at("2024-01-10 14:00");
    let kept = vec![OutageRecord { streets: vec![], start: on_the_baseline, end: on_the_baseline }];
    assert_eq!(evaluate(&kept, now), Some(&kept[0]));
    let early_start = vec![OutageRecord { streets: vec![], start: just_before, end: later }];
    assert_eq!(evaluate(&early_start, now), None);
    let early_end = vec![OutageRecord { streets: vec![], start: later, end: just_before }];
    assert_eq!(evaluate(&early_end, now), None);
}

#[test]
fn start_and_end_must_both_count() {
    let now = at("2024-01-12 09:00");
    let records = vec![
        record("long", "2024-01-01 00:00", "2024-01-20 00:00"),
        record("odd", "2024-01-20 00:00", "2024-01-01 00:00"),
    ];
    assert_eq!(evaluate(&records, now), None);
}

#[test]
fn first_match_wins() {
    let first = record("A", "2024-01-10 08:00", "2024-01-10 14:00");
    let second = record("B", "2024-01-10 07:00", "2024-01-10 09:00");
    let records = vec![first.clone(), second.clone()];
    assert_eq!(evaluate(&records, at("2024-01-10 09:00")), Some(&first));
    let swapped = vec![second.clone(), first];
    assert_eq!(evaluate(&swapped, at("2024-01-10 09:00")), Some(&second));
}

#[test]
fn first_match_is_not_the_soonest() {
    let records = vec![
        record("expired", "2024-01-01 08:00", "2024-01-01 14:00"),
        record("far", "2024-06-01 08:00", "2024-06-01 14:00"),
        record("near", "2024-01-10 10:00", "2024-01-10 14:00"),
    ];
    assert_eq!(evaluate(&records, at("2024-01-10 09:00")), Some(&records[1]));
}

#[test]
fn evaluation_works_at_the_edge_of_the_range() {
    let now = CivilTime::from_seconds(MIN_SECONDS).unwrap();
    let records = vec![OutageRecord { streets: vec![], start: now, end: now }];
    assert_eq!(evaluate(&records, now), Some(&records[0]));
}

#[test]
fn counts_at_is_the_rule_for_one_record() {
    let outage = record("Oak", "2024-01-10 08:00", "2024-01-10 14:00");
    assert!(counts_at(&outage, at("2024-01-10 09:00")));
    assert!(counts_at(&outage, at("2024-01-11 08:00")));
    assert!(!counts_at(&outage, at("2024-01-11 08:01")));
    assert!(!counts_at(&outage, at("2024-01-12 09:00")));
    assert!(counts_at(&outage, at("2020-01-01 00:00")));
}
