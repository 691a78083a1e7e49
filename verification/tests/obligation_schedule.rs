use lana_core::obligation_schedule::{next_after_due, next_after_overdue, ObligationStep};

fn at(s: &str) -> i64 {
    chrono::DateTime::parse_from_rfc3339(s).unwrap().timestamp()
}

fn day(s: &str) -> i32 {
    chrono::Datelike::num_days_from_ce(&chrono::NaiveDate::parse_from_str(s, "%Y-%m-%d").unwrap())
}

#[test]
fn a_due_obligation_goes_overdue_before_it_defaults() {
    let overdue = at("2024-03-10T00:00:00Z");
    let defaulted = at("2024-04-10T00:00:00Z");
    let next = next_after_due(Some(overdue), Some(defaulted)).unwrap();
    assert_eq!(next.step, ObligationStep::Overdue);
    assert_eq!(next.at, overdue);
    assert_eq!(next.effective, day("2024-03-10"));
}

#[test]
fn without_an_overdue_date_a_due_obligation_defaults_next() {
    let defaulted = at("2024-04-10T12:30:00Z");
    let next = next_after_due(None, Some(defaulted)).unwrap();
    assert_eq!(next.step, ObligationStep::Defaulted);
    assert_eq!(next.effective, day("2024-04-10"));
    assert_eq!(next_after_due(None, None), None);
}

#[test]
fn an_overdue_obligation_defaults_next_where_it_can() {
    let defaulted = at("2023-12-31T23:59:59Z");
    let next = next_after_overdue(Some(defaulted)).unwrap();
    assert_eq!(next.step, ObligationStep::Defaulted);
    assert_eq!(next.at, defaulted);
    assert_eq!(next.effective, day("2023-12-31"));
    assert_eq!(next_after_overdue(None), None);
}
