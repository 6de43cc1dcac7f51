use travel_report::date::{duration_between, DateError};
use travel_report::report::{render_report, DateFailure, REPORT_LIMIT};
use travel_report::text::{cents_to_string, int_to_string};
use travel_report::trip::Trip;

fn trip(reference: &str, start: &str, end: &str, total: Option<i64>) -> Trip {
    Trip {
        ref_number: reference.to_string(),
        disclosure_group: "GroupA".to_string(),
        title_en: "TitleEN".to_string(),
        title_fr: "TitreFR".to_string(),
        name: "Jane Doe".to_string(),
        purpose_en: "Meeting".to_string(),
        purpose_fr: "Réunion".to_string(),
        start_date: start.to_string(),
        end_date: end.to_string(),
        destination_en: "Ottawa".to_string(),
        destination_fr: "Ottawa".to_string(),
        airfare: Some(50000),
        other_transport: None,
        lodging: Some(10000),
        meals: Some(5000),
        other_expenses: None,
        total,
        additional_comments_en: String::new(),
        additional_comments_fr: String::new(),
        owner_org: "DeptX".to_string(),
        owner_org_title: "Department X".to_string(),
    }
}

fn trips(n: usize) -> Vec<Trip> {
    (0..n).map(|i| trip(&format!("REF{:03}", i + 1), "2024-01-10", "2024-01-15", Some(65000))).collect()
}

#[test]
fn one_row_end_to_end_line() {
    let t = trip("REF001", "2024-01-10", "2024-01-15", Some(65000));
    assert_eq!(
        t.render_line().unwrap(),
        "Ref Number: REF001. Name: Jane Doe. Purpose: Meeting. Destination: Ottawa. Duration: 5 days. Total: $650.00"
    );
    let r = render_report(&vec![t]);
    assert_eq!(r.failure, None);
    assert_eq!(r.lines.len(), 1);
}

#[test]
fn report_of_many_rows_has_ten_lines_in_order() {
    let r = render_report(&trips(12));
    assert_eq!(REPORT_LIMIT, 10);
    assert_eq!(r.failure, None);
    assert_eq!(r.lines.len(), 10);
    for (i, line) in r.lines.iter().enumerate() {
        assert!(line.starts_with(&format!("Ref Number: REF{:03}. ", i + 1)));
    }
}

#[test]
fn report_of_exactly_ten_rows() {
    let r = render_report(&trips(10));
    assert_eq!(r.failure, None);
    assert_eq!(r.lines.len(), 10);
}

#[test]
fn report_of_three_rows_has_three_lines() {
    let r = render_report(&trips(3));
    assert_eq!(r.failure, None);
    assert_eq!(r.lines.len(), 3);
    assert!(r.lines[2].starts_with("Ref Number: REF003. "));
}

#[test]
fn report_of_no_rows_is_empty() {
    let r = render_report(&Vec::new());
    assert_eq!(r.failure, None);
    assert!(r.lines.is_empty());
}

#[test]
fn malformed_date_stops_the_report() {
    let mut ts = trips(5);
    ts[2].end_date = "2024-13-40".to_string();
    let r = render_report(&ts);
    assert_eq!(r.failure, Some(DateFailure { row: 2, error: DateError::EndDate }));
    assert_eq!(r.lines.len(), 2);
    assert!(r.lines[1].starts_with("Ref Number: REF002. "));
}

#[test]
fn malformed_date_after_the_limit_is_not_read() {
    let mut ts = trips(12);
    ts[11].start_date = "2024-13-40".to_string();
    let r = render_report(&ts);
    assert_eq!(r.failure, None);
    assert_eq!(r.lines.len(), 10);
}

#[test]
fn duration_is_antisymmetric() {
    assert_eq!(duration_between("2024-01-10", "2024-01-15"), Ok(5));
    assert_eq!(duration_between("2024-01-15", "2024-01-10"), Ok(-5));
    assert_eq!(duration_between("2023-12-25", "2024-03-01"), Ok(67));
    assert_eq!(duration_between("2024-03-01", "2023-12-25"), Ok(-67));
}

#[test]
fn duration_of_same_date_is_zero() {
    assert_eq!(duration_between("2024-02-29", "2024-02-29"), Ok(0));
    let t = trip("REF001", "2024-06-01", "2024-06-01", None);
    assert_eq!(t.calculate_duration(), 0);
}

#[test]
fn duration_crosses_leap_day_and_years() {
    assert_eq!(duration_between("2024-02-28", "2024-03-01"), Ok(2));
    assert_eq!(duration_between("2023-02-28", "2023-03-01"), Ok(1));
    assert_eq!(duration_between("2000-01-01", "2001-01-01"), Ok(366));
    assert_eq!(duration_between("1900-01-01", "1901-01-01"), Ok(365));
}

#[test]
fn duration_errors_name_the_bad_date() {
    assert_eq!(duration_between("2024-13-40", "2024-01-01"), Err(DateError::StartDate));
    assert_eq!(duration_between("2024-01-01", "2024-02-30"), Err(DateError::EndDate));
    assert_eq!(duration_between("", "2024-01-01"), Err(DateError::StartDate));
    assert_eq!(duration_between("2024-13-40", "garbage"), Err(DateError::StartDate));
    let t = trip("REF001", "2024-01-01", "not a date", None);
    assert_eq!(t.duration(), Err(DateError::EndDate));
    assert_eq!(t.render_line(), Err(DateError::EndDate));
}

#[test]
fn absent_total_shows_as_zero() {
    let t = trip("REF009", "2024-01-10", "2024-01-12", None);
    assert_eq!(t.total_display(), "0.00");
    assert!(t.render_line().unwrap().ends_with("Duration: 2 days. Total: $0.00"));
    assert_eq!(t.total, None);
}

#[test]
fn present_total_has_two_decimals() {
    let t = trip("REF010", "2024-01-10", "2024-01-10", Some(123450));
    assert_eq!(t.total_display(), "1234.50");
    assert!(t.render_line().unwrap().ends_with("Total: $1234.50"));
}

#[test]
fn amounts_in_cents_render_exactly() {
    assert_eq!(cents_to_string(0), "0.00");
    assert_eq!(cents_to_string(5), "0.05");
    assert_eq!(cents_to_string(65000), "650.00");
    assert_eq!(cents_to_string(-5), "-0.05");
    assert_eq!(cents_to_string(-123456), "-1234.56");
    assert_eq!(cents_to_string(i64::MAX), "92233720368547758.07");
    assert_eq!(cents_to_string(i64::MIN), "-92233720368547758.08");
}

#[test]
fn integers_render_in_decimal() {
    assert_eq!(int_to_string(0), "0");
    assert_eq!(int_to_string(7), "7");
    assert_eq!(int_to_string(-3), "-3");
    assert_eq!(int_to_string(1234567890), "1234567890");
    assert_eq!(int_to_string(i64::MIN), "-9223372036854775808");
    let t = trip("REF011", "2024-01-15", "2024-01-10", None);
    assert!(t.render_line().unwrap().contains("Duration: -5 days."));
}
