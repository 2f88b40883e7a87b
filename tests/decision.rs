use radar_runner::calendar::is_weekday;
use radar_runner::{in_window, is_business_day, should_run, Date};

fn date(y: i32, m: u32, d: u32) -> Date {
    Date::new(y, m, d).unwrap()
}

fn holidays() -> Vec<String> {
    vec!["2025-01-01".to_string(), "2025-12-24".to_string(), "2025-12-25".to_string()]
}

#[test]
fn christmas_holiday_is_not_business_day() {
    let d = date(2025, 12, 25);
    assert!(is_weekday(&d));
    assert!(!is_business_day(&d, &holidays()));
    assert!(is_business_day(&d, &[]));
}

#[test]
fn weekend_is_never_business_day() {
    let sat = date(2025, 12, 27);
    let sun = date(2025, 12, 28);
    assert!(!is_business_day(&sat, &[]));
    assert!(!is_business_day(&sun, &[]));
    assert!(!is_business_day(&sat, &holidays()));
}

#[test]
fn ordinary_weekdays_are_business_days() {
    assert!(is_business_day(&date(2025, 12, 22), &holidays()));
    assert!(is_business_day(&date(2025, 12, 26), &holidays()));
    assert!(is_business_day(&date(2024, 2, 29), &[]));
    assert!(is_business_day(&date(2000, 2, 29), &[]));
}

#[test]
fn holiday_text_must_match_exactly() {
    let d = date(2025, 1, 2);
    let near = vec!["2025-1-2".to_string(), "2025-01-02 ".to_string()];
    assert!(is_business_day(&d, &near));
    let exact = vec!["2025-01-02".to_string()];
    assert!(!is_business_day(&d, &exact));
}

#[test]
fn invalid_dates_are_rejected() {
    assert!(Date::new(2025, 2, 29).is_none());
    assert!(Date::new(1900, 2, 29).is_none());
    assert!(Date::new(2025, 13, 1).is_none());
    assert!(Date::new(2025, 4, 31).is_none());
    assert!(Date::new(2025, 1, 0).is_none());
    assert!(Date::new(0, 1, 1).is_none());
    assert!(Date::new(10000, 1, 1).is_none());
    assert_eq!(Date::new(2024, 2, 29), Some(Date { year: 2024, month: 2, day: 29 }));
}

#[test]
fn window_upper_bound_is_inclusive() {
    assert!(in_window(20, 10, 20));
    assert!(!in_window(21, 10, 20));
}

#[test]
fn window_lower_bound_is_inclusive() {
    assert!(in_window(10, 10, 20));
    assert!(!in_window(9, 10, 20));
    assert!(in_window(15, 10, 20));
}

#[test]
fn reversed_window_holds_no_hour() {
    for h in 0..24 {
        assert!(!in_window(h, 20, 10));
    }
    assert!(in_window(7, 7, 7));
}

#[test]
fn force_runs_on_saturday_night() {
    let sat = date(2025, 12, 27);
    assert!(should_run(true, &sat, 3, &holidays(), 10, 20));
}

#[test]
fn force_runs_on_holiday_outside_window() {
    let d = date(2025, 12, 25);
    assert!(should_run(true, &d, 23, &holidays(), 10, 20));
}

#[test]
fn unforced_run_needs_business_day_and_window() {
    let hol = holidays();
    let thu = date(2025, 12, 25);
    let fri = date(2025, 12, 26);
    let sat = date(2025, 12, 27);
    assert!(should_run(false, &fri, 12, &hol, 10, 20));
    assert!(!should_run(false, &fri, 21, &hol, 10, 20));
    assert!(!should_run(false, &thu, 12, &hol, 10, 20));
    assert!(!should_run(false, &sat, 12, &hol, 10, 20));
    for h in 0..24 {
        for d in [thu, fri, sat] {
            assert_eq!(
                should_run(false, &d, h, &hol, 10, 20),
                is_business_day(&d, &hol) && in_window(h, 10, 20)
            );
        }
    }
}
