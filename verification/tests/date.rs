use certsd::date::{add_months, format_date, month_length, ts_lt, Date, Timestamp};

#[test]
fn month_lengths_and_leap_years() {
    assert_eq!(month_length(2020, 2), 29);
    assert_eq!(month_length(2021, 2), 28);
    assert_eq!(month_length(1900, 2), 28);
    assert_eq!(month_length(2000, 2), 29);
    assert_eq!(month_length(2024, 4), 30);
    assert_eq!(month_length(2024, 12), 31);
}

#[test]
fn add_months_clamps_to_month_end() {
    let d = Date { year: 2020, month: 1, day: 31 };
    assert_eq!(add_months(&d, 1), Date { year: 2020, month: 2, day: 29 });
    assert_eq!(add_months(&d, 13), Date { year: 2021, month: 2, day: 28 });
    assert_eq!(add_months(&d, 2), Date { year: 2020, month: 3, day: 31 });
}

#[test]
fn add_months_rolls_over_years() {
    let d = Date { year: 2023, month: 11, day: 15 };
    assert_eq!(add_months(&d, 2), Date { year: 2024, month: 1, day: 15 });
    assert_eq!(add_months(&d, 0), d);
    assert_eq!(add_months(&d, 26), Date { year: 2026, month: 1, day: 15 });
}

#[test]
fn timestamp_order_is_lexicographic() {
    let base = Timestamp { date: Date { year: 2024, month: 5, day: 10 }, second_of_day: 3600 };
    let later_second = Timestamp { date: base.date, second_of_day: 3601 };
    let later_day = Timestamp {
        date: Date { year: 2024, month: 5, day: 11 },
        second_of_day: 0,
    };
    assert!(ts_lt(&base, &later_second));
    assert!(ts_lt(&base, &later_day));
    assert!(!ts_lt(&later_day, &base));
    assert!(!ts_lt(&base, &base));
}

#[test]
fn format_date_is_zero_padded() {
    assert_eq!(format_date(&Date { year: 2024, month: 5, day: 9 }), "2024-05-09");
    assert_eq!(format_date(&Date { year: 987, month: 12, day: 31 }), "0987-12-31");
}
