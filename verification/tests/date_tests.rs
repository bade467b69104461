use sitegen::date::{date_key_num, parse_date, rfc3339_midnight, Date};

#[test]
fn parses_a_plain_date() {
    assert_eq!(parse_date("2024-01-05"), Some(Date { year: 2024, month: 1, day: 5 }));
}

#[test]
fn rejects_wrong_shapes() {
    assert_eq!(parse_date(""), None);
    assert_eq!(parse_date("2024-1-5"), None);
    assert_eq!(parse_date("2024/01/05"), None);
    assert_eq!(parse_date("2024-01-05x"), None);
    assert_eq!(parse_date("24-01-05"), None);
}

#[test]
fn rejects_impossible_days() {
    assert_eq!(parse_date("2024-13-01"), None);
    assert_eq!(parse_date("2024-00-10"), None);
    assert_eq!(parse_date("2024-04-31"), None);
    assert_eq!(parse_date("2024-01-00"), None);
    assert_eq!(parse_date("2024-02-30"), None);
}

#[test]
fn knows_leap_years() {
    assert_eq!(parse_date("2024-02-29"), Some(Date { year: 2024, month: 2, day: 29 }));
    assert_eq!(parse_date("2023-02-29"), None);
    assert_eq!(parse_date("2000-02-29"), Some(Date { year: 2000, month: 2, day: 29 }));
    assert_eq!(parse_date("1900-02-29"), None);
}

#[test]
fn renders_midnight_utc() {
    let d = Date { year: 2024, month: 1, day: 5 };
    assert_eq!(rfc3339_midnight(&d), "2024-01-05T00:00:00+00:00");
    let d2 = Date { year: 987, month: 12, day: 31 };
    assert_eq!(rfc3339_midnight(&d2), "0987-12-31T00:00:00+00:00");
}

#[test]
fn orders_dates_by_key() {
    let a = Date { year: 2024, month: 1, day: 5 };
    let b = Date { year: 2024, month: 1, day: 6 };
    let c = Date { year: 2023, month: 12, day: 31 };
    assert!(date_key_num(&b) > date_key_num(&a));
    assert!(date_key_num(&a) > date_key_num(&c));
}
