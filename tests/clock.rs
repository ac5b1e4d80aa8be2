use kernel_heap::date_time::DateTime;

fn clock(day: u8, month: u8, year: u16, hours: u8, minutes: u8, seconds: u8) -> DateTime {
    DateTime { day, month, year, hours, minutes, seconds }
}

fn fields(t: &DateTime) -> (u8, u8, u16, u8, u8, u8) {
    (t.day, t.month, t.year, t.hours, t.minutes, t.seconds)
}

#[test]
fn update_advances_one_second() {
    let mut t = clock(1, 1, 2025, 12, 0, 0);
    t.update();
    assert_eq!(fields(&t), (1, 1, 2025, 12, 0, 1));
}

#[test]
fn update_carries_into_minutes_and_hours() {
    let mut t = clock(1, 1, 2025, 12, 59, 59);
    t.update();
    assert_eq!(fields(&t), (1, 1, 2025, 13, 0, 0));
}

#[test]
fn update_carries_into_days_months_and_years() {
    let mut t = clock(31, 12, 2025, 23, 59, 59);
    t.update();
    assert_eq!(fields(&t), (1, 1, 2026, 0, 0, 0));

    let mut t = clock(28, 2, 2024, 23, 59, 59);
    t.update();
    assert_eq!(fields(&t), (29, 2, 2024, 0, 0, 0));
    t.hours = 23;
    t.minutes = 59;
    t.seconds = 59;
    t.update();
    assert_eq!(fields(&t), (1, 3, 2024, 0, 0, 0));

    let mut t = clock(28, 2, 1900, 23, 59, 59);
    t.update();
    assert_eq!(fields(&t), (1, 3, 1900, 0, 0, 0));

    let mut t = clock(28, 2, 2000, 23, 59, 59);
    t.update();
    assert_eq!(fields(&t), (29, 2, 2000, 0, 0, 0));

    let mut t = clock(30, 4, 2025, 23, 59, 59);
    t.update();
    assert_eq!(fields(&t), (1, 5, 2025, 0, 0, 0));
}

#[test]
fn set_time_validates() {
    let mut t = clock(1, 1, 2025, 12, 0, 0);
    assert_eq!(t.set_time(24, 0, 0), Err("Invalid time"));
    assert_eq!(t.set_time(0, 60, 0), Err("Invalid time"));
    assert_eq!(t.set_time(0, 0, 60), Err("Invalid time"));
    assert_eq!(fields(&t), (1, 1, 2025, 12, 0, 0));
    assert_eq!(t.set_time(23, 59, 59), Ok(()));
    assert_eq!(t.get_time(), (23, 59, 59));
}

#[test]
fn set_date_validates() {
    let mut t = clock(1, 1, 2025, 12, 0, 0);
    assert_eq!(t.set_date(1, 0, 2025), Err("Invalid month"));
    assert_eq!(t.set_date(1, 13, 2025), Err("Invalid month"));
    assert_eq!(t.set_date(0, 5, 2025), Err("Invalid day for given month/year"));
    assert_eq!(t.set_date(29, 2, 2025), Err("Invalid day for given month/year"));
    assert_eq!(t.set_date(31, 4, 2025), Err("Invalid day for given month/year"));
    assert_eq!(t.get_date(), (1, 1, 2025));
    assert_eq!(t.set_date(29, 2, 2024), Ok(()));
    assert_eq!(t.get_date(), (29, 2, 2024));
    assert_eq!(t.get_time(), (12, 0, 0));
}

#[test]
fn strings_are_zero_padded() {
    let t = clock(1, 1, 2025, 12, 0, 0);
    assert_eq!(t.now(), "01.01.2025 12:00:00");
    assert_eq!(t.time_string(), "12:00");
    assert_eq!(t.date_string(), "01.01.2025");
    let t = clock(9, 11, 987, 7, 5, 3);
    assert_eq!(t.now(), "09.11.0987 07:05:03");
    let t = clock(31, 12, 12345, 23, 59, 59);
    assert_eq!(t.date_string(), "31.12.12345");
    assert_eq!(t.now(), "31.12.12345 23:59:59");
}
