use tally::text::render_amount;
use tally::timestamp::Timestamp;

#[test]
fn timestamp_renders_zero_padded() {
    let t = Timestamp::new(29, 6, 2023, 0, 0, 0).unwrap();
    assert_eq!(t.render(), "29/06/2023 00:00:00");
}

#[test]
fn timestamp_renders_all_fields() {
    let t = Timestamp::new(1, 12, 987, 23, 5, 9).unwrap();
    assert_eq!(t.render(), "01/12/0987 23:05:09");
}

#[test]
fn amount_column_has_fixed_width() {
    let a = render_amount(4802);
    let b = render_amount(750);
    assert_eq!(a, "            48.02");
    assert_eq!(b, "             7.50");
    assert_eq!(a.chars().count(), 17);
    assert_eq!(b.chars().count(), 17);
    assert_eq!(a.chars().nth(14), Some('.'));
    assert_eq!(b.chars().nth(14), Some('.'));
}

#[test]
fn amount_column_small_values_keep_the_point_position() {
    assert_eq!(render_amount(0), "              . 0");
    assert_eq!(render_amount(5), "              . 5");
    assert_eq!(render_amount(42), "              .42");
    assert_eq!(render_amount(100), "             1.00");
}

#[test]
fn amount_column_widens_past_sixteen_digits() {
    assert_eq!(render_amount(u64::MAX), "184467440737095516.15");
    assert_eq!(render_amount(9_999_999_999_999_999), "99999999999999.99");
}

#[test]
fn timestamp_new_rejects_invalid_fields() {
    assert!(Timestamp::new(31, 2, 2023, 0, 0, 0).is_none());
    assert!(Timestamp::new(29, 2, 2023, 0, 0, 0).is_none());
    assert!(Timestamp::new(0, 1, 2023, 0, 0, 0).is_none());
    assert!(Timestamp::new(1, 0, 2023, 0, 0, 0).is_none());
    assert!(Timestamp::new(1, 13, 2023, 0, 0, 0).is_none());
    assert!(Timestamp::new(1, 1, 0, 0, 0, 0).is_none());
    assert!(Timestamp::new(1, 1, 2023, 24, 0, 0).is_none());
    assert!(Timestamp::new(1, 1, 2023, 0, 60, 0).is_none());
    assert!(Timestamp::new(1, 1, 2023, 0, 0, 60).is_none());
    assert!(Timestamp::new(31, 4, 2023, 0, 0, 0).is_none());
}

#[test]
fn timestamp_new_accepts_leap_days() {
    assert!(Timestamp::new(29, 2, 2024, 0, 0, 0).is_some());
    assert!(Timestamp::new(29, 2, 2000, 0, 0, 0).is_some());
    assert!(Timestamp::new(29, 2, 1900, 0, 0, 0).is_none());
    assert!(Timestamp::new(31, 12, 9999, 23, 59, 59).is_some());
}
