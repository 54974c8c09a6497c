use engine::calendar::{date_stamp, ymd_from_days};

#[test]
fn civil_date_from_days_is_correct() {
    assert_eq!(ymd_from_days(0), (1970, 1, 1));
    assert_eq!(ymd_from_days(31), (1970, 2, 1));
    assert_eq!(ymd_from_days(59), (1970, 3, 1)); // 1970 is not a leap year
    assert_eq!(ymd_from_days(365), (1971, 1, 1));
}

#[test]
fn leap_days_and_century_rules() {
    // 2000 is a leap year (divisible by 400): 2000-02-29 exists.
    assert_eq!(ymd_from_days(11_016), (2000, 2, 29));
    assert_eq!(ymd_from_days(11_017), (2000, 3, 1));
    // 2100 is not a leap year (divisible by 100, not 400).
    assert_eq!(ymd_from_days(47_540), (2100, 2, 28));
    assert_eq!(ymd_from_days(47_541), (2100, 3, 1));
    // 2024 is a leap year.
    assert_eq!(ymd_from_days(19_782), (2024, 2, 29));
    assert_eq!(ymd_from_days(19_723), (2024, 1, 1));
}

#[test]
fn days_before_the_epoch() {
    assert_eq!(ymd_from_days(-1), (1969, 12, 31));
    assert_eq!(ymd_from_days(-719_468), (0, 3, 1));
    assert_eq!(ymd_from_days(-719_469), (0, 2, 29));
}

#[test]
fn date_stamp_is_zero_padded() {
    assert_eq!(date_stamp(0), "1970-01-01");
    assert_eq!(date_stamp(86_399), "1970-01-01");
    assert_eq!(date_stamp(86_400 * 19_782 + 5), "2024-02-29");
    assert_eq!(date_stamp(1_000_000_000), "2001-09-09");
}
