use psrec::convert_time_period_string_to_ms;

#[test]
fn test_convert_time_period_string_01_ms() {
    assert_eq!(convert_time_period_string_to_ms("42ms"), Some((42, "42 ms".into())));

    assert_eq!(convert_time_period_string_to_ms("100ms"), Some((100, "100 ms".into())));
}

#[test]
fn test_convert_time_period_string_02_secs() {
    assert_eq!(convert_time_period_string_to_ms("42"), Some((42 * 1000, "42 secs".into())));

    assert_eq!(convert_time_period_string_to_ms("42s"), Some((42 * 1000, "42 secs".into())));

    assert_eq!(convert_time_period_string_to_ms("1"), Some((1 * 1000, "1 sec".into())));
    assert_eq!(convert_time_period_string_to_ms("5"), Some((5 * 1000, "5 secs".into())));
}

#[test]
fn test_convert_time_period_string_03_mins() {
    assert_eq!(convert_time_period_string_to_ms("1m"), Some((60 * 1000, "1 min".into())));
    assert_eq!(convert_time_period_string_to_ms("3m"), Some((180 * 1000, "3 mins".into())));
}

#[test]
fn test_convert_time_period_string_04_hours() {
    assert_eq!(convert_time_period_string_to_ms("1h"), Some((60 * 60 * 1000, "1 hour".into())));
    assert_eq!(convert_time_period_string_to_ms("3h"), Some((180 * 60 * 1000, "3 hours".into())));
}

#[test]
fn test_convert_time_period_string_05_invalid() {
    assert_eq!(convert_time_period_string_to_ms("h"), None);
    assert_eq!(convert_time_period_string_to_ms(""), None);
    assert_eq!(convert_time_period_string_to_ms("ms"), None);
    assert_eq!(convert_time_period_string_to_ms("3345nk"), None);
}

#[test]
fn period_zero_is_rejected() {
    assert_eq!(convert_time_period_string_to_ms("0"), None);
    assert_eq!(convert_time_period_string_to_ms("0ms"), None);
    assert_eq!(convert_time_period_string_to_ms("000s"), None);
}

#[test]
fn period_with_plus_sign_and_leading_zeros() {
    assert_eq!(convert_time_period_string_to_ms("+5s"), Some((5000, "5 secs".into())));
    assert_eq!(convert_time_period_string_to_ms("007ms"), Some((7, "7 ms".into())));
    assert_eq!(convert_time_period_string_to_ms("+"), None);
    assert_eq!(convert_time_period_string_to_ms("+ms"), None);
    assert_eq!(convert_time_period_string_to_ms("-5s"), None);
}

#[test]
fn period_malformed_forms_are_rejected() {
    assert_eq!(convert_time_period_string_to_ms("5 s"), None);
    assert_eq!(convert_time_period_string_to_ms("5S"), None);
    assert_eq!(convert_time_period_string_to_ms("s5"), None);
    assert_eq!(convert_time_period_string_to_ms("4m2"), None);
    assert_eq!(convert_time_period_string_to_ms("5\u{4eac}"), None);
    assert_eq!(convert_time_period_string_to_ms("5d"), None);
}

#[test]
fn period_overflow_is_rejected() {
    assert_eq!(convert_time_period_string_to_ms("18446744073709551615ms"), Some((u64::MAX, "18446744073709551615 ms".into())));
    assert_eq!(convert_time_period_string_to_ms("18446744073709551616ms"), None);
    assert_eq!(convert_time_period_string_to_ms("18446744073709551615s"), None);
    assert_eq!(convert_time_period_string_to_ms("99999999999999999999999"), None);
    assert_eq!(convert_time_period_string_to_ms("5124095576030h"), Some((18446744073708000000, "5124095576030 hours".into())));
    assert_eq!(convert_time_period_string_to_ms("5124095576031h"), None);
    assert_eq!(convert_time_period_string_to_ms("18446744073709551s"), Some((18446744073709551000, "18446744073709551 secs".into())));
}
