use patisserie::duration::{parse_duration, DurationError, ONE_HUNDRED_YEARS};
use patisserie::text::decimal_string;

fn minutes(s: &str) -> u32 {
    match parse_duration(s) {
        Ok(m) => m,
        Err(e) => panic!("`{}' was refused: {}", s, e.message()),
    }
}

fn is_too_long(s: &str) -> bool {
    match parse_duration(s) {
        Err(DurationError::TooLong { input }) => input == s,
        _ => false,
    }
}

fn bad_unit(s: &str) -> String {
    match parse_duration(s) {
        Err(DurationError::InvalidFormat { unit }) => unit,
        other => panic!("expected an unknown unit, got {:?}", other),
    }
}

#[test]
fn one_day_is_1440_minutes() {
    assert_eq!(minutes("1d"), 1440);
}

#[test]
fn two_hours_are_120_minutes() {
    assert_eq!(minutes("2h"), 120);
}

#[test]
fn bare_digits_are_minutes() {
    assert_eq!(minutes("90"), 90);
}

#[test]
fn one_year_is_525600_minutes() {
    assert_eq!(minutes("1y"), 525_600);
}

#[test]
fn every_unit_has_its_scale() {
    assert_eq!(minutes("3m"), 3);
    assert_eq!(minutes("3h"), 180);
    assert_eq!(minutes("3d"), 4_320);
    assert_eq!(minutes("3w"), 30_240);
    assert_eq!(minutes("3mo"), 129_600);
    assert_eq!(minutes("3y"), 1_576_800);
}

#[test]
fn month_is_read_as_one_unit() {
    assert_eq!(minutes("2mo"), 86_400);
    assert_eq!(bad_unit("2om"), "om");
    assert_eq!(bad_unit("2mm"), "mm");
    assert_eq!(bad_unit("2mon"), "mon");
}

#[test]
fn hundred_and_one_years_are_too_long() {
    assert!(is_too_long("101y"));
}

#[test]
fn hundred_years_are_the_limit() {
    assert_eq!(minutes("100y"), ONE_HUNDRED_YEARS);
    assert_eq!(minutes("52560000"), 52_560_000);
    assert_eq!(minutes("52560000m"), 52_560_000);
    assert!(is_too_long("52560001"));
    assert!(is_too_long("36501d"));
    assert_eq!(minutes("36500d"), 52_560_000);
}

#[test]
fn amounts_beyond_the_machine_word_are_too_long() {
    assert!(is_too_long("4294967296"));
    assert!(is_too_long("4294967296h"));
    assert!(is_too_long("99999999999999999999999999999999999999y"));
    assert!(is_too_long("8172y"));
}

#[test]
fn unknown_unit_is_named() {
    assert_eq!(bad_unit("5x"), "x");
    assert_eq!(bad_unit("5 m"), " m");
    assert_eq!(bad_unit("1d2"), "d2");
    assert_eq!(bad_unit("5H"), "H");
    assert_eq!(bad_unit("7\u{e9}"), "\u{e9}");
    assert_eq!(bad_unit("99999999999999999999x"), "x");
}

#[test]
fn missing_amount_is_refused() {
    assert!(matches!(parse_duration(""), Err(DurationError::EmptyAmount)));
    assert!(matches!(parse_duration("h"), Err(DurationError::EmptyAmount)));
    assert!(matches!(parse_duration("x"), Err(DurationError::EmptyAmount)));
    assert!(matches!(parse_duration("-5m"), Err(DurationError::EmptyAmount)));
}

#[test]
fn zero_is_accepted() {
    assert_eq!(minutes("0"), 0);
    assert_eq!(minutes("0y"), 0);
    assert_eq!(minutes("000"), 0);
}

#[test]
fn leading_zeros_do_not_count() {
    assert_eq!(minutes("007h"), 420);
    assert_eq!(minutes("0000000000000000000000001d"), 1440);
}

#[test]
fn rewritten_amount_lasts_as_long() {
    for (digits, unit, amount) in [("0012", "h", 12u32), ("100", "y", 100), ("05", "mo", 5), ("1", "w", 1)] {
        let first = minutes(&format!("{}{}", digits, unit));
        let again = minutes(&format!("{}{}", decimal_string(amount), unit));
        assert_eq!(first, again);
    }
}

#[test]
fn duration_messages() {
    let e = parse_duration("5x").unwrap_err();
    assert_eq!(
        e.message(),
        "Unknown unit `x'; expected one of `m', `h', `d', `w', `mo', or `y'"
    );
    let e = parse_duration("101y").unwrap_err();
    assert_eq!(e.message(), "Duration `101y' is too long; maximum duration is 100y");
    let e = parse_duration("").unwrap_err();
    assert_eq!(e.message(), "Duration does not start with a number");
}
