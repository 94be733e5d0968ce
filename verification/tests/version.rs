use python_finder::version::{is_suitable, parse_version, Field, VersionError};

#[test]
fn test_parse_version() {
    assert!(matches!(parse_version(""), Err(_)));
    assert!(matches!(parse_version("1."), Err(_)));
    assert!(matches!(parse_version("1.2"), Ok((1, 2))));
    assert!(matches!(parse_version("1.2.3.4"), Ok((1, 2))));
    assert!(matches!(parse_version("12.34"), Ok((12, 34))));
    assert!(matches!(parse_version("3.14rc1"), Ok((3, 14))));
}

#[test]
fn two_numerals_give_the_version() {
    assert_eq!(parse_version("1.2"), Ok((1, 2)));
    assert_eq!(parse_version("12.34"), Ok((12, 34)));
    assert_eq!(parse_version("3.14rc1"), Ok((3, 14)));
    assert_eq!(parse_version("1.2.3.4"), Ok((1, 2)));
    assert_eq!(parse_version("3-7"), Ok((3, 7)));
    assert_eq!(parse_version("3 7"), Ok((3, 7)));
    assert_eq!(parse_version("3x7"), Ok((3, 7)));
}

#[test]
fn what_follows_the_minor_number_is_ignored() {
    assert_eq!(
        parse_version("3.11.4 (main, Jun  7 2023, 10:13:09) [GCC 12.2.0]"),
        Ok((3, 11))
    );
    assert_eq!(parse_version("3.8+"), Ok((3, 8)));
    assert_eq!(parse_version("3.8.99999999999999999999"), Ok((3, 8)));
    assert_eq!(parse_version("3.8\u{e9}"), Ok((3, 8)));
}

#[test]
fn leading_zeros_do_not_count() {
    assert_eq!(parse_version("003.0011"), Ok((3, 11)));
    assert_eq!(parse_version("0.0"), Ok((0, 0)));
    assert_eq!(parse_version("00000000000000000000003.3"), Ok((3, 3)));
}

#[test]
fn a_text_without_digits_has_an_empty_major_number() {
    assert_eq!(parse_version(""), Err(VersionError::Empty(Field::Major)));
    assert_eq!(parse_version("."), Err(VersionError::Empty(Field::Major)));
    assert_eq!(parse_version("v3.8"), Err(VersionError::Empty(Field::Major)));
    assert_eq!(parse_version(" 3.8"), Err(VersionError::Empty(Field::Major)));
    assert_eq!(parse_version("-3.8"), Err(VersionError::Empty(Field::Major)));
    assert_eq!(parse_version("+3.8"), Err(VersionError::Empty(Field::Major)));
}

#[test]
fn a_text_that_ends_with_the_major_number_has_no_minor_number() {
    assert_eq!(parse_version("1"), Err(VersionError::MissingMinor));
    assert_eq!(parse_version("311"), Err(VersionError::MissingMinor));
}

#[test]
fn a_second_piece_without_digits_is_an_empty_minor_number() {
    assert_eq!(parse_version("1."), Err(VersionError::Empty(Field::Minor)));
    assert_eq!(parse_version("1..2"), Err(VersionError::Empty(Field::Minor)));
    assert_eq!(parse_version("3.x"), Err(VersionError::Empty(Field::Minor)));
    assert_eq!(parse_version("3. 8"), Err(VersionError::Empty(Field::Minor)));
}

#[test]
fn numbers_are_held_in_32_bits() {
    assert_eq!(
        parse_version("4294967295.4294967295"),
        Ok((4294967295, 4294967295))
    );
    assert_eq!(
        parse_version("4294967296.0"),
        Err(VersionError::TooLarge(Field::Major))
    );
    assert_eq!(
        parse_version("0.4294967296"),
        Err(VersionError::TooLarge(Field::Minor))
    );
    assert_eq!(
        parse_version("99999999999999999999999999.1"),
        Err(VersionError::TooLarge(Field::Major))
    );
    assert_eq!(
        parse_version("3.42949672950"),
        Err(VersionError::TooLarge(Field::Minor))
    );
}

#[test]
fn the_major_number_is_judged_first() {
    assert_eq!(
        parse_version("4294967296"),
        Err(VersionError::TooLarge(Field::Major))
    );
    assert_eq!(
        parse_version("4294967296."),
        Err(VersionError::TooLarge(Field::Major))
    );
    assert_eq!(parse_version(".4294967296"), Err(VersionError::Empty(Field::Major)));
}

#[test]
fn only_the_ten_decimal_digits_are_digits() {
    // An Arabic-Indic digit and a full-width digit cut the text like any
    // other character.
    assert_eq!(parse_version("3\u{0663}8"), Ok((3, 8)));
    assert_eq!(parse_version("3.\u{ff18}"), Err(VersionError::Empty(Field::Minor)));
    assert_eq!(parse_version("3/8"), Ok((3, 8)));
    assert_eq!(parse_version("3:8"), Ok((3, 8)));
}

#[test]
fn python_3_from_3_3_on_is_suitable() {
    assert!(is_suitable(3, 3));
    assert!(is_suitable(3, 11));
    assert!(is_suitable(3, 4294967295));
    assert!(!is_suitable(3, 2));
    assert!(!is_suitable(3, 0));
    assert!(!is_suitable(2, 9));
    assert!(!is_suitable(4, 0));
    assert!(!is_suitable(0, 3));
    assert!(!is_suitable(4, 3));
}
