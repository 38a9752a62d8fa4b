//! Trimming, length validation and integer parsing.

use howto_upload::errors::ValidationError;
use howto_upload::parse::parse_i32;
use howto_upload::validate::trim;
use howto_upload::validate::validate_length;
use howto_upload::validate::validate_title;

#[test]
fn validate_length_bounds() {
    assert_eq!(validate_length(80, 1, "a"), Ok(()));
    assert_eq!(validate_length(80, 1, ""), Err(ValidationError::TooShort));
    let eighty = "x".repeat(80);
    assert_eq!(validate_length(80, 1, &eighty), Ok(()));
    let eighty_one = "x".repeat(81);
    assert_eq!(validate_length(80, 1, &eighty_one), Err(ValidationError::TooLong));
}

#[test]
fn validate_title_trims_before_checking() {
    let padded = format!("   {}   ", "x".repeat(80));
    let r = validate_title(&padded);
    assert_eq!(r, Ok("x".repeat(80)));

    let too_long = format!(" {} ", "x".repeat(81));
    assert_eq!(validate_title(&too_long), Err(ValidationError::TooLong));

    assert_eq!(validate_title("      "), Err(ValidationError::TooShort));
    assert_eq!(validate_title(""), Err(ValidationError::TooShort));
    assert_eq!(validate_title("  Boil water  "), Ok(String::from("Boil water")));
}

#[test]
fn trim_matches_std() {
    let cases = [
        "",
        "   ",
        "a",
        "  a  ",
        "\t\n x \r\n",
        "\u{3000}wide\u{3000}",
        "\u{00A0}nbsp\u{00A0}",
        "inner  space kept",
        "\u{2009}thin",
    ];
    for s in cases {
        assert_eq!(trim(s), s.trim(), "trim differs on {:?}", s);
    }
}

#[test]
fn parse_i32_matches_std() {
    let cases = [
        "0",
        "7",
        "007",
        "+5",
        "-5",
        "2147483647",
        "-2147483648",
        "2147483648",
        "-2147483649",
        "99999999999999999999",
        "",
        "+",
        "-",
        "abc",
        "1a",
        " 1",
        "--1",
        "+-1",
        "1.5",
    ];
    for s in cases {
        assert_eq!(parse_i32(s), s.parse::<i32>().ok(), "parse differs on {:?}", s);
    }
}
