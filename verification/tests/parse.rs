use filegrid::parse::parse_u32;

#[test]
fn parses_plain_numbers() {
    assert_eq!(parse_u32("0"), Some(0));
    assert_eq!(parse_u32("4"), Some(4));
    assert_eq!(parse_u32("42"), Some(42));
    assert_eq!(parse_u32("10560"), Some(10560));
}

#[test]
fn parses_leading_plus_and_zeros() {
    assert_eq!(parse_u32("+12"), Some(12));
    assert_eq!(parse_u32("007"), Some(7));
    assert_eq!(parse_u32("+0"), Some(0));
}

#[test]
fn parses_extremes() {
    assert_eq!(parse_u32("4294967295"), Some(u32::MAX));
    assert_eq!(parse_u32("4294967296"), None);
    assert_eq!(parse_u32("99999999999999999999"), None);
}

#[test]
fn rejects_malformed_numerals() {
    assert_eq!(parse_u32(""), None);
    assert_eq!(parse_u32("+"), None);
    assert_eq!(parse_u32("-4"), None);
    assert_eq!(parse_u32("4a"), None);
    assert_eq!(parse_u32("a4"), None);
    assert_eq!(parse_u32("4 "), None);
    assert_eq!(parse_u32("++4"), None);
    assert_eq!(parse_u32("4.0"), None);
}

#[test]
fn agrees_with_std_parser() {
    let inputs = ["0", "42", "+42", "007", "4294967295", "4294967296", "", "+", "-1", "x"];
    for s in inputs {
        assert_eq!(parse_u32(s), s.parse::<u32>().ok(), "input {:?}", s);
    }
}
