use std::str::FromStr;
use tictactoe::moves::{coordinate, InvalidMoveFormat, Move};

#[test]
fn parse_one_based_pair() {
    assert_eq!(Move::parse("2 3\n"), Ok(Move(1, 2)));
    assert_eq!(Move::parse("1 1\n"), Ok(Move(0, 0)));
    assert_eq!(Move::parse("3 3\n"), Ok(Move(2, 2)));
}

#[test]
fn parse_rejects_out_of_range_and_malformed() {
    assert_eq!(Move::parse("0 2\n"), Err(InvalidMoveFormat));
    assert_eq!(Move::parse("4 1\n"), Err(InvalidMoveFormat));
    assert_eq!(Move::parse("abc\n"), Err(InvalidMoveFormat));
    assert_eq!(Move::parse("2\n"), Err(InvalidMoveFormat));
}

#[test]
fn parse_rejects_extra_tokens_and_missing_newline() {
    assert_eq!(Move::parse("2 3 1\n"), Err(InvalidMoveFormat));
    assert_eq!(Move::parse("2 3"), Err(InvalidMoveFormat));
    assert_eq!(Move::parse(""), Err(InvalidMoveFormat));
    assert_eq!(Move::parse("\n"), Err(InvalidMoveFormat));
    assert_eq!(Move::parse("2 x\n"), Err(InvalidMoveFormat));
    assert_eq!(Move::parse("-1 2\n"), Err(InvalidMoveFormat));
    assert_eq!(Move::parse("99999999999 2\n"), Err(InvalidMoveFormat));
}

#[test]
fn parse_accepts_spacing_signs_and_zeros() {
    assert_eq!(Move::parse("  3\t 1 \r\n"), Ok(Move(2, 0)));
    assert_eq!(Move::parse("+2 03\n"), Ok(Move(1, 2)));
}

#[test]
fn from_str_matches_parse() {
    assert_eq!(Move::from_str("2 3\n"), Ok(Move(1, 2)));
    assert_eq!(Move::from_str("2\n"), Err(InvalidMoveFormat));
    assert_eq!(Move::from_str("0 2\n"), Err(InvalidMoveFormat));
    assert_eq!(Move::from_str("4 1\n"), Err(InvalidMoveFormat));
    assert_eq!(Move::from_str("abc\n"), Err(InvalidMoveFormat));
    assert_eq!(Move::from_str("1 2 3\n"), Err(InvalidMoveFormat));
    assert_eq!(Move::from_str("1 1\n"), Ok(Move(0, 0)));
    assert_eq!(Move::from_str("3 3\n"), Ok(Move(2, 2)));
}

#[test]
fn parse_splits_on_unicode_whitespace() {
    assert_eq!(Move::parse("2\u{A0}3\n"), Ok(Move(1, 2)));
    assert_eq!(Move::parse("1\u{3000}\u{2003}2\u{85}\n"), Ok(Move(0, 1)));
    assert_eq!(Move::parse("1\u{200B}2\n"), Err(InvalidMoveFormat));
}

#[test]
fn coordinate_reads_numbers() {
    assert_eq!(coordinate("1"), Some(0));
    assert_eq!(coordinate("3"), Some(2));
    assert_eq!(coordinate("+2"), Some(1));
    assert_eq!(coordinate("4"), None);
    assert_eq!(coordinate("0"), None);
    assert_eq!(coordinate("-"), None);
    assert_eq!(coordinate("1-"), None);
    assert_eq!(coordinate(""), None);
    assert_eq!(coordinate("2a"), None);
}
