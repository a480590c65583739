//! Operand lines: token splitting, the quit keyword, and numeral parsing.

use calculator::session::classify_operand_line;
use calculator::session::OperandLine;
use calculator::text::parse_u8;
use calculator::text::split_tokens;

#[test]
fn two_tokens_come_out_as_a_pair() {
    match classify_operand_line(b"3 4") {
        OperandLine::Pair(t1, t2) => {
            assert_eq!(t1, b"3".to_vec());
            assert_eq!(t2, b"4".to_vec());
            let a: f64 = std::str::from_utf8(&t1).unwrap().parse().unwrap();
            let b: f64 = std::str::from_utf8(&t2).unwrap().parse().unwrap();
            assert_eq!(a, 3.0);
            assert_eq!(b, 4.0);
        },
        other => panic!("expected a pair, got {:?}", other),
    }
}

#[test]
fn extra_whitespace_between_tokens_is_ignored() {
    match classify_operand_line(b"   -2.5\t\t7e1  ") {
        OperandLine::Pair(t1, t2) => {
            assert_eq!(t1, b"-2.5".to_vec());
            assert_eq!(t2, b"7e1".to_vec());
        },
        other => panic!("expected a pair, got {:?}", other),
    }
}

#[test]
fn one_token_is_a_wrong_count() {
    assert!(matches!(classify_operand_line(b"3"), OperandLine::WrongCount));
}

#[test]
fn three_tokens_are_a_wrong_count() {
    assert!(matches!(classify_operand_line(b"3 4 5"), OperandLine::WrongCount));
}

#[test]
fn empty_line_is_a_wrong_count() {
    assert!(matches!(classify_operand_line(b""), OperandLine::WrongCount));
    assert!(matches!(classify_operand_line(b"   "), OperandLine::WrongCount));
}

#[test]
fn non_numeric_tokens_still_come_out_as_a_pair() {
    // The split keeps the tokens; whether they parse as numbers is decided
    // afterwards, so "x 4" re-prompts citing the first token.
    match classify_operand_line(b"x 4") {
        OperandLine::Pair(t1, t2) => {
            assert_eq!(t1, b"x".to_vec());
            assert_eq!(t2, b"4".to_vec());
            assert!(std::str::from_utf8(&t1).unwrap().parse::<f64>().is_err());
            assert!(std::str::from_utf8(&t2).unwrap().parse::<f64>().is_ok());
        },
        other => panic!("expected a pair, got {:?}", other),
    }
}

#[test]
fn quit_keyword_quits_operand_entry() {
    assert!(matches!(classify_operand_line("выход".as_bytes()), OperandLine::Quit));
    assert!(matches!(classify_operand_line("ВЫХОД".as_bytes()), OperandLine::Quit));
    assert!(matches!(classify_operand_line(b"exit"), OperandLine::Quit));
    assert!(matches!(classify_operand_line(b"  EXIT  "), OperandLine::Quit));
}

#[test]
fn unicode_whitespace_separates_operands() {
    // A no-break space and a thin space split like an ASCII space.
    match classify_operand_line("3\u{a0}4".as_bytes()) {
        OperandLine::Pair(t1, t2) => {
            assert_eq!(t1, b"3".to_vec());
            assert_eq!(t2, b"4".to_vec());
        },
        other => panic!("expected a pair, got {:?}", other),
    }
    match classify_operand_line("\u{2009}1.5\u{2009}2.5\u{2009}".as_bytes()) {
        OperandLine::Pair(t1, t2) => {
            assert_eq!(t1, b"1.5".to_vec());
            assert_eq!(t2, b"2.5".to_vec());
        },
        other => panic!("expected a pair, got {:?}", other),
    }
}

#[test]
fn quit_keyword_with_a_second_token_is_not_a_quit() {
    assert!(matches!(classify_operand_line(b"exit 4"), OperandLine::Pair(_, _)));
}

#[test]
fn split_tokens_matches_whitespace_runs() {
    let ts = split_tokens(b" a  bb\tccc ");
    assert_eq!(ts, vec![b"a".to_vec(), b"bb".to_vec(), b"ccc".to_vec()]);
    let none: Vec<Vec<u8>> = Vec::new();
    assert_eq!(split_tokens(b"   "), none);
}

#[test]
fn u8_numerals_parse_to_their_value() {
    assert_eq!(parse_u8(b"0"), Some(0));
    assert_eq!(parse_u8(b"7"), Some(7));
    assert_eq!(parse_u8(b"007"), Some(7));
    assert_eq!(parse_u8(b"+25"), Some(25));
    assert_eq!(parse_u8(b"255"), Some(255));
}

#[test]
fn non_numerals_do_not_parse() {
    assert_eq!(parse_u8(b""), None);
    assert_eq!(parse_u8(b"+"), None);
    assert_eq!(parse_u8(b"-1"), None);
    assert_eq!(parse_u8(b"1.5"), None);
    assert_eq!(parse_u8(b"256"), None);
    assert_eq!(parse_u8(b"99999999999999999999"), None);
    assert_eq!(parse_u8(b"1 2"), None);
}
