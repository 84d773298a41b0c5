use four_in_a_row::game::copy_of;
use four_in_a_row::number::{is_decimal_digit, parse_number};

fn chars(s: &str) -> Vec<char> {
    s.chars().collect()
}

#[test]
fn digits_are_read_in_base_ten() {
    assert_eq!(parse_number(&chars("0")), Some(0));
    assert_eq!(parse_number(&chars("7")), Some(7));
    assert_eq!(parse_number(&chars("42")), Some(42));
    assert_eq!(parse_number(&chars("1905")), Some(1905));
    assert_eq!(parse_number(&chars("00012")), Some(12));
}

#[test]
fn an_empty_entry_is_no_number() {
    assert_eq!(parse_number(&chars("")), None);
}

#[test]
fn other_characters_make_no_number() {
    assert_eq!(parse_number(&chars("4a")), None);
    assert_eq!(parse_number(&chars("-4")), None);
    assert_eq!(parse_number(&chars(" 4")), None);
    assert_eq!(parse_number(&chars("4.0")), None);
}

#[test]
fn the_largest_word_is_read_and_the_next_number_is_not() {
    let max = format!("{}", usize::MAX);
    assert_eq!(parse_number(&chars(&max)), Some(usize::MAX));
    let mut next: Vec<char> = chars(&max);
    let last = next.pop().unwrap();
    assert_eq!(last, '5');
    next.push('6');
    assert_eq!(parse_number(&next), None);
    let mut longer: Vec<char> = chars(&max);
    longer.push('0');
    assert_eq!(parse_number(&longer), None);
}

#[test]
fn leading_zeros_never_overflow() {
    let mut entry: Vec<char> = vec!['0'; 60];
    entry.push('5');
    assert_eq!(parse_number(&entry), Some(5));
}

#[test]
fn parse_number_agrees_with_the_standard_parser_on_digits() {
    for s in ["", "0", "1", "7", "8", "10", "077", "123456789", "99999999999999999999999"] {
        let expected: Option<usize> = s.parse().ok();
        assert_eq!(parse_number(&chars(s)), expected);
    }
}

#[test]
fn decimal_digits_are_zero_to_nine() {
    for c in "0123456789".chars() {
        assert!(is_decimal_digit(c));
    }
    for c in ['a', 'q', ' ', '/', ':', '+', '-', '\u{663}'] {
        assert!(!is_decimal_digit(c));
    }
}

#[test]
fn a_copy_holds_the_same_items() {
    assert_eq!(copy_of(&vec!['1', '2', '3']), vec!['1', '2', '3']);
    assert_eq!(copy_of(&Vec::<u8>::new()), Vec::<u8>::new());
}
