use build_runner::text::{chars_of, find, is_within, matches_at, parse_number};

fn chars(text: &str) -> Vec<char> {
    text.chars().collect()
}

#[test]
fn chars_of_keeps_every_character() {
    assert_eq!(chars_of(""), Vec::<char>::new());
    assert_eq!(chars_of("a\u{e9}\u{4e2d}z"), vec!['a', '\u{e9}', '\u{4e2d}', 'z']);
}

#[test]
fn find_gives_leftmost_position() {
    assert_eq!(find(&chars("abcabc"), &chars("bc")), Some(1));
    assert_eq!(find(&chars("abcabc"), &chars("abc")), Some(0));
    assert_eq!(find(&chars("aaab"), &chars("aab")), Some(1));
    assert_eq!(find(&chars("abc"), &chars("c")), Some(2));
    assert_eq!(find(&chars("abc"), &chars("abcd")), None);
    assert_eq!(find(&chars("abc"), &chars("ca")), None);
}

#[test]
fn empty_needle_is_found_at_the_start() {
    assert_eq!(find(&chars("abc"), &chars("")), Some(0));
    assert_eq!(find(&chars(""), &chars("")), Some(0));
    assert!(is_within(&chars(""), &chars("")));
    assert!(!is_within(&chars("a"), &chars("")));
}

#[test]
fn is_within_agrees_with_std() {
    let hays = ["", "a", "BUILD SUCCESSFUL", "xxBUILD SUCCESSFULyy", "BUILD  SUCCESSFUL", "\u{e9}t\u{e9}"];
    let needles = ["", "a", "BUILD SUCCESSFUL", "SS", "t\u{e9}", "yy"];
    for hay in hays {
        for needle in needles {
            assert_eq!(is_within(&chars(needle), &chars(hay)), hay.contains(needle));
        }
    }
}

#[test]
fn matches_at_checks_one_position() {
    assert!(matches_at(&chars("hello"), &chars("ll"), 2));
    assert!(!matches_at(&chars("hello"), &chars("ll"), 1));
    assert!(matches_at(&chars("hello"), &chars(""), 5));
}

#[test]
fn parse_number_reads_decimal_digits() {
    assert_eq!(parse_number(&chars("0")), Some(0));
    assert_eq!(parse_number(&chars("12")), Some(12));
    assert_eq!(parse_number(&chars("000123")), Some(123));
    assert_eq!(parse_number(&chars("18446744073709551616")), Some(1u128 << 64));
    assert_eq!(parse_number(&chars("340282366920938463463374607431768211455")), Some(u128::MAX));
    assert_eq!(parse_number(&chars("00340282366920938463463374607431768211455")), Some(u128::MAX));
}

#[test]
fn parse_number_rejects_the_rest() {
    assert_eq!(parse_number(&chars("")), None);
    assert_eq!(parse_number(&chars("340282366920938463463374607431768211456")), None);
    assert_eq!(parse_number(&chars("999999999999999999999999999999999999999")), None);
    assert_eq!(parse_number(&chars("34028236692093846346337460743176821145500")), None);
    assert_eq!(parse_number(&chars("-1")), None);
    assert_eq!(parse_number(&chars("1.5")), None);
    assert_eq!(parse_number(&chars("12a")), None);
    assert_eq!(parse_number(&chars(" 12")), None);
    assert_eq!(parse_number(&chars("\u{0661}\u{0662}")), None);
}

#[test]
fn matches_at_beyond_the_end() {
    assert!(!matches_at(&chars("abc"), &chars("c"), 3));
    assert!(!matches_at(&chars("abc"), &chars("bc"), 2));
    assert!(!matches_at(&chars("abc"), &chars(""), 4));
    assert!(!matches_at(&chars("abc"), &chars("abcd"), 0));
    assert!(!matches_at(&chars(""), &chars("a"), usize::MAX));
}
