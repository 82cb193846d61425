use isuumo::decimal::parse_i64;
use isuumo::text::{chars_of, split_commas};

#[test]
fn parses_plain_digits() {
    assert_eq!(parse_i64("0"), Some(0));
    assert_eq!(parse_i64("7"), Some(7));
    assert_eq!(parse_i64("12"), Some(12));
    assert_eq!(parse_i64("0012"), Some(12));
    assert_eq!(parse_i64("5000"), Some(5000));
}

#[test]
fn parses_signs() {
    assert_eq!(parse_i64("-1"), Some(-1));
    assert_eq!(parse_i64("+1"), Some(1));
    assert_eq!(parse_i64("-0"), Some(0));
    assert_eq!(parse_i64("+0"), Some(0));
    assert_eq!(parse_i64("-42"), Some(-42));
}

#[test]
fn parses_the_ends_of_the_range() {
    assert_eq!(parse_i64("9223372036854775807"), Some(i64::MAX));
    assert_eq!(parse_i64("-9223372036854775808"), Some(i64::MIN));
    assert_eq!(parse_i64("+9223372036854775807"), Some(i64::MAX));
    assert_eq!(parse_i64("9223372036854775808"), None);
    assert_eq!(parse_i64("-9223372036854775809"), None);
    assert_eq!(parse_i64("99999999999999999999999999"), None);
    assert_eq!(parse_i64("-99999999999999999999999999"), None);
    assert_eq!(parse_i64("000000000000000000000000009223372036854775807"), Some(i64::MAX));
}

#[test]
fn refuses_what_is_no_number() {
    assert_eq!(parse_i64(""), None);
    assert_eq!(parse_i64("+"), None);
    assert_eq!(parse_i64("-"), None);
    assert_eq!(parse_i64("--1"), None);
    assert_eq!(parse_i64("+-1"), None);
    assert_eq!(parse_i64("1-"), None);
    assert_eq!(parse_i64(" 1"), None);
    assert_eq!(parse_i64("1 "), None);
    assert_eq!(parse_i64("1_000"), None);
    assert_eq!(parse_i64("1.0"), None);
    assert_eq!(parse_i64("0x10"), None);
    assert_eq!(parse_i64("abc"), None);
    assert_eq!(parse_i64("１２"), None);
    assert_eq!(parse_i64("1é"), None);
}

#[test]
fn agrees_with_the_standard_parser() {
    let samples = [
        "", "0", "1", "-1", "+1", "+", "-", "10", "010", "-010", "9223372036854775807",
        "9223372036854775808", "-9223372036854775808", "-9223372036854775809", "12a", "a12",
        "1 2", "٣", "+-", "-+1", "18446744073709551616", "0000", "-0000", "3", "42", "1e3",
    ];
    for s in samples {
        assert_eq!(parse_i64(s), s.parse::<i64>().ok(), "input {:?}", s);
    }
    for n in -300i64..300 {
        let s = format!("{}", n);
        assert_eq!(parse_i64(&s), Some(n));
    }
}

#[test]
fn chars_of_lists_every_character() {
    assert_eq!(chars_of(""), Vec::<char>::new());
    assert_eq!(chars_of("a,b"), vec!['a', ',', 'b']);
    assert_eq!(chars_of("椅子"), vec!['椅', '子']);
}

#[test]
fn splits_at_every_comma() {
    assert_eq!(split_commas("a,b,c"), vec!["a".to_string(), "b".to_string(), "c".to_string()]);
    assert_eq!(split_commas("abc"), vec!["abc".to_string()]);
}

#[test]
fn split_keeps_empty_tokens_and_trims_nothing() {
    assert_eq!(split_commas(""), vec!["".to_string()]);
    assert_eq!(split_commas(","), vec!["".to_string(), "".to_string()]);
    assert_eq!(split_commas("a,,b"), vec!["a".to_string(), "".to_string(), "b".to_string()]);
    assert_eq!(split_commas("a,"), vec!["a".to_string(), "".to_string()]);
    assert_eq!(split_commas(",a"), vec!["".to_string(), "a".to_string()]);
    assert_eq!(split_commas(" a , b "), vec![" a ".to_string(), " b ".to_string()]);
}

#[test]
fn split_handles_characters_of_several_bytes() {
    assert_eq!(
        split_commas("リクライニング,肘掛け"),
        vec!["リクライニング".to_string(), "肘掛け".to_string()]
    );
}

#[test]
fn split_agrees_with_the_standard_split_and_rejoins() {
    let samples = ["", ",", "a", "a,b", ",,", "x,,y,", "駅から徒歩5分,バストイレ別", " , "];
    for s in samples {
        let expected: Vec<String> = s.split(',').map(|t| t.to_string()).collect();
        let tokens = split_commas(s);
        assert_eq!(tokens, expected);
        assert_eq!(tokens.join(","), s);
        assert!(tokens.iter().all(|t| !t.contains(',')));
    }
}
