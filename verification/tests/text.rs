use robtop::text::{chars_of, encode_number, parse_flag, parse_number, split};

#[test]
fn chars_of_keeps_every_character() {
    assert_eq!(chars_of("a#b"), vec!['a', '#', 'b']);
    assert_eq!(chars_of(""), Vec::<char>::new());
    assert_eq!(chars_of("Gé✓"), vec!['G', 'é', '✓']);
}

#[test]
fn split_without_delimiter_gives_the_text_itself() {
    assert_eq!(split("onlyonesection", "#"), vec!["onlyonesection"]);
}

#[test]
fn split_of_empty_text_gives_one_empty_token() {
    assert_eq!(split("", "#"), vec![""]);
}

#[test]
fn split_keeps_empty_tokens() {
    assert_eq!(split("a#", "#"), vec!["a", ""]);
    assert_eq!(split("#", "#"), vec!["", ""]);
    assert_eq!(split("#a##b", "#"), vec!["", "a", "", "b"]);
}

#[test]
fn split_on_a_long_delimiter() {
    assert_eq!(split("1~|~5~:~1~|~6", "~:~"), vec!["1~|~5", "1~|~6"]);
    assert_eq!(split("a~:~:~b", "~:~"), vec!["a", ":~b"]);
    assert_eq!(split("a~:", "~:~"), vec!["a~:"]);
    assert_eq!(split("~:~", "~:~"), vec!["", ""]);
}

#[test]
fn split_takes_the_leftmost_delimiter() {
    assert_eq!(split("aaa", "aa"), vec!["", "a"]);
}

#[test]
fn split_on_an_empty_delimiter_gives_the_text_itself() {
    assert_eq!(split("abc", ""), vec!["abc"]);
}

#[test]
fn split_counts_characters_not_bytes() {
    assert_eq!(split("é|ü✓|z", "|"), vec!["é", "ü✓", "z"]);
    assert_eq!(split("日本✓語✓", "✓"), vec!["日本", "語", ""]);
}

#[test]
fn split_agrees_with_the_standard_library() {
    let texts = ["", "a", "a|b", "|a|", "a||b", "~:~x~:~", "ab~:~cd~:~~:~", "x:y:z"];
    let delimiters = ["|", ":", "~:~", "#"];
    for text in texts {
        for delimiter in delimiters {
            let expected: Vec<&str> = text.split(delimiter).collect();
            assert_eq!(split(text, delimiter), expected);
        }
    }
}

#[test]
fn parse_number_reads_decimal_digits() {
    assert_eq!(parse_number("0"), Some(0));
    assert_eq!(parse_number("7"), Some(7));
    assert_eq!(parse_number("16"), Some(16));
    assert_eq!(parse_number("007"), Some(7));
    assert_eq!(parse_number("1234567890"), Some(1234567890));
}

#[test]
fn parse_number_reaches_the_largest_value() {
    assert_eq!(parse_number("18446744073709551615"), Some(u64::MAX));
    assert_eq!(parse_number("18446744073709551616"), None);
    assert_eq!(parse_number("99999999999999999999"), None);
    assert_eq!(parse_number("00018446744073709551615"), Some(u64::MAX));
}

#[test]
fn parse_number_refuses_what_is_no_number() {
    assert_eq!(parse_number(""), None);
    assert_eq!(parse_number("-1"), None);
    assert_eq!(parse_number("+1"), None);
    assert_eq!(parse_number("12a"), None);
    assert_eq!(parse_number(" 1"), None);
    assert_eq!(parse_number("1.5"), None);
    assert_eq!(parse_number("٣"), None);
}

#[test]
fn parse_flag_reads_one_and_zero() {
    assert_eq!(parse_flag("1"), Some(true));
    assert_eq!(parse_flag("0"), Some(false));
    assert_eq!(parse_flag(""), None);
    assert_eq!(parse_flag("2"), None);
    assert_eq!(parse_flag("10"), None);
    assert_eq!(parse_flag("true"), None);
}

#[test]
fn encode_number_writes_decimal_digits() {
    assert_eq!(encode_number(0), vec!['0']);
    assert_eq!(encode_number(9), vec!['9']);
    assert_eq!(encode_number(10), vec!['1', '0']);
    assert_eq!(encode_number(16), vec!['1', '6']);
    let written: String = encode_number(u64::MAX).into_iter().collect();
    assert_eq!(written, "18446744073709551615");
}

#[test]
fn numbers_survive_writing_and_reading() {
    for n in [0u64, 1, 9, 10, 99, 100, 12345, u64::MAX - 1, u64::MAX] {
        let written: String = encode_number(n).into_iter().collect();
        assert_eq!(parse_number(&written), Some(n));
    }
}

#[test]
fn canonical_tokens_survive_reading_and_writing() {
    for token in ["0", "7", "16", "1000", "18446744073709551615"] {
        let n = parse_number(token).unwrap();
        let written: String = encode_number(n).into_iter().collect();
        assert_eq!(written, token);
    }
}

#[test]
fn leading_zeros_are_lost_in_writing() {
    let n = parse_number("007").unwrap();
    let written: String = encode_number(n).into_iter().collect();
    assert_eq!(written, "7");
}
