use conduit::text::{chars_of, decimal_string, parse_bounded, remove_all, str_equal};

#[test]
fn decimal_string_writes_plain_numerals() {
    assert_eq!(decimal_string(0), "0");
    assert_eq!(decimal_string(7), "7");
    assert_eq!(decimal_string(10), "10");
    assert_eq!(decimal_string(95), "95");
    assert_eq!(decimal_string(1234567890), "1234567890");
    assert_eq!(decimal_string(u64::MAX), "18446744073709551615");
}

#[test]
fn decimal_string_agrees_with_formatting() {
    for n in [0u64, 1, 9, 10, 11, 99, 100, 101, 999, 1000, 65535, 65536, u64::MAX - 1] {
        assert_eq!(decimal_string(n), format!("{n}"));
    }
}

#[test]
fn parse_bounded_reads_numerals() {
    assert_eq!(parse_bounded("0", u64::MAX), Some(0));
    assert_eq!(parse_bounded("20", u64::MAX), Some(20));
    assert_eq!(parse_bounded("+20", u64::MAX), Some(20));
    assert_eq!(parse_bounded("007", u64::MAX), Some(7));
    assert_eq!(parse_bounded("18446744073709551615", u64::MAX), Some(u64::MAX));
    assert_eq!(parse_bounded("65535", 65535), Some(65535));
}

#[test]
fn parse_bounded_refuses_what_is_no_numeral() {
    assert_eq!(parse_bounded("", u64::MAX), None);
    assert_eq!(parse_bounded("+", u64::MAX), None);
    assert_eq!(parse_bounded("-", u64::MAX), None);
    assert_eq!(parse_bounded("-1", u64::MAX), None);
    assert_eq!(parse_bounded("++1", u64::MAX), None);
    assert_eq!(parse_bounded("1+", u64::MAX), None);
    assert_eq!(parse_bounded(" 1", u64::MAX), None);
    assert_eq!(parse_bounded("1 ", u64::MAX), None);
    assert_eq!(parse_bounded("12a", u64::MAX), None);
    assert_eq!(parse_bounded("1.5", u64::MAX), None);
    assert_eq!(parse_bounded("٣", u64::MAX), None);
}

#[test]
fn parse_bounded_refuses_what_exceeds_the_limit() {
    assert_eq!(parse_bounded("18446744073709551616", u64::MAX), None);
    assert_eq!(parse_bounded("99999999999999999999999", u64::MAX), None);
    assert_eq!(parse_bounded("65536", 65535), None);
    assert_eq!(parse_bounded("1", 0), None);
    assert_eq!(parse_bounded("0", 0), Some(0));
}

#[test]
fn parse_bounded_agrees_with_the_standard_parser() {
    let samples = [
        "", "0", "1", "+1", "-1", "+", "-", "00", "+00012", "12x", "x12", "1 2", "65535", "65536",
        "18446744073709551615", "18446744073709551616", "+18446744073709551615", "1e3", "0x10",
    ];
    for text in samples {
        assert_eq!(parse_bounded(text, u64::MAX), text.parse::<u64>().ok(), "{text}");
        assert_eq!(
            parse_bounded(text, 65535).map(|n| n as u16),
            text.parse::<u16>().ok(),
            "{text}"
        );
    }
}

#[test]
fn parse_bounded_reads_back_what_decimal_string_writes() {
    for n in [0u64, 5, 10, 20, 4096, u64::MAX] {
        assert_eq!(parse_bounded(&decimal_string(n), u64::MAX), Some(n));
    }
}

#[test]
fn remove_all_takes_every_marker_out() {
    assert_eq!(remove_all("Token abc", "Token "), "abc");
    assert_eq!(remove_all("abc", "Token "), "abc");
    assert_eq!(remove_all("Token Token abc", "Token "), "abc");
    assert_eq!(remove_all("aTokenToken  b", "Token "), "aToken b");
    assert_eq!(remove_all("Token", "Token "), "Token");
    assert_eq!(remove_all("", "Token "), "");
    assert_eq!(remove_all("abc", ""), "abc");
    assert_eq!(remove_all("aaa", "aa"), "a");
    assert_eq!(remove_all("ababab", "ab"), "");
}

#[test]
fn remove_all_agrees_with_replace() {
    let samples = ["Token x.y.z", "TokTokenen ", "Token Token ", " Token ", "TTokenoken  ", "añoToken ñ"];
    for text in samples {
        assert_eq!(remove_all(text, "Token "), text.replace("Token ", ""), "{text}");
    }
}

#[test]
fn chars_of_lists_the_characters() {
    assert_eq!(chars_of("aé漢"), vec!['a', 'é', '漢']);
    assert_eq!(chars_of(""), Vec::<char>::new());
}

#[test]
fn str_equal_compares_texts() {
    assert!(str_equal("GET", "GET"));
    assert!(!str_equal("GET", "get"));
    assert!(!str_equal("GET", "GETS"));
    assert!(str_equal("", ""));
}
