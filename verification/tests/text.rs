//! Text primitives, against what the standard library does.

use monk3i::number::{read_number, write_number};
use monk3i::text::{
    after_prefix, before_suffix, begins_with, characters, contains, control_code, ends_with, find,
    joined, same, since_last, split, strip, strip_end, strip_start, strip_suffixes, to_lower,
    to_upper, trim, until_first, white, CharClass,
};

const SAMPLES: [&str; 14] = [
    "",
    " ",
    "abc",
    "  abc\t",
    "a;b;;c",
    ";",
    "..a..b..",
    "\u{a0}x\u{2003}",
    "Straße ÄÖ Kelvin \u{212a}",
    "x/s/s",
    "/s",
    "10/s",
    "\u{85}tail\u{3000}",
    "日本;語.",
];

#[test]
fn white_space_is_that_of_unicode() {
    for c in '\0'..=char::MAX {
        assert_eq!(white(c), c.is_whitespace(), "{:?}", c);
    }
}

#[test]
fn control_codes_are_those_of_unicode() {
    for c in '\0'..=char::MAX {
        assert_eq!(control_code(c), c.is_control(), "{:?}", c);
    }
}

#[test]
fn trimming_is_that_of_std() {
    for s in SAMPLES {
        assert_eq!(trim(s), s.trim());
        assert_eq!(trim(trim(s)), trim(s));
        assert_eq!(strip(s, CharClass::Only('.')), s.trim_matches('.'));
        assert_eq!(strip_start(s, CharClass::Only('.')), s.trim_start_matches('.'));
        assert_eq!(strip_end(s, CharClass::Only('.')), s.trim_end_matches('.'));
        assert_eq!(strip_end(s, CharClass::White), s.trim_end());
        assert_eq!(strip_suffixes(s, "/s"), s.trim_end_matches("/s"));
    }
    assert_eq!(strip_suffixes("abc", ""), "abc");
}

#[test]
fn parting_is_that_of_std() {
    for s in SAMPLES {
        assert_eq!(split(s, ';'), s.split(';').collect::<Vec<_>>());
        assert_eq!(split(s, '.'), s.split('.').collect::<Vec<_>>());
        assert_eq!(until_first(s, ';'), s.split(';').next().unwrap());
        assert_eq!(since_last(s, '.'), s.rsplit('.').next().unwrap());
    }
}

#[test]
fn ends_are_those_of_std() {
    for s in SAMPLES {
        for end in ["", "a", "/s", "abc", "abcd", "日", "語."] {
            assert_eq!(after_prefix(s, end), s.strip_prefix(end));
            assert_eq!(before_suffix(s, end), s.strip_suffix(end));
            assert_eq!(begins_with(s, end), s.starts_with(end));
            assert_eq!(ends_with(s, end), s.ends_with(end));
            assert_eq!(contains(s, end), s.contains(end));
        }
    }
}

#[test]
fn searching_counts_characters() {
    assert_eq!(find("日本download:", "download:"), Some(2));
    assert_eq!(find("aab", "ab"), Some(1));
    assert_eq!(find("aab", ""), Some(0));
    assert_eq!(find("", "a"), None);
    assert_eq!(find("abc", "abcd"), None);
}

#[test]
fn case_is_that_of_ascii() {
    for s in SAMPLES {
        assert_eq!(to_lower(s), s.to_ascii_lowercase());
        assert_eq!(to_upper(s), s.to_ascii_uppercase());
    }
    assert_eq!(to_lower("AZ@[`{azÄ"), "az@[`{azÄ");
    assert_eq!(to_upper("AZ@[`{azä"), "AZ@[`{AZä");
}

#[test]
fn joining_and_comparing() {
    assert_eq!(joined("ab", "cd"), "abcd");
    assert_eq!(joined("", "ß"), "ß");
    assert!(same("ß", "ß"));
    assert!(!same("ß", "ss"));
    assert!(!same("a", "ab"));
    assert_eq!(characters("aß日"), vec!['a', 'ß', '日']);
}

#[test]
fn numbers_are_written_as_std_does() {
    for n in [0, 7, 10, 99, 100, 9999, 10000, u64::MAX - 1, u64::MAX] {
        assert_eq!(write_number(n), n.to_string());
    }
}

#[test]
fn numbers_are_read_as_std_does() {
    for s in [
        "", "+", "-", "0", "00", "+7", "++7", "-7", "-0", "7 ", " 7", "7.0", "1e3", "NA",
        "18446744073709551615", "18446744073709551616", "99999999999999999999",
        "000000000000000000000000000012", "+18446744073709551615", "٣",
    ] {
        assert_eq!(read_number(s), s.parse::<u64>().ok(), "{:?}", s);
    }
}

#[test]
fn a_written_number_is_read_back() {
    for n in [0, 1, 9, 10, 12345, u64::MAX] {
        assert_eq!(read_number(&write_number(n)), Some(n));
    }
    assert_ne!(write_number(10), write_number(100));
}
