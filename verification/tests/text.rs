use lodestone::text::{
    append_chars, chars_of, copy_range, digit, find_from, first_digit_run, matches_at,
    parse_number, replace_text, same_chars, same_text, space, split_text, split_words, string_of,
    strip_prefix_text, trim_end_text,
};

fn cs(s: &str) -> Vec<char> {
    s.chars().collect()
}

fn strings(parts: Vec<Vec<char>>) -> Vec<String> {
    parts.iter().map(|p| p.iter().collect()).collect()
}

#[test]
fn chars_and_strings_convert_both_ways() {
    assert_eq!(chars_of("a♀b"), vec!['a', '♀', 'b']);
    assert_eq!(chars_of(""), Vec::<char>::new());
    assert_eq!(string_of(&cs("Seeker of the Sun")), "Seeker of the Sun");
    assert_eq!(string_of(&Vec::new()), "");
}

#[test]
fn same_text_compares_letter_for_letter() {
    assert!(same_text(&cs("jp"), "jp"));
    assert!(!same_text(&cs("jp"), "JP"));
    assert!(!same_text(&cs("jp"), "jpx"));
    assert!(same_chars(&cs("abc"), &cs("abc")));
    assert!(!same_chars(&cs("abc"), &cs("abd")));
}

#[test]
fn copy_range_takes_the_middle() {
    assert_eq!(copy_range(&cs("abcdef"), 2, 4), cs("cd"));
    assert_eq!(copy_range(&cs("abcdef"), 3, 3), cs(""));
}

#[test]
fn find_from_gives_first_match_at_or_after() {
    let s = cs("ab / cd / ef");
    let pat = cs(" / ");
    assert_eq!(find_from(&s, &pat, 0), Some(2));
    assert_eq!(find_from(&s, &pat, 3), Some(7));
    assert_eq!(find_from(&s, &pat, 8), None);
    assert!(matches_at(&s, &pat, 2));
    assert!(!matches_at(&s, &pat, 1));
}

#[test]
fn split_cuts_at_every_occurrence() {
    assert_eq!(strings(split_text(&cs("a [b [c"), &cs(" ["))), vec!["a", "b", "c"]);
    assert_eq!(strings(split_text(&cs("abc"), &cs(" ["))), vec!["abc"]);
    assert_eq!(strings(split_text(&cs(""), &cs("/"))), vec![""]);
    assert_eq!(
        strings(split_text(&cs("/lodestone/playguide/db/item/23c482f7f46/"), &cs("/"))),
        vec!["", "lodestone", "playguide", "db", "item", "23c482f7f46", ""]
    );
    assert_eq!(strings(split_text(&cs("aaa"), &cs("aa"))), vec!["", "a"]);
}

#[test]
fn replace_goes_from_left_to_right() {
    assert_eq!(string_of(&replace_text(&cs("1,234,567"), &cs(","), &cs(""))), "1234567");
    assert_eq!(string_of(&replace_text(&cs("aaa"), &cs("aa"), &cs("b"))), "ba");
    assert_eq!(string_of(&replace_text(&cs("a b"), &cs(" "), &cs("_"))), "a_b");
    assert_eq!(string_of(&replace_text(&cs("abc"), &cs("x"), &cs("y"))), "abc");
}

#[test]
fn words_are_cut_at_white_space() {
    assert_eq!(strings(split_words(&cs("  a\tb\u{A0}c \n"))), vec!["a", "b", "c"]);
    assert_eq!(strings(split_words(&cs("   "))), Vec::<String>::new());
    assert_eq!(strings(split_words(&cs("one"))), vec!["one"]);
    assert_eq!(strings(split_words(&cs("a\u{3000}b"))), vec!["a", "b"]);
}

#[test]
fn trim_end_removes_every_trailing_match() {
    assert_eq!(string_of(&trim_end_text(&cs("q=a&&"), '&')), "q=a");
    assert_eq!(string_of(&trim_end_text(&cs("Primal]"), ']')), "Primal");
    assert_eq!(string_of(&trim_end_text(&cs("&&"), '&')), "");
    assert_eq!(string_of(&trim_end_text(&cs("a&b"), '&')), "a&b");
}

#[test]
fn strip_prefix_only_at_the_start() {
    assert_eq!(
        string_of(&strip_prefix_text(&cs("Free CompanyThe Guild"), &cs("Free Company"))),
        "The Guild"
    );
    assert_eq!(
        string_of(&strip_prefix_text(&cs("A Free Company"), &cs("Free Company"))),
        "A Free Company"
    );
    assert_eq!(string_of(&strip_prefix_text(&cs("Fr"), &cs("Free Company"))), "Fr");
}

#[test]
fn first_digit_run_is_the_longest_first_run() {
    assert_eq!(string_of(&first_digit_run(&cs("/lodestone/character/12345/x9"))), "12345");
    assert_eq!(string_of(&first_digit_run(&cs("no digits"))), "");
    assert_eq!(string_of(&first_digit_run(&cs("77"))), "77");
    assert_eq!(string_of(&first_digit_run(&cs("a٣1"))), "1");
}

#[test]
fn parse_number_reads_decimal_within_the_limit() {
    assert_eq!(parse_number(&cs("0"), 10), Some(0));
    assert_eq!(parse_number(&cs("+12"), 100), Some(12));
    assert_eq!(parse_number(&cs("007"), 100), Some(7));
    assert_eq!(parse_number(&cs("4294967295"), 4294967295), Some(4294967295));
    assert_eq!(parse_number(&cs("4294967296"), 4294967295), None);
    assert_eq!(parse_number(&cs("18446744073709551615"), u64::MAX), Some(u64::MAX));
    assert_eq!(parse_number(&cs("18446744073709551616"), u64::MAX), None);
    assert_eq!(parse_number(&cs("65536"), 65535), None);
    assert_eq!(parse_number(&cs(""), 100), None);
    assert_eq!(parse_number(&cs("+"), 100), None);
    assert_eq!(parse_number(&cs("-1"), 100), None);
    assert_eq!(parse_number(&cs("12a"), 100), None);
    assert_eq!(parse_number(&cs(" 12"), 100), None);
    assert_eq!(parse_number(&cs("++1"), 100), None);
}

const SAMPLES: [&str; 16] = [
    "",
    " ",
    "a",
    "Gilgamesh [Primal]",
    "Gilgamesh [Aether]\u{A0}[x] [",
    " [ [ [",
    "1,234 / 2,000",
    "-- / --",
    " /  /  / ",
    "Miqo'te<br>Seeker of the Sun / ♀",
    "<br><br<br>>_/__/_ _ / _",
    "/lodestone/playguide/db/item/23c482f7f46/",
    "//a//b//",
    "\t one\u{2003}two\u{85}three \n",
    "Free CompanyFree Company",
    "q=a&b&&&",
];

const PATTERNS: [&str; 12] = [" [", " / ", "/", ",", " ", "<br>", "_/_", "_", "[", "]", "\u{A0}", "//"];

#[test]
fn white_space_and_digits_are_those_of_the_standard_library() {
    for u in 0..=0x10FFFFu32 {
        if let Some(c) = char::from_u32(u) {
            assert_eq!(space(c), c.is_whitespace());
            assert_eq!(digit(c), c.is_digit(10));
        }
    }
}

#[test]
fn split_agrees_with_the_standard_library() {
    for s in SAMPLES {
        for pat in PATTERNS {
            let expected: Vec<String> = s.split(pat).map(|p| p.to_string()).collect();
            assert_eq!(strings(split_text(&cs(s), &cs(pat))), expected);
        }
    }
}

#[test]
fn replace_agrees_with_the_standard_library() {
    for s in SAMPLES {
        for pat in PATTERNS {
            for with in ["", " ", "_", "xy"] {
                assert_eq!(string_of(&replace_text(&cs(s), &cs(pat), &cs(with))), s.replace(pat, with));
            }
        }
    }
}

#[test]
fn words_agree_with_the_standard_library() {
    for s in SAMPLES {
        let expected: Vec<String> = s.split_whitespace().map(|p| p.to_string()).collect();
        assert_eq!(strings(split_words(&cs(s))), expected);
    }
}

#[test]
fn trim_and_strip_agree_with_the_standard_library() {
    for s in SAMPLES {
        for c in ['&', ']', ' ', '/', 'y'] {
            assert_eq!(string_of(&trim_end_text(&cs(s), c)), s.trim_end_matches(c));
        }
        for prefix in ["Free Company", "", "/", " ", "q="] {
            assert_eq!(
                string_of(&strip_prefix_text(&cs(s), &cs(prefix))),
                s.strip_prefix(prefix).unwrap_or(s)
            );
        }
    }
}

#[test]
fn digit_run_agrees_with_the_standard_library() {
    for s in ["", "abc", "/lodestone/character/12345/", "12a34", "a١2b", "x007", "99999999999"] {
        let expected: String = s
            .chars()
            .skip_while(|ch| !ch.is_digit(10))
            .take_while(|ch| ch.is_digit(10))
            .collect();
        assert_eq!(string_of(&first_digit_run(&cs(s))), expected);
    }
}

#[test]
fn numbers_agree_with_the_standard_library() {
    let texts = [
        "", "+", "-", "0", "+0", "-0", "00", "1", "+1", "++1", "1+", " 1", "1 ", "12a", "٣",
        "255", "256", "65535", "65536", "+65535", "4294967295", "4294967296", "04294967295",
        "18446744073709551615", "18446744073709551616", "000000000000000000000000001",
        "99999999999999999999999999", "1_000", "1,000", "0x10",
    ];
    for s in texts {
        assert_eq!(parse_number(&cs(s), 65535), s.parse::<u16>().ok().map(u64::from));
        assert_eq!(parse_number(&cs(s), 4294967295), s.parse::<u32>().ok().map(u64::from));
        assert_eq!(parse_number(&cs(s), u64::MAX), s.parse::<u64>().ok());
    }
}

#[test]
fn append_chars_adds_at_the_end() {
    let mut out = cs("ab");
    append_chars(&mut out, &cs("cd"));
    append_chars(&mut out, &cs(""));
    assert_eq!(out, cs("abcd"));
}

#[test]
fn empty_pattern_occurs_nowhere_for_cutting() {
    assert_eq!(strings(split_text(&cs("abc"), &cs(""))), vec!["abc"]);
    assert_eq!(string_of(&replace_text(&cs("abc"), &cs(""), &cs("x"))), "abc");
    assert!(!matches_at(&cs("abc"), &cs("bc"), 2));
    assert!(!matches_at(&cs("abc"), &cs("abcd"), 0));
    assert!(matches_at(&cs("abc"), &cs("bc"), 1));
    assert_eq!(find_from(&cs("abc"), &cs("abcd"), 0), None);
    assert_eq!(find_from(&cs("abc"), &cs("c"), 3), None);
    assert_eq!(find_from(&cs("abc"), &cs("c"), 9), None);
}
