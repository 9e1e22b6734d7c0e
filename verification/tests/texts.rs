use daemon_desktop::text::{
    digit, extend_chars, find, find_line_with, line_at, line_end, owned, parse_unsigned,
    push_decimal, push_tenths, round_div, slice, starts_at, trimmed, white_space, without_all,
};

fn chars(s: &str) -> Vec<char> {
    s.chars().collect()
}

fn text(v: &Vec<char>) -> String {
    v.iter().collect()
}

#[test]
fn numerals_have_no_leading_zeros() {
    for (n, shown) in [
        (0u128, "0"),
        (7, "7"),
        (10, "10"),
        (16384, "16384"),
        (u64::MAX as u128, "18446744073709551615"),
        (u128::MAX, "340282366920938463463374607431768211455"),
    ] {
        let mut buf = chars("n=");
        push_decimal(&mut buf, n);
        assert_eq!(text(&buf), format!("n={}", shown));
    }
    assert_eq!(digit(0), '0');
    assert_eq!(digit(9), '9');
}

#[test]
fn tenths_have_one_digit_behind_the_point() {
    for (t, shown) in [(0u128, "0.0"), (5, "0.5"), (50, "5.0"), (1234, "123.4")] {
        let mut buf = Vec::new();
        push_tenths(&mut buf, t);
        assert_eq!(text(&buf), shown);
    }
}

#[test]
fn division_rounds_to_the_nearest_and_a_tie_to_the_even() {
    assert_eq!(round_div(0, 7), 0);
    assert_eq!(round_div(7, 2), 4);
    assert_eq!(round_div(5, 2), 2);
    assert_eq!(round_div(9, 2), 4);
    assert_eq!(round_div(11, 2), 6);
    assert_eq!(round_div(10, 3), 3);
    assert_eq!(round_div(11, 3), 4);
    assert_eq!(round_div(1, u64::MAX), 0);
    assert_eq!(round_div(u64::MAX as u128, u64::MAX), 1);
}

#[test]
fn white_space_is_what_unicode_says() {
    for c in [' ', '\t', '\n', '\r', '\u{0b}', '\u{0c}', '\u{85}', '\u{a0}', '\u{1680}', '\u{2000}',
        '\u{200a}', '\u{2028}', '\u{2029}', '\u{202f}', '\u{205f}', '\u{3000}']
    {
        assert!(white_space(c), "{:?}", c);
        assert!(c.is_whitespace());
    }
    for c in ['a', '0', '\u{200b}', '\u{feff}', '\u{1c}', '\u{2588}', '\u{08}', '\u{0e}', '\u{200b}'] {
        assert!(!white_space(c), "{:?}", c);
    }
    let mut n = 0u32;
    while n <= 0x3100 {
        if let Some(c) = char::from_u32(n) {
            assert_eq!(white_space(c), c.is_whitespace(), "{:x}", n);
        }
        n += 1;
    }
}

#[test]
fn trimming_takes_white_space_from_both_ends() {
    for s in ["", " ", "a", "  a b \t\r\n", "\u{3000}x\u{a0}", "a  ", "  a", " \n "] {
        assert_eq!(text(&trimmed(&chars(s))), s.trim(), "{:?}", s);
    }
}

#[test]
fn search_finds_the_first_occurrence() {
    let hay = chars("abcabc");
    assert_eq!(find(&hay, &chars("bc")), Some(1));
    assert_eq!(find(&hay, &chars("abcabc")), Some(0));
    assert_eq!(find(&hay, &chars("c")), Some(2));
    assert_eq!(find(&hay, &chars("")), Some(0));
    assert_eq!(find(&hay, &chars("abcabcd")), None);
    assert_eq!(find(&hay, &chars("x")), None);
    assert_eq!(find(&chars(""), &chars("")), Some(0));
    assert_eq!(find(&chars(""), &chars("a")), None);
    assert!(starts_at(&hay, &chars("abc"), 3));
    assert!(!starts_at(&hay, &chars("abc"), 4));
    assert!(starts_at(&hay, &chars(""), 6));
    assert!(!starts_at(&hay, &chars(""), 7));
}

#[test]
fn lines_end_at_newlines() {
    let s = chars("one\r\ntwo\n\nlast\r");
    assert_eq!(line_end(&s, 0), 4);
    assert_eq!(text(&line_at(&s, 0, 4)), "one");
    assert_eq!(line_end(&s, 5), 8);
    assert_eq!(text(&line_at(&s, 5, 8)), "two");
    assert_eq!(line_end(&s, 9), 9);
    assert_eq!(text(&line_at(&s, 9, 9)), "");
    assert_eq!(line_end(&s, 10), 15);
    // A carriage return at the very end belongs to the line.
    assert_eq!(text(&line_at(&s, 10, 15)), "last\r");
    assert_eq!(
        find_line_with(&s, &chars("o")).map(|l| text(&l)),
        s.iter().collect::<String>().lines().find(|l| l.contains("o")).map(|l| l.to_string())
    );
    assert_eq!(find_line_with(&s, &chars("w")).map(|l| text(&l)), Some("two".to_string()));
    assert_eq!(find_line_with(&s, &chars("last\r")).map(|l| text(&l)), Some("last\r".to_string()));
    assert_eq!(find_line_with(&s, &chars("e\r")), None);
    assert_eq!(find_line_with(&s, &chars("zzz")), None);
    assert_eq!(find_line_with(&chars(""), &chars("")), None);
    assert_eq!(find_line_with(&chars("\n"), &chars("")).map(|l| text(&l)), Some(String::new()));
}

#[test]
fn removal_takes_out_every_occurrence() {
    for (s, p) in [
        ("Ollama found: /x", "Ollama found: "),
        ("aaa", "aa"),
        ("abab", "ab"),
        ("xabyabz", "ab"),
        ("abc", ""),
        ("", "a"),
        ("aXbXc", "X"),
        ("ab", "abc"),
        ("aab", "ab"),
    ] {
        assert_eq!(text(&without_all(&chars(s), &chars(p))), s.replace(p, ""), "{:?} {:?}", s, p);
    }
    assert_eq!(text(&without_all(&chars("abc"), &chars(""))), "abc");
}

#[test]
fn unsigned_numerals_are_read_up_to_64_bits() {
    assert_eq!(parse_unsigned(&chars("0")), Some(0));
    assert_eq!(parse_unsigned(&chars("42")), Some(42));
    assert_eq!(parse_unsigned(&chars("007")), Some(7));
    assert_eq!(parse_unsigned(&chars("18446744073709551615")), Some(u64::MAX));
    assert_eq!(parse_unsigned(&chars("18446744073709551616")), None);
    assert_eq!(parse_unsigned(&chars("99999999999999999999999")), None);
    assert_eq!(parse_unsigned(&chars("")), None);
    assert_eq!(parse_unsigned(&chars("-1")), None);
    assert_eq!(parse_unsigned(&chars("1.0")), None);
    assert_eq!(parse_unsigned(&chars("1e3")), None);
    assert_eq!(parse_unsigned(&chars("\u{0661}")), None);
}

#[test]
fn pieces_of_text_are_copied() {
    let s = chars("hello");
    assert_eq!(text(&slice(&s, 1, 3)), "el");
    assert_eq!(text(&slice(&s, 5, 5)), "");
    let mut buf = chars("ab");
    extend_chars(&mut buf, &chars("cd"));
    assert_eq!(text(&buf), "abcd");
    assert_eq!(owned("h\u{e9}llo \u{2588}"), "h\u{e9}llo \u{2588}");
}
