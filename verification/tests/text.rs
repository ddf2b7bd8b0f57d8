use git_releaser::text::{
    extension_of, find, from_chars, has_prefix, has_suffix, matches_at, push_decimal, push_padded,
    push_str, space, spells, to_ascii_lower, to_chars, trimmed_exceeds,
};

fn chars(text: &str) -> Vec<char> {
    text.chars().collect()
}

#[test]
fn chars_and_back() {
    for text in ["", "a", "héllo wörld", "日本語\n"] {
        assert_eq!(to_chars(text), chars(text));
        assert_eq!(from_chars(&chars(text)), text);
    }
}

#[test]
fn find_gives_the_first_occurrence_from_a_place() {
    let hay = chars("abcabcab");
    assert_eq!(find(&hay, &chars("abc"), 0), Some(0));
    assert_eq!(find(&hay, &chars("abc"), 1), Some(3));
    assert_eq!(find(&hay, &chars("abc"), 4), None);
    assert_eq!(find(&hay, &chars("ab"), 4), Some(6));
    assert_eq!(find(&hay, &chars("x"), 0), None);
    assert_eq!(find(&hay, &chars(""), 8), Some(8));
    assert_eq!(find(&hay, &chars(""), 9), None);
    assert_eq!(find(&hay, &chars("abcabcabc"), 0), None);
    assert!(matches_at(&hay, &chars("cab"), 2));
    assert!(!matches_at(&hay, &chars("cab"), 3));
    assert!(!matches_at(&hay, &chars("ab"), 7));
}

#[test]
fn decimal_digits() {
    for n in [0u64, 7, 10, 99, 100, 1234567890, u64::MAX] {
        let mut out = chars("n=");
        push_decimal(&mut out, n);
        assert_eq!(from_chars(&out), format!("n={}", n));
    }
}

#[test]
fn lower_case_touches_ascii_letters_only() {
    assert_eq!(to_ascii_lower(&chars("MiNoR-ÄZ@[az")), chars("minor-Äz@[az"));
    assert!(spells(&chars("patch"), "patch"));
    assert!(!spells(&chars("patch"), "patc"));
    assert!(!spells(&chars("patc"), "patch"));
    assert!(spells(&chars(""), ""));
}

#[test]
fn prefixes_suffixes_and_extensions() {
    assert!(has_prefix(&chars("chore: x"), "chore:"));
    assert!(has_prefix(&chars("chore"), ""));
    assert!(!has_prefix(&chars("chor"), "chore"));
    assert!(has_suffix(&chars("a.toml"), ".toml"));
    assert!(!has_suffix(&chars("toml"), ".toml"));
    assert!(has_suffix(&chars("x"), ""));
    assert_eq!(extension_of(&chars("a.b.c")), Some(chars("c")));
    assert_eq!(extension_of(&chars("abc.")), Some(chars("")));
    assert_eq!(extension_of(&chars(".abc")), Some(chars("abc")));
    assert_eq!(extension_of(&chars(".")), Some(chars("")));
    assert_eq!(extension_of(&chars("abc")), None);
    assert_eq!(extension_of(&chars("")), None);
    let mut out = chars("a");
    push_str(&mut out, "bc");
    assert_eq!(out, chars("abc"));
}

#[test]
fn white_space_is_what_std_calls_white_space() {
    let mut code: u32 = 0;
    while code <= 0x10FFFF {
        if let Some(c) = char::from_u32(code) {
            assert_eq!(space(c), c.is_whitespace(), "{:x}", code);
        }
        code += 1;
    }
}

#[test]
fn trimmed_length_counts_bytes() {
    for text in ["", " ", "ab", " ab ", "abc", " abc ", "\n{}\n", "é", "éa", "€", "\u{2003}€\u{a0}", "a b", "  a  b  "] {
        for limit in 0..5usize {
            assert_eq!(
                trimmed_exceeds(&chars(text), limit),
                text.trim().len() > limit,
                "{:?} {}",
                text,
                limit
            );
        }
    }
    assert!(!trimmed_exceeds(&chars("abc"), usize::MAX));
}

#[test]
fn padding_fills_up_with_zeros() {
    for (n, width, expected) in [
        (0u64, 0usize, "0"),
        (0, 1, "0"),
        (0, 3, "000"),
        (7, 2, "07"),
        (42, 2, "42"),
        (123, 2, "123"),
        (5, 4, "0005"),
        (u64::MAX, 4, "18446744073709551615"),
    ] {
        let mut out = chars(">");
        push_padded(&mut out, n, width);
        assert_eq!(from_chars(&out), format!(">{}", expected));
    }
}
