use ng_core::text::{
    chars_of, cut, decimal_text, find_in, has_prefix, has_suffix, is_whitespace, matches_at,
    same_text, trim_bounds,
};

fn chars(s: &str) -> Vec<char> {
    s.chars().collect()
}

#[test]
fn chars_of_is_the_characters() {
    assert_eq!(chars_of(""), Vec::<char>::new());
    assert_eq!(chars_of("añb"), vec!['a', 'ñ', 'b']);
}

#[test]
fn prefix_and_suffix_agree_with_std() {
    let samples = ["", " ", "pub fn f()", "#[cfg(x)]", "*/", "a*/", "/* x", "fn ", "ünï"];
    let parts = ["", " ", "pub ", "fn ", "#[cfg", "*/", "/*", "]", ")]", "ü", "pub fn f()x"];
    for s in samples {
        for p in parts {
            assert_eq!(has_prefix(&chars(s), p), s.starts_with(p), "{:?} {:?}", s, p);
            assert_eq!(has_suffix(&chars(s), p), s.ends_with(p), "{:?} {:?}", s, p);
            assert_eq!(same_text(&chars(s), p), s == p);
        }
    }
}

#[test]
fn matches_at_positions() {
    let s = chars("abcabc");
    assert!(matches_at(&s, &chars("abc"), 0));
    assert!(matches_at(&s, &chars("abc"), 3));
    assert!(!matches_at(&s, &chars("abc"), 1));
    assert!(!matches_at(&s, &chars("abc"), 4));
    assert!(matches_at(&s, &chars(""), 6));
    assert!(!matches_at(&s, &chars(""), 7));
    assert!(!matches_at(&s, &chars("abcabcd"), 0));
}

#[test]
fn find_gives_the_first_position() {
    let s = chars("pub fn foo(a: fn (i32))");
    assert_eq!(find_in(&s, "fn ", 0), Some(4));
    assert_eq!(find_in(&s, "fn ", 5), Some(14));
    assert_eq!(find_in(&s, "fn ", 15), None);
    assert_eq!(find_in(&s, "(", 0), Some(10));
    assert_eq!(find_in(&s, "x", 0), None);
    assert_eq!(find_in(&s, "", 3), Some(3));
    assert_eq!(find_in(&s, "", 23), Some(23));
    assert_eq!(find_in(&s, "", 24), None);
    assert_eq!(find_in(&chars(""), "a", 0), None);
    assert_eq!(find_in(&chars("éé(x"), "(", 0), Some(2));
}

#[test]
fn whitespace_agrees_with_std() {
    for n in 0u32..0x3100 {
        if let Some(c) = char::from_u32(n) {
            assert_eq!(is_whitespace(c), c.is_whitespace(), "U+{:04X}", n);
        }
    }
    assert!(!is_whitespace('\u{FEFF}'));
    assert!(!is_whitespace('\u{10FFFF}'));
}

#[test]
fn trim_agrees_with_std() {
    let samples = ["", "   ", "a", " a", "a ", "  a b  ", "\t\u{3000}x y\u{a0}\n", " \u{2003}"];
    for s in samples {
        let v = chars(s);
        let (from, to) = trim_bounds(&v, 0, v.len());
        let got: String = v[from..to].iter().collect();
        assert_eq!(got, s.trim(), "{:?}", s);
    }
    let v = chars("ab  cd  ef");
    assert_eq!(trim_bounds(&v, 2, 8), (4, 6));
    assert_eq!(trim_bounds(&v, 2, 4), (4, 4));
    assert_eq!(trim_bounds(&v, 5, 5), (5, 5));
}

#[test]
fn cut_counts_characters() {
    assert_eq!(cut("héllo wörld", 1, 5), "éllo");
    assert_eq!(cut("abc", 0, 3), "abc");
    assert_eq!(cut("abc", 2, 2), "");
}

#[test]
fn decimal_agrees_with_std() {
    for n in [0u32, 1, 9, 10, 11, 99, 100, 101, 4096, 65535, 1_000_000, u32::MAX - 1, u32::MAX] {
        assert_eq!(decimal_text(n), n.to_string());
    }
}
