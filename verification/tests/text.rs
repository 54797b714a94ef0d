use brolaunch::text::{char_is_whitespace, chars_of, chars_parse_index, chars_trimmed, str_contains};

#[test]
fn whitespace_agrees_with_std_on_every_char() {
    let mut code: u32 = 0;
    while code <= 0x10FFFF {
        if let Some(c) = char::from_u32(code) {
            assert_eq!(char_is_whitespace(c), c.is_whitespace(), "U+{:04X}", code);
        }
        code += 1;
    }
}

#[test]
fn trim_agrees_with_std() {
    for s in ["", " ", "work", "  work\n", "\t a b \u{3000}", "\u{a0}x\u{2028}", "x "] {
        let got: String = chars_trimmed(&chars_of(s)).into_iter().collect();
        assert_eq!(got, s.trim());
    }
}

#[test]
fn parse_agrees_with_std() {
    for s in ["", "+", "-", "0", "7", "007", "+5", "-1", "12a", " 1", "1 ", "18446744073709551615",
        "18446744073709551616", "99999999999999999999999", "++1", "1+", "٣"] {
        assert_eq!(chars_parse_index(&chars_of(s)), s.parse::<usize>().ok(), "{:?}", s);
    }
}

#[test]
fn contains_agrees_with_std() {
    for (h, n) in [("", ""), ("abc", ""), ("", "a"), ("kde-plasma", "plasma"), ("gnom", "gnome"),
        ("xxgnome", "gnome"), ("aab", "ab"), ("abab", "bab"), ("héllo", "llo")] {
        assert_eq!(str_contains(h, n), h.contains(n), "{:?} {:?}", h, n);
    }
}

#[test]
fn split_agrees_with_std() {
    for s in ["", ":", "a", "a:b", ":a", "a:", "a::b", ":::", "/usr/share:/usr/local/share"] {
        let got: Vec<String> =
            brolaunch::text::chars_split(&chars_of(s), ':').into_iter().map(|p| p.into_iter().collect()).collect();
        let expected: Vec<String> = s.split(':').map(|p| p.to_string()).collect();
        assert_eq!(got, expected, "{:?}", s);
    }
}

#[test]
fn decimal_string_agrees_with_std() {
    for n in [0usize, 1, 9, 10, 11, 99, 100, 101, 12345, 1000000, usize::MAX - 1, usize::MAX] {
        assert_eq!(brolaunch::text::decimal_string(n), n.to_string());
        assert_eq!(chars_parse_index(&chars_of(&n.to_string())), Some(n));
    }
}

#[test]
fn join_agrees_with_std() {
    let cases: [&[&str]; 5] = [&[], &["a"], &["a", "b"], &["", ""], &["x", "", "y z"]];
    for parts in cases {
        let owned: Vec<String> = parts.iter().map(|s| s.to_string()).collect();
        assert_eq!(brolaunch::text::join(&owned, "\n"), owned.join("\n"));
        assert_eq!(brolaunch::text::join(&owned, ", "), owned.join(", "));
    }
}

#[test]
fn equality_of_texts() {
    assert!(brolaunch::text::str_equal("", ""));
    assert!(brolaunch::text::str_equal("wayland", "wayland"));
    assert!(!brolaunch::text::str_equal("wayland", "Wayland"));
    assert!(!brolaunch::text::str_equal("x11", "x1"));
    assert!(!brolaunch::text::str_equal("x1", "x11"));
    assert!(brolaunch::text::chars_equal(&chars_of("h\u{e9}"), &chars_of("h\u{e9}")));
}
