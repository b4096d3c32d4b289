use which_terminal::text::{
    chars_of, digit, skip_leading, skip_trailing, slice_contains, slice_matches_at, str_contains,
    str_eq, str_mentions, substring, whitespace, CharClass,
};

#[test]
fn whitespace_is_what_the_standard_library_calls_whitespace() {
    let mut count = 0;
    for n in 0..=0x10FFFFu32 {
        if let Some(c) = char::from_u32(n) {
            assert_eq!(whitespace(c), c.is_whitespace(), "U+{:04X}", n);
            if whitespace(c) {
                count += 1;
            }
        }
    }
    assert_eq!(count, 25);
    assert!(whitespace(' ') && whitespace('\t') && whitespace('\n') && whitespace('\u{a0}'));
    assert!(!whitespace('a') && !whitespace('\u{200b}') && !whitespace('\u{0}'));
}

#[test]
fn digits_are_the_ten_ascii_digits() {
    for n in 0..=0x10FFFFu32 {
        if let Some(c) = char::from_u32(n) {
            assert_eq!(digit(c), c.is_ascii_digit());
        }
    }
    assert!(digit('0') && digit('9') && !digit('/') && !digit(':') && !digit('\u{663}'));
}

#[test]
fn character_classes_hold_what_they_say() {
    assert!(CharClass::Only('v').contains('v'));
    assert!(!CharClass::Only('v').contains('V'));
    assert!(CharClass::Except('(').contains('v'));
    assert!(!CharClass::Except('(').contains('('));
    assert!(CharClass::Whitespace.contains('\u{2003}'));
    assert!(!CharClass::Whitespace.contains('x'));
    assert!(CharClass::Visible.contains('x'));
    assert!(!CharClass::Visible.contains(' '));
}

#[test]
fn strings_are_equal_when_their_characters_are() {
    assert!(str_eq("", ""));
    assert!(str_eq("kitty", "kitty"));
    assert!(!str_eq("kitty", "Kitty"));
    assert!(!str_eq("kitty", "kitt"));
    assert!(!str_eq("", "a"));
    assert!(str_eq("\u{7aef}\u{672b}", "\u{7aef}\u{672b}"));
    assert!(!str_eq("\u{7aef}\u{672b}", "\u{7aef}\u{672c}"));
}

#[test]
fn the_characters_of_a_string_come_in_order() {
    assert_eq!(chars_of(""), Vec::<char>::new());
    assert_eq!(chars_of("a\u{e9}\u{1f600}z"), vec!['a', '\u{e9}', '\u{1f600}', 'z']);
}

#[test]
fn a_substring_is_found_where_it_stands() {
    let cases = [
        ("xterm-kitty", "kitty"),
        ("xterm-kitty", "xterm"),
        ("xterm-kitty", "m-k"),
        ("xterm-kitty", ""),
        ("", ""),
        ("", "a"),
        ("abc", "abcd"),
        ("aaab", "aab"),
        ("abab", "bb"),
        ("/data/data/com.termux/files/usr", "com.termux"),
        ("/data/data/com.Termux/files/usr", "com.termux"),
        ("na\u{ef}ve\u{301}", "\u{ef}v"),
    ];
    for (hay, needle) in cases {
        assert_eq!(str_contains(hay, needle), hay.contains(needle), "{:?} {:?}", hay, needle);
        let h: Vec<char> = hay.chars().collect();
        let n: Vec<char> = needle.chars().collect();
        assert_eq!(slice_contains(&h, &n), hay.contains(needle));
    }
    assert!(str_contains("xterm-kitty", "kitty"));
    assert!(!str_contains("xterm-kitty", "Kitty"));
}

#[test]
fn a_match_at_a_place_is_told_from_one_elsewhere() {
    let hay: Vec<char> = "abcabd".chars().collect();
    let needle: Vec<char> = "abd".chars().collect();
    assert!(!slice_matches_at(&hay, &needle, 0));
    assert!(!slice_matches_at(&hay, &needle, 1));
    assert!(slice_matches_at(&hay, &needle, 3));
    assert!(slice_matches_at(&hay, &[], 6));
}

#[test]
fn mentioning_sets_the_case_of_letters_aside() {
    assert!(str_mentions("Alacritty-Direct", "alacritty"));
    assert!(str_mentions("xterm", "XTERM"));
    assert!(str_mentions("WEZTERM-gui", "WezTerm"));
    assert!(!str_mentions("wez-term", "WezTerm"));
    assert!(str_mentions("anything", ""));
    // The Kelvin sign is a capital letter of the small letter k.
    assert!(str_mentions("xterm-\u{212a}itty", "kitty"));
    let cases = [("\u{c4}PFEL", "\u{e4}pfel"), ("stra\u{df}e", "STRASSE"), ("\u{130}x", "i")];
    for (hay, needle) in cases {
        assert_eq!(
            str_mentions(hay, needle),
            hay.to_lowercase().contains(&needle.to_lowercase()),
            "{:?} {:?}",
            hay,
            needle
        );
    }
}

#[test]
fn leading_and_trailing_characters_are_skipped() {
    let chars: Vec<char> = "vvV1.2,,;;".chars().collect();
    let size = chars.len();
    assert_eq!(skip_leading(&chars, 0, size, CharClass::Only('v')), 2);
    assert_eq!(skip_leading(&chars, 2, size, CharClass::Only('V')), 3);
    assert_eq!(skip_leading(&chars, 3, size, CharClass::Only('V')), 3);
    assert_eq!(skip_trailing(&chars, 3, size, CharClass::Only(';')), 8);
    assert_eq!(skip_trailing(&chars, 3, 8, CharClass::Only(',')), 6);
    assert_eq!(skip_trailing(&chars, 3, size, CharClass::Only(',')), size);
    assert_eq!(skip_leading(&chars, 0, 2, CharClass::Only('v')), 2);
    assert_eq!(skip_trailing(&chars, 0, 2, CharClass::Only('v')), 0);
    assert_eq!(skip_leading(&chars, 4, 4, CharClass::Visible), 4);
    let blank: Vec<char> = " \t x \n".chars().collect();
    assert_eq!(skip_leading(&blank, 0, 6, CharClass::Whitespace), 3);
    assert_eq!(skip_trailing(&blank, 0, 6, CharClass::Whitespace), 4);
    assert_eq!(skip_leading(&blank, 3, 6, CharClass::Visible), 4);
    assert_eq!(skip_leading(&blank, 0, 6, CharClass::Except('x')), 3);
}

#[test]
fn a_substring_is_cut_by_characters_not_bytes() {
    assert_eq!(substring("a\u{e9}\u{1f600}z", 1, 3), "\u{e9}\u{1f600}");
    assert_eq!(substring("kitty", 0, 5), "kitty");
    assert_eq!(substring("kitty", 2, 2), "");
    assert_eq!(substring("", 0, 0), "");
}
