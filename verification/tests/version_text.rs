use which_terminal::text::chars_of;
use which_terminal::version::exec::{version_shaped, ExecVersionExtractor};

fn find(text: &str) -> Option<String> {
    ExecVersionExtractor::extract_version_from_output(text)
}

fn by_std(text: &str) -> Option<String> {
    for word in text.split_whitespace() {
        let clean = word
            .trim_start_matches('v')
            .trim_start_matches('V')
            .trim_end_matches(',')
            .trim_end_matches(';');
        let parts: Vec<&str> = clean.split('.').collect();
        if parts.len() >= 2
            && parts.iter().all(|p| !p.is_empty() && p.chars().all(|c| c.is_ascii_digit()))
        {
            return Some(clean.to_string());
        }
    }
    None
}

#[test]
fn version_after_a_prefix_is_found() {
    assert_eq!(find("MyTerm version v1.2.3 (build 99)"), Some("1.2.3".to_string()));
}

#[test]
fn text_without_a_dotted_number_has_no_version() {
    assert_eq!(find("MyTerm latest"), None);
    assert_eq!(find(""), None);
    assert_eq!(find("   \n\t "), None);
    assert_eq!(find("build 99"), None);
    assert_eq!(find("XTerm(379)"), None);
}

#[test]
fn the_first_word_of_the_shape_is_the_version() {
    assert_eq!(find("kitty 0.26.5 created by Kovid Goyal"), Some("0.26.5".to_string()));
    assert_eq!(find("alacritty 0.12.2 (9d9982d)"), Some("0.12.2".to_string()));
    assert_eq!(find("1.0 2.0"), Some("1.0".to_string()));
    assert_eq!(find("x 1.0.x 2.5"), Some("2.5".to_string()));
    assert_eq!(
        find("# GNOME Terminal 3.44.0 using VTE 0.68.0 +BIDI +GNUTLS"),
        Some("3.44.0".to_string())
    );
    assert_eq!(find("1.18.3231.0\r\n"), Some("1.18.3231.0".to_string()));
}

#[test]
fn what_surrounds_a_version_is_taken_off() {
    assert_eq!(find("V2.10"), Some("2.10".to_string()));
    assert_eq!(find("vvv1.2"), Some("1.2".to_string()));
    assert_eq!(find("vV1.2"), Some("1.2".to_string()));
    assert_eq!(find("1.2,"), Some("1.2".to_string()));
    assert_eq!(find("1.2;"), Some("1.2".to_string()));
    assert_eq!(find("1.2;;,,"), Some("1.2".to_string()));
    assert_eq!(find("v1.2.3;,"), Some("1.2.3".to_string()));
    // A `v` behind a `V` stays, and so does a `,` before a `;`.
    assert_eq!(find("Vv1.2"), None);
    assert_eq!(find("1.2,;"), None);
    assert_eq!(find("1.2,,;;"), None);
    assert_eq!(find("(1.2)"), None);
    assert_eq!(find("1.2."), None);
}

#[test]
fn a_version_has_two_or_more_runs_of_digits() {
    assert_eq!(find("42"), None);
    assert_eq!(find("1."), None);
    assert_eq!(find(".1"), None);
    assert_eq!(find("."), None);
    assert_eq!(find("1..2"), None);
    assert_eq!(find("1.2.a"), None);
    assert_eq!(find("1.2-beta"), None);
    assert_eq!(find("v"), None);
    assert_eq!(find("v,"), None);
    assert_eq!(find("\u{661}.\u{662}"), None);
    assert_eq!(find("0.0"), Some("0.0".to_string()));
    assert_eq!(find("10.20.30.40.50"), Some("10.20.30.40.50".to_string()));
}

#[test]
fn words_are_parted_by_any_whitespace() {
    assert_eq!(find("a\u{a0}1.2\u{2003}b"), Some("1.2".to_string()));
    assert_eq!(find("a\u{3000}v3.4;"), Some("3.4".to_string()));
    assert_eq!(find("a\u{200b}1.2"), None);
    assert_eq!(find("\n\n7.1\n"), Some("7.1".to_string()));
    assert_eq!(find("caf\u{e9} v1.5,"), Some("1.5".to_string()));
}

#[test]
fn the_version_found_is_the_one_that_the_standard_library_finds() {
    let pieces = ["", " ", "v", "V", ",", ";", ".", "1", "12", "a", "\t", "\u{a0}", "\u{e9}"];
    let mut texts: Vec<String> = vec![String::new()];
    for _ in 0..4 {
        let mut next = Vec::new();
        for t in &texts {
            for p in pieces {
                next.push(format!("{}{}", t, p));
            }
        }
        next.sort();
        next.dedup();
        texts = next;
    }
    assert!(texts.len() > 10000);
    for t in &texts {
        assert_eq!(find(t), by_std(t), "{:?}", t);
    }
}

#[test]
fn the_shape_of_a_version_is_tested_between_two_places() {
    let chars = chars_of("v1.22.3,");
    assert!(version_shaped(&chars, 1, 7));
    assert!(version_shaped(&chars, 1, 5));
    assert!(version_shaped(&chars, 3, 7));
    assert!(!version_shaped(&chars, 0, 7));
    assert!(!version_shaped(&chars, 1, 8));
    assert!(!version_shaped(&chars, 1, 6));
    assert!(!version_shaped(&chars, 2, 7));
    assert!(!version_shaped(&chars, 1, 2));
    assert!(!version_shaped(&chars, 3, 5));
    assert!(!version_shaped(&chars, 4, 4));
}
