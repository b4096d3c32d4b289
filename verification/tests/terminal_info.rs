use which_terminal::environment::{Environment, Platform};
use which_terminal::types::{DetectionError, Terminal, TerminalInfo};

fn surroundings(variables: &[(&str, &str)]) -> Environment {
    let mut env = Environment::new(Platform::Linux);
    for (name, value) in variables {
        env.set_variable(name, value);
    }
    env
}

fn by_std(s: &str) -> (String, Option<String>) {
    match s.find('(') {
        Some(at) => (
            s[..at].trim().to_string(),
            Some(s[at + 1..].trim_end_matches(')').trim().to_string()),
        ),
        None => (s.to_string(), None),
    }
}

#[test]
fn a_new_result_has_no_version_and_carries_the_ambient_variables() {
    let env = surroundings(&[("TERM", "xterm-256color"), ("COLORTERM", "truecolor")]);
    let found = TerminalInfo::new(Terminal::Kitty, &env);
    assert_eq!(
        found,
        TerminalInfo {
            terminal: Terminal::Kitty,
            version: None,
            term_env: Some("xterm-256color".to_string()),
            colorterm_env: Some("truecolor".to_string()),
        }
    );
}

#[test]
fn a_result_with_a_version_keeps_it() {
    let env = surroundings(&[("COLORTERM", "24bit")]);
    let found = TerminalInfo::with_version(Terminal::Konsole, Some("22.12.3".to_string()), &env);
    assert_eq!(
        found,
        TerminalInfo {
            terminal: Terminal::Konsole,
            version: Some("22.12.3".to_string()),
            term_env: None,
            colorterm_env: Some("24bit".to_string()),
        }
    );
    let bare = TerminalInfo::with_version(Terminal::Konsole, None, &env);
    assert_eq!(bare, TerminalInfo::new(Terminal::Konsole, &env));
}

#[test]
fn a_result_is_shown_with_its_version_in_brackets() {
    let env = surroundings(&[]);
    let with = TerminalInfo::with_version(Terminal::Kitty, Some("0.26.5".to_string()), &env);
    assert_eq!(with.to_string(), "Kitty (0.26.5)");
    let without = TerminalInfo::new(Terminal::GnomeTerminal, &env);
    assert_eq!(without.to_string(), "GNOME Terminal");
    let other =
        TerminalInfo::with_version(Terminal::Generic("foot".to_string()), Some(String::new()), &env);
    assert_eq!(other.to_string(), "foot ()");
}

#[test]
fn a_result_is_read_from_a_name_and_a_version() {
    let env = surroundings(&[("TERM", "xterm-kitty")]);
    let read = TerminalInfo::from_str("Kitty (0.26.5)", &env).unwrap();
    assert_eq!(read.terminal, Terminal::Kitty);
    assert_eq!(read.version, Some("0.26.5".to_string()));
    assert_eq!(read.term_env, Some("xterm-kitty".to_string()));
    assert_eq!(read.colorterm_env, None);
}

#[test]
fn a_result_is_read_from_a_name_alone() {
    let env = surroundings(&[]);
    let read = TerminalInfo::from_str("iterm", &env).unwrap();
    assert_eq!(read, TerminalInfo::new(Terminal::ITerm2, &env));
    // Without a bracket nothing is trimmed.
    let spaced = TerminalInfo::from_str(" kitty ", &env).unwrap();
    assert_eq!(spaced.terminal, Terminal::Generic(" kitty ".to_string()));
    assert_eq!(spaced.version, None);
}

#[test]
fn reading_a_result_trims_the_name_and_the_version() {
    let env = surroundings(&[]);
    let read = TerminalInfo::from_str(" \tWezTerm \u{a0}(  20230712 \n)", &env).unwrap();
    assert_eq!(read.terminal, Terminal::WezTerm);
    assert_eq!(read.version, Some("20230712".to_string()));
    let more = TerminalInfo::from_str("xterm (379)))", &env).unwrap();
    assert_eq!(more.terminal, Terminal::XTerm);
    assert_eq!(more.version, Some("379".to_string()));
    // Only brackets at the very end are taken off.
    let inner = TerminalInfo::from_str("  iTerm2   ( 3.4 ) ", &env).unwrap();
    assert_eq!(inner.terminal, Terminal::ITerm2);
    assert_eq!(inner.version, Some("3.4 )".to_string()));
    let second = TerminalInfo::from_str("a (b (c))", &env).unwrap();
    assert_eq!(second.terminal, Terminal::Generic("a".to_string()));
    assert_eq!(second.version, Some("b (c".to_string()));
}

#[test]
fn reading_a_result_never_fails() {
    let env = surroundings(&[]);
    let texts = [
        "", "(", ")", "()", "((", " ( ", "kitty(", "(1.2)", "  ", "\u{3000}(\u{2003})", "K\u{e4}se (v1)",
        "no bracket at all", "Tilix (1.9.5) extra",
    ];
    for text in texts {
        let read = TerminalInfo::from_str(text, &env).unwrap();
        let (name, version) = by_std(text);
        assert_eq!(read.terminal, Terminal::from_str(&name).unwrap(), "{:?}", text);
        assert_eq!(read.version, version, "{:?}", text);
    }
    let empty = TerminalInfo::from_str("(", &env).unwrap();
    assert_eq!(empty.terminal, Terminal::Generic(String::new()));
    assert_eq!(empty.version, Some(String::new()));
}

#[test]
fn a_shown_result_is_read_back() {
    let env = surroundings(&[("TERM", "xterm")]);
    let found = TerminalInfo::with_version(Terminal::Tilix, Some("1.9.5".to_string()), &env);
    assert_eq!(TerminalInfo::from_str(&found.to_string(), &env), Ok(found.clone()));
    let bare = TerminalInfo::new(Terminal::AppleTerminal, &env);
    assert_eq!(TerminalInfo::from_str(&bare.to_string(), &env), Ok(bare));
}

#[test]
fn each_error_has_its_message() {
    assert_eq!(DetectionError::NoTerminalDetected.to_string(), "No terminal could be detected");
    assert_eq!(
        DetectionError::PartialDetection("version missing".to_string()).to_string(),
        "Partial detection: version missing"
    );
    assert_eq!(
        DetectionError::VersionQueryFailed("kitty: not found".to_string()).to_string(),
        "Version query failed: kitty: not found"
    );
    assert_eq!(DetectionError::PartialDetection(String::new()).to_string(), "Partial detection: ");
    let e = DetectionError::VersionQueryFailed("x".to_string());
    assert_eq!(e.clone(), e);
    assert_ne!(e, DetectionError::PartialDetection("x".to_string()));
}

#[test]
fn results_are_equal_when_every_field_is() {
    let base = TerminalInfo {
        terminal: Terminal::Kitty,
        version: Some("0.26.5".to_string()),
        term_env: Some("xterm-kitty".to_string()),
        colorterm_env: None,
    };
    assert_eq!(base, base.clone());
    let mut other = base.clone();
    other.terminal = Terminal::Generic("Kitty".to_string());
    assert_ne!(base, other);
    let mut other = base.clone();
    other.version = None;
    assert_ne!(base, other);
    let mut other = base.clone();
    other.version = Some("0.26.6".to_string());
    assert_ne!(base, other);
    let mut other = base.clone();
    other.term_env = Some("xterm".to_string());
    assert_ne!(base, other);
    let mut other = base.clone();
    other.colorterm_env = Some(String::new());
    assert_ne!(base, other);
}
