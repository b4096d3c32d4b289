use which_terminal::detect::detect;
use which_terminal::detector::{Detection, DetectionCoordinator, Stage};
use which_terminal::environment::{Environment, Outcome, Platform};
use which_terminal::rules::Finding;
use which_terminal::types::{Terminal, TerminalInfo};
use which_terminal::utils::watched_variables;
use which_terminal::version::exec::VersionQuery;
use which_terminal::version::VersionSource;
use which_terminal::which_terminal;

const PLATFORMS: [Platform; 5] =
    [Platform::Windows, Platform::MacOS, Platform::Linux, Platform::Android, Platform::Other];

fn surroundings(platform: Platform, variables: &[(&str, &str)]) -> Environment {
    let mut env = Environment::new(platform);
    for (name, value) in variables {
        env.set_variable(name, value);
    }
    env
}

fn finished(stdout: &str) -> Outcome {
    Outcome::Finished { success: true, stdout: stdout.as_bytes().to_vec(), stderr: Vec::new() }
}

fn resolved(env: &Environment, terminal: Terminal, version: Option<&str>) -> Detection {
    Detection::Resolved(TerminalInfo::with_version(terminal, version.map(|v| v.to_string()), env))
}

#[test]
fn program_identity_wins_over_session_variable() {
    for platform in PLATFORMS {
        let env = surroundings(
            platform,
            &[
                ("WT_SESSION", "abc"),
                ("KITTY_WINDOW_ID", "1"),
                ("ITERM_SESSION_ID", "w0"),
                ("GNOME_TERMINAL_SCREEN", "/org"),
                ("TERM", "alacritty"),
                ("TERM_PROGRAM", "WezTerm"),
                ("TERM_PROGRAM_VERSION", "20230712-072601-f4abf8fd"),
            ],
        );
        let expected = TerminalInfo {
            terminal: Terminal::WezTerm,
            version: Some("20230712-072601-f4abf8fd".to_string()),
            term_env: Some("alacritty".to_string()),
            colorterm_env: None,
        };
        assert_eq!(which_terminal(&env), Some(expected.clone()));
        assert_eq!(detect(&env), Detection::Resolved(expected));
    }
}

#[test]
fn each_exact_program_name_is_known_on_every_platform() {
    let names = [
        ("Apple_Terminal", Terminal::AppleTerminal),
        ("iTerm.app", Terminal::ITerm2),
        ("Hyper", Terminal::Hyper),
        ("Tabby", Terminal::Tabby),
        ("WezTerm", Terminal::WezTerm),
    ];
    for platform in PLATFORMS {
        for (name, terminal) in &names {
            let env = surroundings(platform, &[("TERM_PROGRAM", name), ("WT_SESSION", "1")]);
            assert_eq!(detect(&env), resolved(&env, terminal.clone(), None));
        }
    }
}

#[test]
fn no_signal_and_no_term_gives_nothing() {
    for platform in PLATFORMS {
        let env = surroundings(platform, &[]);
        assert_eq!(which_terminal(&env), None);
        assert_eq!(detect(&env), Detection::Unresolved);
        let unrelated = surroundings(
            platform,
            &[("HOME", "/root"), ("COLORTERM", "truecolor"), ("TERM_PROGRAM_VERSION", "1.0")],
        );
        assert_eq!(which_terminal(&unrelated), None);
        assert_eq!(detect(&unrelated), Detection::Unresolved);
    }
}

#[test]
fn unknown_term_is_wrapped() {
    for platform in PLATFORMS {
        let env = surroundings(platform, &[("TERM", "myshell")]);
        let expected = TerminalInfo {
            terminal: Terminal::Generic("myshell".to_string()),
            version: None,
            term_env: Some("myshell".to_string()),
            colorterm_env: None,
        };
        assert_eq!(which_terminal(&env), Some(expected.clone()));
        assert_eq!(detect(&env), Detection::Resolved(expected));
    }
}

#[test]
fn the_last_resort_keeps_the_terminal_type_as_it_stands() {
    let env = surroundings(Platform::Other, &[("TERM", "xterm-256color")]);
    assert_eq!(detect(&env), resolved(&env, Terminal::Generic("xterm-256color".to_string()), None));
    let mac = surroundings(Platform::MacOS, &[("TERM", "rxvt")]);
    assert_eq!(detect(&mac), resolved(&mac, Terminal::Generic("rxvt".to_string()), None));
    let empty = surroundings(Platform::Linux, &[("TERM", "")]);
    assert_eq!(detect(&empty), resolved(&empty, Terminal::Generic(String::new()), None));
}

#[test]
fn the_fast_path_decides_before_the_platform() {
    let cases: Vec<(Vec<(&str, &str)>, Terminal, Option<&str>)> = vec![
        (vec![("WT_SESSION", "1")], Terminal::WindowsTerminal, None),
        (vec![("WT_PROFILE_ID", "1")], Terminal::WindowsTerminal, None),
        (vec![("TERMUX_VERSION", "0.118.0")], Terminal::Termux, Some("0.118.0")),
        (vec![("ConEmuPID", "7"), ("ConEmuBuild", "230724")], Terminal::ConEmu, None),
        (vec![("KITTY_WINDOW_ID", "1")], Terminal::Kitty, None),
        (vec![("CMDER_ROOT", "c")], Terminal::Cmder, None),
        (vec![("TERM", "alacritty")], Terminal::Alacritty, None),
        (vec![("TERM", "xterm-kitty")], Terminal::Kitty, None),
        (vec![("KITTY_WINDOW_ID", "1"), ("TERM", "alacritty")], Terminal::Kitty, None),
        (vec![("KITTY_WINDOW_ID", "1"), ("CMDER_ROOT", "c")], Terminal::Kitty, None),
        (vec![("WT_SESSION", "1"), ("GNOME_TERMINAL_SCREEN", "/org")], Terminal::WindowsTerminal, None),
        (vec![("TERM_PROGRAM", "vscode"), ("WT_SESSION", "1")], Terminal::WindowsTerminal, None),
    ];
    for platform in PLATFORMS {
        for (variables, terminal, version) in &cases {
            let env = surroundings(platform, variables);
            assert_eq!(
                detect(&env),
                resolved(&env, terminal.clone(), *version),
                "{:?} {:?}",
                platform,
                variables
            );
        }
    }
}

#[test]
fn the_platform_decides_where_the_fast_path_finds_nothing() {
    let linux = surroundings(Platform::Linux, &[("TERMINATOR_UUID", "u"), ("TERM", "xterm")]);
    assert_eq!(detect(&linux), resolved(&linux, Terminal::Terminator, None));
    let windows = surroundings(Platform::Windows, &[("COMSPEC", "c"), ("TERM", "xterm")]);
    assert_eq!(detect(&windows), resolved(&windows, Terminal::CommandPrompt, None));
    let mac = surroundings(
        Platform::MacOS,
        &[("ITERM_SESSION_ID", "w0"), ("TERM_PROGRAM_VERSION", "3.4.19")],
    );
    assert_eq!(detect(&mac), resolved(&mac, Terminal::ITerm2, Some("3.4.19")));
    let android =
        surroundings(Platform::Android, &[("PREFIX", "/data/data/com.termux/files/usr")]);
    assert_eq!(detect(&android), resolved(&android, Terminal::Termux, None));
    // The same signals mean nothing to another platform.
    let elsewhere = surroundings(Platform::Other, &[("TERMINATOR_UUID", "u"), ("COMSPEC", "c")]);
    assert_eq!(detect(&elsewhere), Detection::Unresolved);
    let wrong = surroundings(Platform::Linux, &[("COMSPEC", "c"), ("TERM", "dumb")]);
    assert_eq!(detect(&wrong), resolved(&wrong, Terminal::Generic("dumb".to_string()), None));
}

#[test]
fn the_directory_of_termux_counts_on_android_alone() {
    for platform in PLATFORMS {
        let mut env = surroundings(platform, &[]);
        env.termux_directory = true;
        if platform == Platform::Android {
            assert_eq!(detect(&env), resolved(&env, Terminal::Termux, None));
        } else {
            assert_eq!(detect(&env), Detection::Unresolved);
        }
    }
}

#[test]
fn the_stages_are_asked_in_their_order() {
    let coordinator = DetectionCoordinator::new();
    let env = surroundings(
        Platform::Linux,
        &[("CMDER_ROOT", "c"), ("TILIX_ID", "t"), ("TERM", "screen")],
    );
    assert_eq!(
        coordinator.detect_fast_path(&env),
        Some(Finding { terminal: Terminal::Cmder, version: VersionSource::Unreported })
    );
    assert_eq!(
        coordinator.detect_platform_specific(&env),
        Some(Finding { terminal: Terminal::Tilix, version: VersionSource::Executable })
    );
    assert_eq!(
        coordinator.detect_generic(&env),
        Some(Finding {
            terminal: Terminal::Generic("screen".to_string()),
            version: VersionSource::Unreported
        })
    );
    assert_eq!(coordinator.find(&env), coordinator.detect_fast_path(&env));
    let later = surroundings(Platform::Linux, &[("TILIX_ID", "t"), ("TERM", "screen")]);
    assert_eq!(coordinator.detect_fast_path(&later), None);
    assert_eq!(coordinator.find(&later), coordinator.detect_platform_specific(&later));
    let last = surroundings(Platform::Linux, &[("TERM", "screen")]);
    assert_eq!(coordinator.detect_platform_specific(&last), None);
    assert_eq!(coordinator.find(&last), coordinator.detect_generic(&last));
    assert_eq!(coordinator.detect_generic(&surroundings(Platform::Linux, &[])), None);
    assert_eq!(coordinator.detect_platform_specific(&surroundings(Platform::Other, &[("TILIX_ID", "t")])), None);
}

#[test]
fn gnome_terminal_asks_for_its_executable() {
    let mut env = surroundings(Platform::Linux, &[("GNOME_TERMINAL_SERVICE", ":1.99")]);
    assert_eq!(
        detect(&env),
        Detection::NeedsQuery(
            Terminal::GnomeTerminal,
            VersionQuery { program: "gnome-terminal", args: vec!["--version"] }
        )
    );
    // Without the run, the answer has the terminal and no version.
    assert_eq!(which_terminal(&env), Some(TerminalInfo::new(Terminal::GnomeTerminal, &env)));
    env.record_execution("gnome-terminal", finished("# GNOME Terminal 3.44.0 using VTE 0.68.0\n"));
    assert_eq!(detect(&env), resolved(&env, Terminal::GnomeTerminal, Some("3.44.0")));
    assert_eq!(
        which_terminal(&env),
        Some(TerminalInfo::with_version(Terminal::GnomeTerminal, Some("3.44.0".to_string()), &env))
    );
}

#[test]
fn a_version_in_a_variable_spares_the_executable() {
    let told = surroundings(Platform::Linux, &[("KONSOLE_VERSION", "22.12.3")]);
    assert_eq!(detect(&told), resolved(&told, Terminal::Konsole, Some("22.12.3")));
    let mut untold = surroundings(Platform::Linux, &[("KONSOLE_DBUS_SESSION", "/Sessions/1")]);
    assert_eq!(
        detect(&untold),
        Detection::NeedsQuery(
            Terminal::Konsole,
            VersionQuery { program: "konsole", args: vec!["--version"] }
        )
    );
    untold.record_execution("konsole", finished("konsole 23.08.1\n"));
    assert_eq!(detect(&untold), resolved(&untold, Terminal::Konsole, Some("23.08.1")));
}

#[test]
fn an_executable_that_is_missing_leaves_the_terminal_without_a_version() {
    let mut env = surroundings(Platform::Linux, &[("TERM", "xterm-256color")]);
    assert_eq!(
        detect(&env),
        Detection::NeedsQuery(
            Terminal::XTerm,
            VersionQuery { program: "xterm", args: vec!["-version"] }
        )
    );
    env.record_execution("xterm", Outcome::NotStarted);
    assert_eq!(detect(&env), resolved(&env, Terminal::XTerm, None));
    let mut failed = surroundings(Platform::Linux, &[("TILIX_ID", "t")]);
    failed.record_execution(
        "tilix",
        Outcome::Finished { success: false, stdout: b"1.9.5".to_vec(), stderr: Vec::new() },
    );
    assert_eq!(detect(&failed), resolved(&failed, Terminal::Tilix, None));
}

#[test]
fn one_run_settles_every_detection() {
    let signals = [
        "TERM_PROGRAM", "WT_SESSION", "KITTY_WINDOW_ID", "GNOME_TERMINAL_SCREEN",
        "KONSOLE_DBUS_SESSION", "TILIX_ID", "ITERM_SESSION_ID", "COMSPEC",
    ];
    let values = ["wezterm", "xterm-kitty", "alacritty", "1"];
    for platform in PLATFORMS {
        for signal in signals {
            for value in values {
                for term in [None, Some("xterm"), Some("rxvt")] {
                    let mut env = surroundings(platform, &[(signal, value)]);
                    if let Some(t) = term {
                        env.set_variable("TERM", t);
                    }
                    let settled = which_terminal(&env);
                    match detect(&env) {
                        Detection::Unresolved => assert_eq!(settled, None),
                        Detection::Resolved(found) => assert_eq!(settled, Some(found)),
                        Detection::NeedsQuery(terminal, query) => {
                            assert_eq!(settled.unwrap().terminal, terminal);
                            env.record_execution(query.program, finished("v9.8.7,"));
                            assert_eq!(
                                detect(&env),
                                resolved(&env, terminal, Some("9.8.7"))
                            );
                        }
                    }
                }
            }
        }
    }
}

#[test]
fn only_the_watched_variables_matter() {
    let names = watched_variables();
    let base = [
        ("TERM", "xterm-256color"),
        ("COLORTERM", "truecolor"),
        ("KONSOLE_VERSION", "22.12.3"),
        ("PSModulePath", "p"),
        ("COMSPEC", "c"),
    ];
    for platform in PLATFORMS {
        let env = surroundings(platform, &base);
        let mut more = surroundings(platform, &[("HOME", "/root"), ("TERMINAL", "kitty")]);
        for (name, value) in base {
            assert!(names.contains(&name));
            more.set_variable(name, value);
        }
        more.set_variable("LANG", "C");
        assert_eq!(
            format!("{:?}", detect(&env)),
            format!("{:?}", detect(&more))
        );
        assert_eq!(which_terminal(&env), which_terminal(&more));
    }
}

#[test]
fn detections_do_not_disturb_each_other() {
    let first = surroundings(Platform::Linux, &[("TERM", "myshell")]);
    let second = surroundings(Platform::MacOS, &[("TERM_PROGRAM", "iTerm.app")]);
    let coordinator = DetectionCoordinator::new();
    let one = coordinator.detect(&first);
    let two = coordinator.detect(&second);
    let one_again = coordinator.detect(&first);
    let two_again = DetectionCoordinator::new().detect(&second);
    assert_eq!(one, one_again);
    assert_eq!(two, two_again);
    assert_eq!(one, resolved(&first, Terminal::Generic("myshell".to_string()), None));
    assert_eq!(two, resolved(&second, Terminal::ITerm2, None));
    assert_eq!(first, surroundings(Platform::Linux, &[("TERM", "myshell")]));
}

#[test]
fn a_stage_that_finds_a_terminal_ends_the_run() {
    let coordinator = DetectionCoordinator::new();
    let env = surroundings(
        Platform::Linux,
        &[("CMDER_ROOT", "c"), ("TILIX_ID", "t"), ("TERM", "screen")],
    );
    let cmder = Finding { terminal: Terminal::Cmder, version: VersionSource::Unreported };
    assert_eq!(coordinator.advance(Stage::NotStarted, &env), Stage::FastPath);
    assert_eq!(coordinator.advance(Stage::FastPath, &env), Stage::Resolved(cmder));
    assert_eq!(
        coordinator.advance(Stage::PlatformSpecific, &env),
        Stage::Resolved(Finding { terminal: Terminal::Tilix, version: VersionSource::Executable })
    );
    assert_eq!(
        coordinator.advance(Stage::GenericFallback, &env),
        Stage::Resolved(Finding {
            terminal: Terminal::Generic("screen".to_string()),
            version: VersionSource::Unreported
        })
    );
}

#[test]
fn a_stage_that_finds_nothing_leads_to_the_next() {
    let coordinator = DetectionCoordinator::new();
    let env = surroundings(Platform::Linux, &[]);
    assert_eq!(coordinator.advance(Stage::NotStarted, &env), Stage::FastPath);
    assert_eq!(coordinator.advance(Stage::FastPath, &env), Stage::PlatformSpecific);
    assert_eq!(coordinator.advance(Stage::PlatformSpecific, &env), Stage::GenericFallback);
    assert_eq!(coordinator.advance(Stage::GenericFallback, &env), Stage::Unresolved);
}

#[test]
fn nothing_leads_away_from_a_result() {
    let coordinator = DetectionCoordinator::new();
    let env = surroundings(Platform::Linux, &[("KITTY_WINDOW_ID", "1"), ("TERM", "xterm")]);
    let hyper = || Finding { terminal: Terminal::Hyper, version: VersionSource::Environment };
    assert_eq!(coordinator.advance(Stage::Resolved(hyper()), &env), Stage::Resolved(hyper()));
    assert_eq!(coordinator.advance(Stage::Unresolved, &env), Stage::Unresolved);
}
