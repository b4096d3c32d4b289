use which_terminal::environment::{position, Environment, Outcome, Platform};
use which_terminal::utils::{env_contains, get_env, has_env, watched_variables};

#[test]
fn new_surroundings_hold_nothing() {
    let env = Environment::new(Platform::MacOS);
    assert_eq!(env.platform, Platform::MacOS);
    assert!(env.variables.is_empty());
    assert!(!env.termux_directory);
    assert!(env.executions.is_empty());
    assert_eq!(get_env(&env, "TERM"), None);
    assert!(!has_env(&env, "TERM"));
    assert!(!env_contains(&env, "TERM", ""));
}

#[test]
fn a_variable_that_is_set_is_found_by_its_exact_name() {
    let mut env = Environment::new(Platform::Linux);
    env.set_variable("TERM", "xterm-256color");
    env.set_variable("EMPTY", "");
    assert_eq!(get_env(&env, "TERM"), Some("xterm-256color".to_string()));
    assert_eq!(get_env(&env, "term"), None);
    assert_eq!(get_env(&env, "TERM "), None);
    assert_eq!(get_env(&env, "EMPTY"), Some(String::new()));
    assert!(has_env(&env, "TERM"));
    assert!(has_env(&env, "EMPTY"));
    assert!(!has_env(&env, "TER"));
}

#[test]
fn setting_a_variable_again_replaces_its_value() {
    let mut env = Environment::new(Platform::Linux);
    env.set_variable("TERM", "xterm");
    env.set_variable("COLORTERM", "truecolor");
    env.set_variable("TERM", "alacritty");
    assert_eq!(get_env(&env, "TERM"), Some("alacritty".to_string()));
    assert_eq!(get_env(&env, "COLORTERM"), Some("truecolor".to_string()));
}

#[test]
fn where_a_name_stands_twice_the_first_entry_counts() {
    let env = Environment {
        platform: Platform::Linux,
        variables: vec![
            ("A".to_string(), "first".to_string()),
            ("B".to_string(), "other".to_string()),
            ("A".to_string(), "second".to_string()),
        ],
        termux_directory: false,
        executions: Vec::new(),
    };
    assert_eq!(get_env(&env, "A"), Some("first".to_string()));
    assert_eq!(position(&env.variables, "A"), Some(0));
    assert_eq!(position(&env.variables, "B"), Some(1));
    assert_eq!(position(&env.variables, "C"), None);
}

#[test]
fn a_value_is_searched_with_the_case_of_letters_set_aside() {
    let mut env = Environment::new(Platform::Linux);
    env.set_variable("TERM", "XTerm-Kitty");
    assert!(env_contains(&env, "TERM", "kitty"));
    assert!(env_contains(&env, "TERM", "KITTY"));
    assert!(env_contains(&env, "TERM", "xterm"));
    assert!(env_contains(&env, "TERM", ""));
    assert!(!env_contains(&env, "TERM", "alacritty"));
    assert!(!env_contains(&env, "TERMINAL", "kitty"));
}

#[test]
fn a_recorded_run_replaces_an_earlier_one() {
    let mut env = Environment::new(Platform::Linux);
    env.record_execution("kitty", Outcome::NotStarted);
    env.record_execution(
        "kitty",
        Outcome::Finished { success: true, stdout: b"kitty 0.26.5".to_vec(), stderr: Vec::new() },
    );
    let at = position(&env.executions, "kitty").unwrap();
    assert_eq!(
        env.executions[at].1,
        Outcome::Finished { success: true, stdout: b"kitty 0.26.5".to_vec(), stderr: Vec::new() }
    );
    assert_eq!(position(&env.executions, "xterm"), None);
}

#[test]
fn the_watched_variables_are_named_once_each() {
    let names = watched_variables();
    assert_eq!(names.len(), 22);
    for (i, name) in names.iter().enumerate() {
        assert!(!names[..i].contains(name), "{} stands twice", name);
    }
    for name in ["TERM", "COLORTERM", "TERM_PROGRAM", "TERM_PROGRAM_VERSION", "ConEmuBuild", "PROMPT"] {
        assert!(names.contains(&name));
    }
}
