//! Reading the environment variables of an `Environment`.

use vstd::prelude::*;
use crate::environment::{position, Environment, EnvironmentView};
use crate::text::{contains, lower, str_mentions};

verus! {

/// Whether a variable is set and its value, in lowercase, holds the
/// lowercase form of `fragment`.
pub open spec fn mentions(env: EnvironmentView, name: Seq<char>, fragment: Seq<char>) -> bool {
    env.variables.contains_key(name) && contains(lower(env.variables[name]), lower(fragment))
}

/// The value of the variable `key`, if it is set.
pub fn get_env(env: &Environment, key: &str) -> (r: Option<String>)
    ensures
        r.deep_view() == env@.variable(key@),
{
    match position(&env.variables, key) {
        Some(at) => Some(env.variables[at].1.clone()),
        None => None,
    }
}

/// Whether the variable `key` is set, whatever its value.
pub fn has_env(env: &Environment, key: &str) -> (r: bool)
    ensures
        r == env@.variables.contains_key(key@),
{
    position(&env.variables, key).is_some()
}

/// Whether the variable `key` is set and its value holds `substring`, the
/// case of letters set aside.
pub fn env_contains(env: &Environment, key: &str, substring: &str) -> (r: bool)
    ensures
        r == mentions(env@, key@, substring@),
{
    match position(&env.variables, key) {
        Some(at) => str_mentions(env.variables[at].1.as_str(), substring),
        None => false,
    }
}

/// Whether `name` is a variable whose presence is a signal of some
/// terminal.
pub open spec fn signal_variable(name: Seq<char>) -> bool {
    ||| name == "TERM_PROGRAM"@
    ||| name == "WT_SESSION"@
    ||| name == "WT_PROFILE_ID"@
    ||| name == "TERMUX_VERSION"@
    ||| name == "PREFIX"@
    ||| name == "ConEmuPID"@
    ||| name == "ConEmuBuild"@
    ||| name == "CMDER_ROOT"@
    ||| name == "PSModulePath"@
    ||| name == "PROMPT"@
    ||| name == "COMSPEC"@
    ||| name == "KITTY_WINDOW_ID"@
    ||| name == "ITERM_SESSION_ID"@
    ||| name == "GNOME_TERMINAL_SERVICE"@
    ||| name == "GNOME_TERMINAL_SCREEN"@
    ||| name == "KONSOLE_VERSION"@
    ||| name == "KONSOLE_DBUS_SESSION"@
    ||| name == "TERMINATOR_UUID"@
    ||| name == "TILIX_ID"@
}

/// Whether `name` is a variable that the detection looks at: a signal of
/// some terminal, the terminal type, or one of the two that are only
/// reported.
pub open spec fn watched(name: Seq<char>) -> bool {
    ||| signal_variable(name)
    ||| name == "TERM"@
    ||| name == "COLORTERM"@
    ||| name == "TERM_PROGRAM_VERSION"@
}

/// The names of the variables that the detection looks at. A result
/// depends on no other variable.
pub fn watched_variables() -> (r: Vec<&'static str>)
    ensures
        forall|i: int| 0 <= i < r@.len() ==> watched((#[trigger] r@[i])@),
        forall|name: Seq<char>|
            watched(name) ==> exists|i: int| 0 <= i < r@.len() && (#[trigger] r@[i])@ == name,
{
    let names = vec![
        "TERM",
        "COLORTERM",
        "TERM_PROGRAM",
        "TERM_PROGRAM_VERSION",
        "WT_SESSION",
        "WT_PROFILE_ID",
        "TERMUX_VERSION",
        "PREFIX",
        "ConEmuPID",
        "ConEmuBuild",
        "CMDER_ROOT",
        "PSModulePath",
        "PROMPT",
        "COMSPEC",
        "KITTY_WINDOW_ID",
        "ITERM_SESSION_ID",
        "GNOME_TERMINAL_SERVICE",
        "GNOME_TERMINAL_SCREEN",
        "KONSOLE_VERSION",
        "KONSOLE_DBUS_SESSION",
        "TERMINATOR_UUID",
        "TILIX_ID",
    ];
    assert(names@.len() == 22);
    assert forall|name: Seq<char>| watched(name) implies exists|i: int|
        0 <= i < names@.len() && (#[trigger] names@[i])@ == name by {
        let at: int = if name == "TERM"@ {
            0
        } else if name == "COLORTERM"@ {
            1
        } else if name == "TERM_PROGRAM"@ {
            2
        } else if name == "TERM_PROGRAM_VERSION"@ {
            3
        } else if name == "WT_SESSION"@ {
            4
        } else if name == "WT_PROFILE_ID"@ {
            5
        } else if name == "TERMUX_VERSION"@ {
            6
        } else if name == "PREFIX"@ {
            7
        } else if name == "ConEmuPID"@ {
            8
        } else if name == "ConEmuBuild"@ {
            9
        } else if name == "CMDER_ROOT"@ {
            10
        } else if name == "PSModulePath"@ {
            11
        } else if name == "PROMPT"@ {
            12
        } else if name == "COMSPEC"@ {
            13
        } else if name == "KITTY_WINDOW_ID"@ {
            14
        } else if name == "ITERM_SESSION_ID"@ {
            15
        } else if name == "GNOME_TERMINAL_SERVICE"@ {
            16
        } else if name == "GNOME_TERMINAL_SCREEN"@ {
            17
        } else if name == "KONSOLE_VERSION"@ {
            18
        } else if name == "KONSOLE_DBUS_SESSION"@ {
            19
        } else if name == "TERMINATOR_UUID"@ {
            20
        } else {
            21
        };
        assert(names@[at]@ == name);
    }
    names
}

} // verus!
