//! The version that a terminal reports in an environment variable.

use vstd::prelude::*;
use crate::environment::{Environment, EnvironmentView};
use crate::types::{Terminal, TerminalView};
use crate::utils::get_env;
use crate::version::VersionExtractor;

verus! {

/// The variable in which `terminal` reports its version, for the terminals
/// that report it so.
pub open spec fn version_variable(terminal: TerminalView) -> Option<&'static str> {
    match terminal {
        TerminalView::Termux => Some("TERMUX_VERSION"),
        TerminalView::Konsole => Some("KONSOLE_VERSION"),
        TerminalView::AppleTerminal | TerminalView::ITerm2 | TerminalView::Hyper
        | TerminalView::Tabby => Some("TERM_PROGRAM_VERSION"),
        _ => None,
    }
}

/// The version that `terminal` reports in its variable: the value of the
/// variable as it stands.
pub open spec fn env_version(terminal: TerminalView, env: EnvironmentView) -> Option<Seq<char>> {
    match version_variable(terminal) {
        Some(name) => env.variable(name@),
        None => None,
    }
}

/// The strategy that reads the variable in which a terminal reports its
/// version.
#[derive(Clone, Copy, Debug)]
pub struct EnvVersionExtractor;

impl VersionExtractor for EnvVersionExtractor {
    open spec fn version_of(&self, terminal: TerminalView, env: EnvironmentView) -> Option<
        Seq<char>,
    > {
        env_version(terminal, env)
    }

    fn extract(&self, terminal: &Terminal, env: &Environment) -> (r: Option<String>) {
        match terminal {
            Terminal::Termux => get_env(env, "TERMUX_VERSION"),
            Terminal::Konsole => get_env(env, "KONSOLE_VERSION"),
            Terminal::AppleTerminal | Terminal::ITerm2 | Terminal::Hyper | Terminal::Tabby => {
                get_env(env, "TERM_PROGRAM_VERSION")
            },
            _ => None,
        }
    }
}

} // verus!
