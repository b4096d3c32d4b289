//! The strategy for Linux.

use vstd::prelude::*;
use crate::environment::{Environment, Platform};
use crate::platform::{detect_by, PlatformDetector};
use crate::rules::{ordered_by_tier, well_formed, well_made, Rule, Signal, Tier};
use crate::types::{Terminal, TerminalInfo};
use crate::version::VersionSource;

verus! {

/// The rules for Linux. A terminal that names itself in `TERM_PROGRAM`
/// comes first; then the window variable of Kitty; then the variables of
/// GNOME Terminal, Konsole, Terminator and Tilix; last the fragments of
/// `TERM`, `kitty` before `xterm`, since the terminal type of Kitty holds
/// both.
pub open spec fn linux_rules() -> Seq<Rule> {
    seq![
        Rule {
            tier: Tier::ProgramIdentity,
            signal: Signal::Mentions("TERM_PROGRAM", "WezTerm"),
            terminal: Terminal::WezTerm,
            version: VersionSource::EnvironmentThenExecutable,
        },
        Rule {
            tier: Tier::ProgramIdentity,
            signal: Signal::Mentions("TERM_PROGRAM", "Hyper"),
            terminal: Terminal::Hyper,
            version: VersionSource::Environment,
        },
        Rule {
            tier: Tier::ProgramIdentity,
            signal: Signal::Mentions("TERM_PROGRAM", "Tabby"),
            terminal: Terminal::Tabby,
            version: VersionSource::Environment,
        },
        Rule {
            tier: Tier::UniqueVariable,
            signal: Signal::Present("KITTY_WINDOW_ID"),
            terminal: Terminal::Kitty,
            version: VersionSource::Executable,
        },
        Rule {
            tier: Tier::FamilyVariable,
            signal: Signal::Present("GNOME_TERMINAL_SERVICE"),
            terminal: Terminal::GnomeTerminal,
            version: VersionSource::Executable,
        },
        Rule {
            tier: Tier::FamilyVariable,
            signal: Signal::Present("GNOME_TERMINAL_SCREEN"),
            terminal: Terminal::GnomeTerminal,
            version: VersionSource::Executable,
        },
        Rule {
            tier: Tier::FamilyVariable,
            signal: Signal::Present("KONSOLE_VERSION"),
            terminal: Terminal::Konsole,
            version: VersionSource::EnvironmentThenExecutable,
        },
        Rule {
            tier: Tier::FamilyVariable,
            signal: Signal::Present("KONSOLE_DBUS_SESSION"),
            terminal: Terminal::Konsole,
            version: VersionSource::EnvironmentThenExecutable,
        },
        Rule {
            tier: Tier::FamilyVariable,
            signal: Signal::Present("TERMINATOR_UUID"),
            terminal: Terminal::Terminator,
            version: VersionSource::Unreported,
        },
        Rule {
            tier: Tier::FamilyVariable,
            signal: Signal::Present("TILIX_ID"),
            terminal: Terminal::Tilix,
            version: VersionSource::Executable,
        },
        Rule {
            tier: Tier::TermPattern,
            signal: Signal::Mentions("TERM", "alacritty"),
            terminal: Terminal::Alacritty,
            version: VersionSource::Executable,
        },
        Rule {
            tier: Tier::TermPattern,
            signal: Signal::Mentions("TERM", "kitty"),
            terminal: Terminal::Kitty,
            version: VersionSource::Executable,
        },
        Rule {
            tier: Tier::TermPattern,
            signal: Signal::Mentions("TERM", "xterm"),
            terminal: Terminal::XTerm,
            version: VersionSource::Executable,
        },
        Rule {
            tier: Tier::TermPattern,
            signal: Signal::Mentions("TERM", "rxvt"),
            terminal: Terminal::Rxvt,
            version: VersionSource::Unreported,
        },
    ]
}

/// The strategy for Linux.
#[derive(Clone, Copy, Debug)]
pub struct LinuxDetector;

impl PlatformDetector for LinuxDetector {
    open spec fn target(&self) -> Platform {
        Platform::Linux
    }

    open spec fn rules(&self) -> Seq<Rule> {
        linux_rules()
    }

    fn table(&self) -> (r: Vec<Rule>) {
        let rules = vec![
            Rule {
                tier: Tier::ProgramIdentity,
                signal: Signal::Mentions("TERM_PROGRAM", "WezTerm"),
                terminal: Terminal::WezTerm,
                version: VersionSource::EnvironmentThenExecutable,
            },
            Rule {
                tier: Tier::ProgramIdentity,
                signal: Signal::Mentions("TERM_PROGRAM", "Hyper"),
                terminal: Terminal::Hyper,
                version: VersionSource::Environment,
            },
            Rule {
                tier: Tier::ProgramIdentity,
                signal: Signal::Mentions("TERM_PROGRAM", "Tabby"),
                terminal: Terminal::Tabby,
                version: VersionSource::Environment,
            },
            Rule {
                tier: Tier::UniqueVariable,
                signal: Signal::Present("KITTY_WINDOW_ID"),
                terminal: Terminal::Kitty,
                version: VersionSource::Executable,
            },
            Rule {
                tier: Tier::FamilyVariable,
                signal: Signal::Present("GNOME_TERMINAL_SERVICE"),
                terminal: Terminal::GnomeTerminal,
                version: VersionSource::Executable,
            },
            Rule {
                tier: Tier::FamilyVariable,
                signal: Signal::Present("GNOME_TERMINAL_SCREEN"),
                terminal: Terminal::GnomeTerminal,
                version: VersionSource::Executable,
            },
            Rule {
                tier: Tier::FamilyVariable,
                signal: Signal::Present("KONSOLE_VERSION"),
                terminal: Terminal::Konsole,
                version: VersionSource::EnvironmentThenExecutable,
            },
            Rule {
                tier: Tier::FamilyVariable,
                signal: Signal::Present("KONSOLE_DBUS_SESSION"),
                terminal: Terminal::Konsole,
                version: VersionSource::EnvironmentThenExecutable,
            },
            Rule {
                tier: Tier::FamilyVariable,
                signal: Signal::Present("TERMINATOR_UUID"),
                terminal: Terminal::Terminator,
                version: VersionSource::Unreported,
            },
            Rule {
                tier: Tier::FamilyVariable,
                signal: Signal::Present("TILIX_ID"),
                terminal: Terminal::Tilix,
                version: VersionSource::Executable,
            },
            Rule {
                tier: Tier::TermPattern,
                signal: Signal::Mentions("TERM", "alacritty"),
                terminal: Terminal::Alacritty,
                version: VersionSource::Executable,
            },
            Rule {
                tier: Tier::TermPattern,
                signal: Signal::Mentions("TERM", "kitty"),
                terminal: Terminal::Kitty,
                version: VersionSource::Executable,
            },
            Rule {
                tier: Tier::TermPattern,
                signal: Signal::Mentions("TERM", "xterm"),
                terminal: Terminal::XTerm,
                version: VersionSource::Executable,
            },
            Rule {
                tier: Tier::TermPattern,
                signal: Signal::Mentions("TERM", "rxvt"),
                terminal: Terminal::Rxvt,
                version: VersionSource::Unreported,
            },
        ];
        assert(rules@ =~= linux_rules());
        rules
    }

    fn detect(&self, env: &Environment) -> (r: Option<TerminalInfo>) {
        if !self.is_applicable(env) {
            return None;
        }
        let rules = self.table();
        detect_by(&rules, env)
    }

    fn is_applicable(&self, env: &Environment) -> (r: bool) {
        match env.platform {
            Platform::Linux => true,
            _ => false,
        }
    }
}

/// The rules for Linux are well made: each names a known terminal and
/// stands in the tier of its signal, and the tiers stand in order, the most
/// specific first.
pub proof fn lemma_linux_rules_well_formed()
    ensures
        well_formed(linux_rules()),
{
    let rules = linux_rules();
    assert(rules.len() == 14);
    assert forall|i: int| 0 <= i < rules.len() implies well_made(#[trigger] rules[i]) by {}
    assert(ordered_by_tier(rules));
}

} // verus!
