//! The strategy for macOS.

use vstd::prelude::*;
use crate::environment::{Environment, Platform};
use crate::platform::{detect_by, PlatformDetector};
use crate::rules::{ordered_by_tier, well_formed, well_made, Rule, Signal, Tier};
use crate::types::{Terminal, TerminalInfo};
use crate::version::VersionSource;

verus! {

/// The rules for macOS. The exact names in `TERM_PROGRAM` come first; then
/// the session variable of iTerm2 and the window variable of Kitty; last the
/// fragments of `TERM`.
pub open spec fn macos_rules() -> Seq<Rule> {
    seq![
        Rule {
            tier: Tier::ProgramIdentity,
            signal: Signal::Equals("TERM_PROGRAM", "Apple_Terminal"),
            terminal: Terminal::AppleTerminal,
            version: VersionSource::Environment,
        },
        Rule {
            tier: Tier::ProgramIdentity,
            signal: Signal::Equals("TERM_PROGRAM", "iTerm.app"),
            terminal: Terminal::ITerm2,
            version: VersionSource::Environment,
        },
        Rule {
            tier: Tier::ProgramIdentity,
            signal: Signal::Equals("TERM_PROGRAM", "Hyper"),
            terminal: Terminal::Hyper,
            version: VersionSource::Environment,
        },
        Rule {
            tier: Tier::ProgramIdentity,
            signal: Signal::Equals("TERM_PROGRAM", "Tabby"),
            terminal: Terminal::Tabby,
            version: VersionSource::Environment,
        },
        Rule {
            tier: Tier::ProgramIdentity,
            signal: Signal::Equals("TERM_PROGRAM", "WezTerm"),
            terminal: Terminal::WezTerm,
            version: VersionSource::EnvironmentThenExecutable,
        },
        Rule {
            tier: Tier::UniqueVariable,
            signal: Signal::Present("ITERM_SESSION_ID"),
            terminal: Terminal::ITerm2,
            version: VersionSource::Environment,
        },
        Rule {
            tier: Tier::UniqueVariable,
            signal: Signal::Present("KITTY_WINDOW_ID"),
            terminal: Terminal::Kitty,
            version: VersionSource::Executable,
        },
        Rule {
            tier: Tier::TermPattern,
            signal: Signal::Mentions("TERM", "alacritty"),
            terminal: Terminal::Alacritty,
            version: VersionSource::Executable,
        },
        Rule {
            tier: Tier::TermPattern,
            signal: Signal::Mentions("TERM", "kitty"),
            terminal: Terminal::Kitty,
            version: VersionSource::Executable,
        },
    ]
}

/// The strategy for macOS.
#[derive(Clone, Copy, Debug)]
pub struct MacOSDetector;

impl PlatformDetector for MacOSDetector {
    open spec fn target(&self) -> Platform {
        Platform::MacOS
    }

    open spec fn rules(&self) -> Seq<Rule> {
        macos_rules()
    }

    fn table(&self) -> (r: Vec<Rule>) {
        let rules = vec![
            Rule {
                tier: Tier::ProgramIdentity,
                signal: Signal::Equals("TERM_PROGRAM", "Apple_Terminal"),
                terminal: Terminal::AppleTerminal,
                version: VersionSource::Environment,
            },
            Rule {
                tier: Tier::ProgramIdentity,
                signal: Signal::Equals("TERM_PROGRAM", "iTerm.app"),
                terminal: Terminal::ITerm2,
                version: VersionSource::Environment,
            },
            Rule {
                tier: Tier::ProgramIdentity,
                signal: Signal::Equals("TERM_PROGRAM", "Hyper"),
                terminal: Terminal::Hyper,
                version: VersionSource::Environment,
            },
            Rule {
                tier: Tier::ProgramIdentity,
                signal: Signal::Equals("TERM_PROGRAM", "Tabby"),
                terminal: Terminal::Tabby,
                version: VersionSource::Environment,
            },
            Rule {
                tier: Tier::ProgramIdentity,
                signal: Signal::Equals("TERM_PROGRAM", "WezTerm"),
                terminal: Terminal::WezTerm,
                version: VersionSource::EnvironmentThenExecutable,
            },
            Rule {
                tier: Tier::UniqueVariable,
                signal: Signal::Present("ITERM_SESSION_ID"),
                terminal: Terminal::ITerm2,
                version: VersionSource::Environment,
            },
            Rule {
                tier: Tier::UniqueVariable,
                signal: Signal::Present("KITTY_WINDOW_ID"),
                terminal: Terminal::Kitty,
                version: VersionSource::Executable,
            },
            Rule {
                tier: Tier::TermPattern,
                signal: Signal::Mentions("TERM", "alacritty"),
                terminal: Terminal::Alacritty,
                version: VersionSource::Executable,
            },
            Rule {
                tier: Tier::TermPattern,
                signal: Signal::Mentions("TERM", "kitty"),
                terminal: Terminal::Kitty,
                version: VersionSource::Executable,
            },
        ];
        assert(rules@ =~= macos_rules());
        rules
    }

    fn detect(&self, env: &Environment) -> (r: Option<TerminalInfo>) {
        if !self.is_applicable(env) {
            return None;
        }
        let rules = self.table();
        detect_by(&rules, env)
    }

    fn is_applicable(&self, env: &Environment) -> (r: bool) {
        match env.platform {
            Platform::MacOS => true,
            _ => false,
        }
    }
}

/// The rules for macOS are well made: each names a known terminal and
/// stands in the tier of its signal, and the tiers stand in order, the most
/// specific first.
pub proof fn lemma_macos_rules_well_formed()
    ensures
        well_formed(macos_rules()),
{
    let rules = macos_rules();
    assert(rules.len() == 9);
    assert forall|i: int| 0 <= i < rules.len() implies well_made(#[trigger] rules[i]) by {}
    assert(ordered_by_tier(rules));
}

} // verus!
