//! The strategy for Windows.

use vstd::prelude::*;
use crate::environment::{Environment, Platform};
use crate::platform::{detect_by, PlatformDetector};
use crate::rules::{ordered_by_tier, well_formed, well_made, Rule, Signal, Tier};
use crate::types::{Terminal, TerminalInfo};
use crate::version::VersionSource;

verus! {

/// The rules for Windows. A terminal that names itself in `TERM_PROGRAM`
/// comes first; then the variables that only one terminal sets (Windows
/// Terminal, ConEmu, Kitty); then Cmder and the two shells, where PowerShell
/// needs its module path beside a prompt or a command interpreter, and the
/// Command Prompt needs a command interpreter without PowerShell's module
/// path; last the fragments of `TERM`.
pub open spec fn windows_rules() -> Seq<Rule> {
    seq![
        Rule {
            tier: Tier::ProgramIdentity,
            signal: Signal::Mentions("TERM_PROGRAM", "WezTerm"),
            terminal: Terminal::WezTerm,
            version: VersionSource::EnvironmentThenExecutable,
        },
        Rule {
            tier: Tier::ProgramIdentity,
            signal: Signal::Mentions("TERM_PROGRAM", "Hyper"),
            terminal: Terminal::Hyper,
            version: VersionSource::Environment,
        },
        Rule {
            tier: Tier::ProgramIdentity,
            signal: Signal::Mentions("TERM_PROGRAM", "Tabby"),
            terminal: Terminal::Tabby,
            version: VersionSource::Environment,
        },
        Rule {
            tier: Tier::UniqueVariable,
            signal: Signal::Present("WT_SESSION"),
            terminal: Terminal::WindowsTerminal,
            version: VersionSource::Executable,
        },
        Rule {
            tier: Tier::UniqueVariable,
            signal: Signal::Present("WT_PROFILE_ID"),
            terminal: Terminal::WindowsTerminal,
            version: VersionSource::Executable,
        },
        Rule {
            tier: Tier::UniqueVariable,
            signal: Signal::Present("ConEmuPID"),
            terminal: Terminal::ConEmu,
            version: VersionSource::Variable("ConEmuBuild"),
        },
        Rule {
            tier: Tier::UniqueVariable,
            signal: Signal::Present("ConEmuBuild"),
            terminal: Terminal::ConEmu,
            version: VersionSource::Variable("ConEmuBuild"),
        },
        Rule {
            tier: Tier::UniqueVariable,
            signal: Signal::Present("KITTY_WINDOW_ID"),
            terminal: Terminal::Kitty,
            version: VersionSource::Executable,
        },
        Rule {
            tier: Tier::FamilyVariable,
            signal: Signal::Present("CMDER_ROOT"),
            terminal: Terminal::Cmder,
            version: VersionSource::Unreported,
        },
        Rule {
            tier: Tier::FamilyVariable,
            signal: Signal::PresentBoth("PSModulePath", "PROMPT"),
            terminal: Terminal::PowerShell,
            version: VersionSource::Unreported,
        },
        Rule {
            tier: Tier::FamilyVariable,
            signal: Signal::PresentBoth("PSModulePath", "COMSPEC"),
            terminal: Terminal::PowerShell,
            version: VersionSource::Unreported,
        },
        Rule {
            tier: Tier::FamilyVariable,
            signal: Signal::PresentWithout("COMSPEC", "PSModulePath"),
            terminal: Terminal::CommandPrompt,
            version: VersionSource::Unreported,
        },
        Rule {
            tier: Tier::TermPattern,
            signal: Signal::Mentions("TERM", "alacritty"),
            terminal: Terminal::Alacritty,
            version: VersionSource::Executable,
        },
        Rule {
            tier: Tier::TermPattern,
            signal: Signal::Mentions("TERM", "kitty"),
            terminal: Terminal::Kitty,
            version: VersionSource::Executable,
        },
    ]
}

/// The strategy for Windows.
#[derive(Clone, Copy, Debug)]
pub struct WindowsDetector;

impl PlatformDetector for WindowsDetector {
    open spec fn target(&self) -> Platform {
        Platform::Windows
    }

    open spec fn rules(&self) -> Seq<Rule> {
        windows_rules()
    }

    fn table(&self) -> (r: Vec<Rule>) {
        let rules = vec![
            Rule {
                tier: Tier::ProgramIdentity,
                signal: Signal::Mentions("TERM_PROGRAM", "WezTerm"),
                terminal: Terminal::WezTerm,
                version: VersionSource::EnvironmentThenExecutable,
            },
            Rule {
                tier: Tier::ProgramIdentity,
                signal: Signal::Mentions("TERM_PROGRAM", "Hyper"),
                terminal: Terminal::Hyper,
                version: VersionSource::Environment,
            },
            Rule {
                tier: Tier::ProgramIdentity,
                signal: Signal::Mentions("TERM_PROGRAM", "Tabby"),
                terminal: Terminal::Tabby,
                version: VersionSource::Environment,
            },
            Rule {
                tier: Tier::UniqueVariable,
                signal: Signal::Present("WT_SESSION"),
                terminal: Terminal::WindowsTerminal,
                version: VersionSource::Executable,
            },
            Rule {
                tier: Tier::UniqueVariable,
                signal: Signal::Present("WT_PROFILE_ID"),
                terminal: Terminal::WindowsTerminal,
                version: VersionSource::Executable,
            },
            Rule {
                tier: Tier::UniqueVariable,
                signal: Signal::Present("ConEmuPID"),
                terminal: Terminal::ConEmu,
                version: VersionSource::Variable("ConEmuBuild"),
            },
            Rule {
                tier: Tier::UniqueVariable,
                signal: Signal::Present("ConEmuBuild"),
                terminal: Terminal::ConEmu,
                version: VersionSource::Variable("ConEmuBuild"),
            },
            Rule {
                tier: Tier::UniqueVariable,
                signal: Signal::Present("KITTY_WINDOW_ID"),
                terminal: Terminal::Kitty,
                version: VersionSource::Executable,
            },
            Rule {
                tier: Tier::FamilyVariable,
                signal: Signal::Present("CMDER_ROOT"),
                terminal: Terminal::Cmder,
                version: VersionSource::Unreported,
            },
            Rule {
                tier: Tier::FamilyVariable,
                signal: Signal::PresentBoth("PSModulePath", "PROMPT"),
                terminal: Terminal::PowerShell,
                version: VersionSource::Unreported,
            },
            Rule {
                tier: Tier::FamilyVariable,
                signal: Signal::PresentBoth("PSModulePath", "COMSPEC"),
                terminal: Terminal::PowerShell,
                version: VersionSource::Unreported,
            },
            Rule {
                tier: Tier::FamilyVariable,
                signal: Signal::PresentWithout("COMSPEC", "PSModulePath"),
                terminal: Terminal::CommandPrompt,
                version: VersionSource::Unreported,
            },
            Rule {
                tier: Tier::TermPattern,
                signal: Signal::Mentions("TERM", "alacritty"),
                terminal: Terminal::Alacritty,
                version: VersionSource::Executable,
            },
            Rule {
                tier: Tier::TermPattern,
                signal: Signal::Mentions("TERM", "kitty"),
                terminal: Terminal::Kitty,
                version: VersionSource::Executable,
            },
        ];
        assert(rules@ =~= windows_rules());
        rules
    }

    fn detect(&self, env: &Environment) -> (r: Option<TerminalInfo>) {
        if !self.is_applicable(env) {
            return None;
        }
        let rules = self.table();
        detect_by(&rules, env)
    }

    fn is_applicable(&self, env: &Environment) -> (r: bool) {
        match env.platform {
            Platform::Windows => true,
            _ => false,
        }
    }
}

/// The rules for Windows are well made: each names a known terminal and
/// stands in the tier of its signal, and the tiers stand in order, the most
/// specific first.
pub proof fn lemma_windows_rules_well_formed()
    ensures
        well_formed(windows_rules()),
{
    let rules = windows_rules();
    assert(rules.len() == 14);
    assert forall|i: int| 0 <= i < rules.len() implies well_made(#[trigger] rules[i]) by {}
    assert(ordered_by_tier(rules));
}

} // verus!
