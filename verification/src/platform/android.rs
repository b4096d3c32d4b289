//! The strategy for Android.

use vstd::prelude::*;
use crate::environment::{Environment, Platform};
use crate::platform::{detect_by, PlatformDetector};
use crate::rules::{ordered_by_tier, well_formed, well_made, Rule, Signal, Tier};
use crate::types::{Terminal, TerminalInfo};
use crate::version::VersionSource;

verus! {

/// The rules for Android: the version variable of Termux, then a `PREFIX`
/// inside the installation of Termux, then the installation directory
/// itself, for surroundings in which no variable is set.
pub open spec fn android_rules() -> Seq<Rule> {
    seq![
        Rule {
            tier: Tier::UniqueVariable,
            signal: Signal::Present("TERMUX_VERSION"),
            terminal: Terminal::Termux,
            version: VersionSource::Variable("TERMUX_VERSION"),
        },
        Rule {
            tier: Tier::FamilyVariable,
            signal: Signal::Contains("PREFIX", "com.termux"),
            terminal: Terminal::Termux,
            version: VersionSource::Environment,
        },
        Rule {
            tier: Tier::FilesystemProbe,
            signal: Signal::TermuxDirectory,
            terminal: Terminal::Termux,
            version: VersionSource::Environment,
        },
    ]
}

/// The strategy for Android.
#[derive(Clone, Copy, Debug)]
pub struct AndroidDetector;

impl PlatformDetector for AndroidDetector {
    open spec fn target(&self) -> Platform {
        Platform::Android
    }

    open spec fn rules(&self) -> Seq<Rule> {
        android_rules()
    }

    fn table(&self) -> (r: Vec<Rule>) {
        let rules = vec![
            Rule {
                tier: Tier::UniqueVariable,
                signal: Signal::Present("TERMUX_VERSION"),
                terminal: Terminal::Termux,
                version: VersionSource::Variable("TERMUX_VERSION"),
            },
            Rule {
                tier: Tier::FamilyVariable,
                signal: Signal::Contains("PREFIX", "com.termux"),
                terminal: Terminal::Termux,
                version: VersionSource::Environment,
            },
            Rule {
                tier: Tier::FilesystemProbe,
                signal: Signal::TermuxDirectory,
                terminal: Terminal::Termux,
                version: VersionSource::Environment,
            },
        ];
        assert(rules@ =~= android_rules());
        rules
    }

    fn detect(&self, env: &Environment) -> (r: Option<TerminalInfo>) {
        if !self.is_applicable(env) {
            return None;
        }
        let rules = self.table();
        detect_by(&rules, env)
    }

    fn is_applicable(&self, env: &Environment) -> (r: bool) {
        match env.platform {
            Platform::Android => true,
            _ => false,
        }
    }
}

/// The rules for Android are well made: each names a known terminal and
/// stands in the tier of its signal, and the tiers stand in order, the most
/// specific first.
pub proof fn lemma_android_rules_well_formed()
    ensures
        well_formed(android_rules()),
{
    let rules = android_rules();
    assert(rules.len() == 3);
    assert forall|i: int| 0 <= i < rules.len() implies well_made(#[trigger] rules[i]) by {}
    assert(ordered_by_tier(rules));
}

} // verus!
