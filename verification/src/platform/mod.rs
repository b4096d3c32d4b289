//! The strategies of the platforms: one ordered list of rules for each
//! family of operating systems.

pub mod android;
pub mod linux;
pub mod macos;
pub mod windows;

use vstd::prelude::*;
use crate::environment::{Environment, EnvironmentView, Platform};
use crate::rules::{apply, outcome, FindingView, Rule};
use crate::types::{info, TerminalInfo, TerminalInfoView};

verus! {

/// The result that a finding gives in `env`: the terminal found, with the
/// version that its source gives there.
pub open spec fn info_of(found: FindingView, env: EnvironmentView) -> TerminalInfoView {
    info(found.terminal, found.version.version(found.terminal, env), env)
}

/// The result that a list of rules gives in `env`: that of its first rule
/// whose signal is there.
pub open spec fn result_of(rules: Seq<Rule>, env: EnvironmentView) -> Option<TerminalInfoView> {
    match outcome(rules, env) {
        Some(found) => Some(info_of(found, env)),
        None => None,
    }
}

/// The strategy of one platform.
pub trait PlatformDetector {
    /// The platform that the strategy is written for.
    spec fn target(&self) -> Platform;

    /// The rules of the strategy, in the order in which they are tried.
    spec fn rules(&self) -> Seq<Rule>;

    /// The rules of the strategy, in the order in which they are tried.
    fn table(&self) -> (r: Vec<Rule>)
        ensures
            r@ == self.rules(),
    ;

    /// Detects the terminal by the rules of this platform: the first rule
    /// whose signal is there in `env` decides. The version is the one that
    /// the rule's source gives from what `env` holds. On another platform
    /// the strategy does not apply: its rules are not tried, and it finds
    /// nothing.
    fn detect(&self, env: &Environment) -> (r: Option<TerminalInfo>)
        ensures
            r.deep_view() == if env@.platform == self.target() {
                result_of(self.rules(), env@)
            } else {
                None
            },
    ;

    /// Whether `env` is of the platform that the strategy is written for.
    fn is_applicable(&self, env: &Environment) -> (r: bool)
        ensures
            r == (env@.platform == self.target()),
    ;
}

/// Detects the terminal by a list of rules.
pub fn detect_by(rules: &Vec<Rule>, env: &Environment) -> (r: Option<TerminalInfo>)
    ensures
        r.deep_view() == result_of(rules@, env@),
{
    match apply(rules, env) {
        Some(found) => {
            let version = found.version.resolve(&found.terminal, env);
            Some(TerminalInfo::with_version(found.terminal, version, env))
        },
        None => None,
    }
}

} // verus!
