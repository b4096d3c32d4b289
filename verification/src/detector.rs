//! The coordinator: a fast path that holds on every platform, then the
//! strategy of the platform, then the terminal type as it stands.

use vstd::prelude::*;
use crate::environment::{Environment, EnvironmentView, Platform};
use crate::platform::android::{android_rules, AndroidDetector};
use crate::platform::linux::{linux_rules, LinuxDetector};
use crate::platform::macos::{macos_rules, MacOSDetector};
use crate::platform::windows::{windows_rules, WindowsDetector};
use crate::platform::{info_of, PlatformDetector};
use crate::rules::{
    apply, ordered_by_tier, outcome, well_formed, well_made, Finding, FindingView, Rule, Signal,
    Tier,
};
use crate::types::{Terminal, TerminalInfo, TerminalInfoView, TerminalView};
use crate::utils::get_env;
use crate::version::exec::{VersionQuery, VersionQueryView};
use crate::version::VersionSource;

verus! {

/// The rules of the fast path, which holds on every platform. The exact
/// names in `TERM_PROGRAM` come first, with the version that
/// `TERM_PROGRAM_VERSION` gives; then the variables that only one terminal
/// sets; then Cmder; last the fragments of `TERM`.
pub open spec fn fast_path_rules() -> Seq<Rule> {
    seq![
        Rule {
            tier: Tier::ProgramIdentity,
            signal: Signal::Equals("TERM_PROGRAM", "Apple_Terminal"),
            terminal: Terminal::AppleTerminal,
            version: VersionSource::Variable("TERM_PROGRAM_VERSION"),
        },
        Rule {
            tier: Tier::ProgramIdentity,
            signal: Signal::Equals("TERM_PROGRAM", "iTerm.app"),
            terminal: Terminal::ITerm2,
            version: VersionSource::Variable("TERM_PROGRAM_VERSION"),
        },
        Rule {
            tier: Tier::ProgramIdentity,
            signal: Signal::Equals("TERM_PROGRAM", "Hyper"),
            terminal: Terminal::Hyper,
            version: VersionSource::Variable("TERM_PROGRAM_VERSION"),
        },
        Rule {
            tier: Tier::ProgramIdentity,
            signal: Signal::Equals("TERM_PROGRAM", "Tabby"),
            terminal: Terminal::Tabby,
            version: VersionSource::Variable("TERM_PROGRAM_VERSION"),
        },
        Rule {
            tier: Tier::ProgramIdentity,
            signal: Signal::Equals("TERM_PROGRAM", "WezTerm"),
            terminal: Terminal::WezTerm,
            version: VersionSource::Variable("TERM_PROGRAM_VERSION"),
        },
        Rule {
            tier: Tier::UniqueVariable,
            signal: Signal::Present("WT_SESSION"),
            terminal: Terminal::WindowsTerminal,
            version: VersionSource::Unreported,
        },
        Rule {
            tier: Tier::UniqueVariable,
            signal: Signal::Present("WT_PROFILE_ID"),
            terminal: Terminal::WindowsTerminal,
            version: VersionSource::Unreported,
        },
        Rule {
            tier: Tier::UniqueVariable,
            signal: Signal::Present("TERMUX_VERSION"),
            terminal: Terminal::Termux,
            version: VersionSource::Variable("TERMUX_VERSION"),
        },
        Rule {
            tier: Tier::UniqueVariable,
            signal: Signal::Present("ConEmuPID"),
            terminal: Terminal::ConEmu,
            version: VersionSource::Unreported,
        },
        Rule {
            tier: Tier::UniqueVariable,
            signal: Signal::Present("KITTY_WINDOW_ID"),
            terminal: Terminal::Kitty,
            version: VersionSource::Unreported,
        },
        Rule {
            tier: Tier::FamilyVariable,
            signal: Signal::Present("CMDER_ROOT"),
            terminal: Terminal::Cmder,
            version: VersionSource::Unreported,
        },
        Rule {
            tier: Tier::TermPattern,
            signal: Signal::Mentions("TERM", "alacritty"),
            terminal: Terminal::Alacritty,
            version: VersionSource::Unreported,
        },
        Rule {
            tier: Tier::TermPattern,
            signal: Signal::Mentions("TERM", "kitty"),
            terminal: Terminal::Kitty,
            version: VersionSource::Unreported,
        },
    ]
}

/// The rules of the strategy that applies on `platform`: exactly one
/// strategy for each platform that has one, none for any other.
pub open spec fn platform_rules(platform: Platform) -> Seq<Rule> {
    match platform {
        Platform::Windows => windows_rules(),
        Platform::MacOS => macos_rules(),
        Platform::Linux => linux_rules(),
        Platform::Android => android_rules(),
        Platform::Other => Seq::empty(),
    }
}

/// What the last resort finds: the terminal type as it stands, as a
/// terminal outside the known set, where `TERM` is set.
pub open spec fn generic_finding(env: EnvironmentView) -> Option<FindingView> {
    match env.variable("TERM"@) {
        Some(value) => Some(
            FindingView {
                terminal: TerminalView::Generic(value),
                version: VersionSource::Unreported,
            },
        ),
        None => None,
    }
}

/// What the coordinator finds in `env`: what the fast path finds; where it
/// finds nothing, what the strategy of the platform finds; where that finds
/// nothing either, what the last resort finds. A stage is asked only where
/// every stage before it found nothing.
pub open spec fn finding(env: EnvironmentView) -> Option<FindingView> {
    if outcome(fast_path_rules(), env) is Some {
        outcome(fast_path_rules(), env)
    } else if outcome(platform_rules(env.platform), env) is Some {
        outcome(platform_rules(env.platform), env)
    } else {
        generic_finding(env)
    }
}

/// How far the coordinator has come.
#[derive(Debug, PartialEq, Eq)]
pub enum Stage {
    /// Nothing was tried yet.
    NotStarted,
    /// The fast path is to be tried.
    FastPath,
    /// The strategy of the platform is to be tried.
    PlatformSpecific,
    /// The last resort is to be tried.
    GenericFallback,
    /// A terminal was found; nothing more is tried.
    Resolved(Finding),
    /// Every stage was tried and none found a terminal.
    Unresolved,
}

/// What a `Stage` stands for.
pub enum StageView {
    NotStarted,
    FastPath,
    PlatformSpecific,
    GenericFallback,
    Resolved(FindingView),
    Unresolved,
}

impl View for Stage {
    type V = StageView;

    open spec fn view(&self) -> StageView {
        match self {
            Stage::NotStarted => StageView::NotStarted,
            Stage::FastPath => StageView::FastPath,
            Stage::PlatformSpecific => StageView::PlatformSpecific,
            Stage::GenericFallback => StageView::GenericFallback,
            Stage::Resolved(found) => StageView::Resolved(found@),
            Stage::Unresolved => StageView::Unresolved,
        }
    }
}

impl StageView {
    /// Whether nothing follows this stage.
    pub open spec fn is_final(self) -> bool {
        self is Resolved || self is Unresolved
    }

    /// How many steps may follow this stage at most.
    pub open spec fn steps_left(self) -> nat {
        match self {
            StageView::NotStarted => 4,
            StageView::FastPath => 3,
            StageView::PlatformSpecific => 2,
            StageView::GenericFallback => 1,
            StageView::Resolved(_) => 0,
            StageView::Unresolved => 0,
        }
    }
}

/// Where a try of one stage leads: to `Resolved` with what the stage found,
/// or to the stage that comes next where it found nothing.
pub open spec fn after_try(found: Option<FindingView>, next: StageView) -> StageView {
    match found {
        Some(f) => StageView::Resolved(f),
        None => next,
    }
}

/// One step of the coordinator. A stage that finds a terminal leads to
/// `Resolved` at once; one that finds none leads to the next stage, the
/// last resort to `Unresolved`. From `Resolved` and `Unresolved` nothing
/// leads away.
pub open spec fn step(stage: StageView, env: EnvironmentView) -> StageView {
    match stage {
        StageView::NotStarted => StageView::FastPath,
        StageView::FastPath => after_try(
            outcome(fast_path_rules(), env),
            StageView::PlatformSpecific,
        ),
        StageView::PlatformSpecific => after_try(
            outcome(platform_rules(env.platform), env),
            StageView::GenericFallback,
        ),
        StageView::GenericFallback => after_try(generic_finding(env), StageView::Unresolved),
        StageView::Resolved(found) => StageView::Resolved(found),
        StageView::Unresolved => StageView::Unresolved,
    }
}

/// The stage in which the coordinator ends when it starts from `stage`.
pub open spec fn run(stage: StageView, env: EnvironmentView) -> StageView
    decreases stage.steps_left(),
{
    if stage.is_final() {
        stage
    } else {
        run(step(stage, env), env)
    }
}

/// What a final stage holds.
pub open spec fn found_in(stage: StageView) -> Option<FindingView> {
    match stage {
        StageView::Resolved(found) => Some(found),
        _ => None,
    }
}

/// How a detection stands.
#[derive(Debug, PartialEq, Eq)]
pub enum Detection {
    /// No terminal could be identified.
    Unresolved,
    /// The terminal is identified, and its version is settled as far as it
    /// can be.
    Resolved(TerminalInfo),
    /// The terminal is identified; its version is to come from the command
    /// line given, which was not run yet.
    NeedsQuery(Terminal, VersionQuery),
}

/// What a `Detection` stands for.
pub enum DetectionView {
    Unresolved,
    Resolved(TerminalInfoView),
    NeedsQuery(TerminalView, VersionQueryView),
}

impl View for Detection {
    type V = DetectionView;

    open spec fn view(&self) -> DetectionView {
        match self {
            Detection::Unresolved => DetectionView::Unresolved,
            Detection::Resolved(found) => DetectionView::Resolved(found@),
            Detection::NeedsQuery(terminal, query) => DetectionView::NeedsQuery(terminal@, query@),
        }
    }
}

/// How the detection stands in `env`. Where the coordinator finds nothing,
/// it is unresolved. Where the version of the terminal found is to come
/// from an executable whose run `env` does not hold, that run is asked for.
/// Otherwise it is resolved, with the version that the source gives.
pub open spec fn detection(env: EnvironmentView) -> DetectionView {
    match finding(env) {
        None => DetectionView::Unresolved,
        Some(found) => match found.version.pending(found.terminal, env) {
            Some(query) => DetectionView::NeedsQuery(found.terminal, query),
            None => DetectionView::Resolved(info_of(found, env)),
        },
    }
}

/// The result in `env` as it can be told from what `env` holds, with no
/// executable asked: the terminal found, with the version that its source
/// gives there.
pub open spec fn answer(env: EnvironmentView) -> Option<TerminalInfoView> {
    match finding(env) {
        Some(found) => Some(info_of(found, env)),
        None => None,
    }
}

/// Runs the stages of a detection in their order.
#[derive(Clone, Copy, Debug)]
pub struct DetectionCoordinator;

impl DetectionCoordinator {
    /// A coordinator. It holds nothing: every detection reads the
    /// surroundings that it is given.
    pub fn new() -> (r: Self)
        ensures
            r == DetectionCoordinator,
    {
        DetectionCoordinator
    }

    /// The rules of the fast path, in the order in which they are tried.
    pub fn fast_path_table() -> (r: Vec<Rule>)
        ensures
            r@ == fast_path_rules(),
    {
        let rules = vec![
            Rule {
                tier: Tier::ProgramIdentity,
                signal: Signal::Equals("TERM_PROGRAM", "Apple_Terminal"),
                terminal: Terminal::AppleTerminal,
                version: VersionSource::Variable("TERM_PROGRAM_VERSION"),
            },
            Rule {
                tier: Tier::ProgramIdentity,
                signal: Signal::Equals("TERM_PROGRAM", "iTerm.app"),
                terminal: Terminal::ITerm2,
                version: VersionSource::Variable("TERM_PROGRAM_VERSION"),
            },
            Rule {
                tier: Tier::ProgramIdentity,
                signal: Signal::Equals("TERM_PROGRAM", "Hyper"),
                terminal: Terminal::Hyper,
                version: VersionSource::Variable("TERM_PROGRAM_VERSION"),
            },
            Rule {
                tier: Tier::ProgramIdentity,
                signal: Signal::Equals("TERM_PROGRAM", "Tabby"),
                terminal: Terminal::Tabby,
                version: VersionSource::Variable("TERM_PROGRAM_VERSION"),
            },
            Rule {
                tier: Tier::ProgramIdentity,
                signal: Signal::Equals("TERM_PROGRAM", "WezTerm"),
                terminal: Terminal::WezTerm,
                version: VersionSource::Variable("TERM_PROGRAM_VERSION"),
            },
            Rule {
                tier: Tier::UniqueVariable,
                signal: Signal::Present("WT_SESSION"),
                terminal: Terminal::WindowsTerminal,
                version: VersionSource::Unreported,
            },
            Rule {
                tier: Tier::UniqueVariable,
                signal: Signal::Present("WT_PROFILE_ID"),
                terminal: Terminal::WindowsTerminal,
                version: VersionSource::Unreported,
            },
            Rule {
                tier: Tier::UniqueVariable,
                signal: Signal::Present("TERMUX_VERSION"),
                terminal: Terminal::Termux,
                version: VersionSource::Variable("TERMUX_VERSION"),
            },
            Rule {
                tier: Tier::UniqueVariable,
                signal: Signal::Present("ConEmuPID"),
                terminal: Terminal::ConEmu,
                version: VersionSource::Unreported,
            },
            Rule {
                tier: Tier::UniqueVariable,
                signal: Signal::Present("KITTY_WINDOW_ID"),
                terminal: Terminal::Kitty,
                version: VersionSource::Unreported,
            },
            Rule {
                tier: Tier::FamilyVariable,
                signal: Signal::Present("CMDER_ROOT"),
                terminal: Terminal::Cmder,
                version: VersionSource::Unreported,
            },
            Rule {
                tier: Tier::TermPattern,
                signal: Signal::Mentions("TERM", "alacritty"),
                terminal: Terminal::Alacritty,
                version: VersionSource::Unreported,
            },
            Rule {
                tier: Tier::TermPattern,
                signal: Signal::Mentions("TERM", "kitty"),
                terminal: Terminal::Kitty,
                version: VersionSource::Unreported,
            },
        ];
        assert(rules@ =~= fast_path_rules());
        rules
    }

    /// The fast path: the rules that hold on every platform.
    pub fn detect_fast_path(&self, env: &Environment) -> (r: Option<Finding>)
        ensures
            r.deep_view() == outcome(fast_path_rules(), env@),
    {
        let rules = Self::fast_path_table();
        apply(&rules, env)
    }

    /// The strategy of the platform of `env`. On a platform that has no
    /// strategy it finds nothing.
    pub fn detect_platform_specific(&self, env: &Environment) -> (r: Option<Finding>)
        ensures
            r.deep_view() == outcome(platform_rules(env@.platform), env@),
    {
        let rules: Vec<Rule> = if WindowsDetector.is_applicable(env) {
            WindowsDetector.table()
        } else if MacOSDetector.is_applicable(env) {
            MacOSDetector.table()
        } else if LinuxDetector.is_applicable(env) {
            LinuxDetector.table()
        } else if AndroidDetector.is_applicable(env) {
            AndroidDetector.table()
        } else {
            Vec::new()
        };
        apply(&rules, env)
    }

    /// The last resort: the terminal type as it stands.
    pub fn detect_generic(&self, env: &Environment) -> (r: Option<Finding>)
        ensures
            r.deep_view() == generic_finding(env@),
    {
        match get_env(env, "TERM") {
            Some(value) => Some(
                Finding { terminal: Terminal::Generic(value), version: VersionSource::Unreported },
            ),
            None => None,
        }
    }

    /// Takes one step: tries the stage that `stage` names, and says where
    /// that leads.
    pub fn advance(&self, stage: Stage, env: &Environment) -> (r: Stage)
        ensures
            r@ == step(stage@, env@),
    {
        match stage {
            Stage::NotStarted => Stage::FastPath,
            Stage::FastPath => match self.detect_fast_path(env) {
                Some(found) => Stage::Resolved(found),
                None => Stage::PlatformSpecific,
            },
            Stage::PlatformSpecific => match self.detect_platform_specific(env) {
                Some(found) => Stage::Resolved(found),
                None => Stage::GenericFallback,
            },
            Stage::GenericFallback => match self.detect_generic(env) {
                Some(found) => Stage::Resolved(found),
                None => Stage::Unresolved,
            },
            Stage::Resolved(found) => Stage::Resolved(found),
            Stage::Unresolved => Stage::Unresolved,
        }
    }

    /// Runs the stages from the start to the end: what the first stage
    /// finds that finds anything.
    pub fn find(&self, env: &Environment) -> (r: Option<Finding>)
        ensures
            r.deep_view() == finding(env@),
    {
        let mut stage = Stage::NotStarted;
        proof {
            lemma_run_finds(env@);
        }
        loop
            invariant
                run(stage@, env@) == run(StageView::NotStarted, env@),
                found_in(run(StageView::NotStarted, env@)) == finding(env@),
            decreases stage@.steps_left(),
        {
            match stage {
                Stage::Resolved(found) => {
                    return Some(found);
                },
                Stage::Unresolved => {
                    return None;
                },
                other => {
                    stage = self.advance(other, env);
                },
            }
        }
    }

    /// Detects the terminal in `env`. The result says whether a terminal was
    /// identified, and asks for the run of an executable where the version
    /// depends on one that `env` does not hold.
    pub fn detect(&self, env: &Environment) -> (r: Detection)
        ensures
            r@ == detection(env@),
    {
        match self.find(env) {
            None => Detection::Unresolved,
            Some(found) => match found.version.query(&found.terminal, env) {
                Some(query) => Detection::NeedsQuery(found.terminal, query),
                None => {
                    let version = found.version.resolve(&found.terminal, env);
                    Detection::Resolved(TerminalInfo::with_version(found.terminal, version, env))
                },
            },
        }
    }

    /// Detects the terminal in `env` from what `env` holds, asking for
    /// nothing: an executable whose run is not recorded gives no version.
    pub fn settle(&self, env: &Environment) -> (r: Option<TerminalInfo>)
        ensures
            r.deep_view() == answer(env@),
    {
        match self.find(env) {
            None => None,
            Some(found) => {
                let version = found.version.resolve(&found.terminal, env);
                Some(TerminalInfo::with_version(found.terminal, version, env))
            },
        }
    }
}

/// The rules of the fast path are well made: each names a known terminal
/// and stands in the tier of its signal, and the tiers stand in order, the
/// most specific first.
pub proof fn lemma_fast_path_rules_well_formed()
    ensures
        well_formed(fast_path_rules()),
{
    let rules = fast_path_rules();
    assert(rules.len() == 13);
    assert forall|i: int| 0 <= i < rules.len() implies well_made(#[trigger] rules[i]) by {}
    assert(ordered_by_tier(rules));
}

/// Run from the start, the coordinator ends in `Resolved` with what it
/// finds, or in `Unresolved` where it finds nothing: each stage is tried
/// only where every stage before it found nothing.
pub proof fn lemma_run_finds(env: EnvironmentView)
    ensures
        run(StageView::NotStarted, env).is_final(),
        found_in(run(StageView::NotStarted, env)) == finding(env),
        run(StageView::NotStarted, env) is Unresolved <==> finding(env) is None,
{
    reveal_with_fuel(run, 6);
}

/// A stage that is final stays: no step leads away from a result.
pub proof fn lemma_final_stage_stays(stage: StageView, env: EnvironmentView)
    requires
        stage.is_final(),
    ensures
        step(stage, env) == stage,
        run(stage, env) == stage,
{
}

} // verus!
