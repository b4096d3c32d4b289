//! What holds of a detection as a whole, proved from the rules.

use vstd::prelude::*;
use crate::detector::{
    answer, detection, fast_path_rules, finding, generic_finding, platform_rules, DetectionView,
};
use crate::environment::{EnvironmentView, OutcomeView, Platform};
use crate::platform::android::AndroidDetector;
use crate::platform::linux::LinuxDetector;
use crate::platform::macos::MacOSDetector;
use crate::platform::windows::WindowsDetector;
use crate::platform::{info_of, PlatformDetector};
use crate::rules::{
    first_match, lemma_earliest_rule_wins, lemma_first_from, lemma_joined_rules,
    lemma_no_signal_no_finding, outcome, Rule, Signal,
};
use crate::text::{contains, lower};
use crate::utils::{signal_variable, watched};
use crate::types::{info, TerminalView};
use crate::version::exec::version_command;
use crate::version::VersionSource;

verus! {

/// Whether every signal that the detection knows is absent, the terminal
/// type set aside: no variable whose presence is a signal is set, and the
/// directory of Termux is missing.
pub open spec fn quiet(env: EnvironmentView) -> bool {
    &&& !env.termux_directory
    &&& forall|name: Seq<char>| #[trigger]
        signal_variable(name) ==> !env.variables.contains_key(name)
}

/// Whether a terminal type names none of the terminals that are known by a
/// fragment of it.
pub open spec fn plain_term(value: Seq<char>) -> bool {
    &&& !contains(lower(value), lower("alacritty"@))
    &&& !contains(lower(value), lower("kitty"@))
    &&& !contains(lower(value), lower("xterm"@))
    &&& !contains(lower(value), lower("rxvt"@))
}

/// Whether the signal of a rule needs a signal variable to be set, or the
/// directory of Termux to be there.
pub open spec fn needs_signal(signal: Signal) -> bool {
    match signal {
        Signal::Equals(name, _) => signal_variable(name@),
        Signal::Mentions(name, _) => signal_variable(name@),
        Signal::Contains(name, _) => signal_variable(name@),
        Signal::Present(name) => signal_variable(name@),
        Signal::PresentBoth(name, _) => signal_variable(name@),
        Signal::PresentWithout(name, _) => signal_variable(name@),
        Signal::TermuxDirectory => true,
    }
}

/// Whether the signal of a rule is a fragment of `TERM`, one of those that
/// a plain terminal type does not hold.
pub open spec fn is_term_fragment(signal: Signal) -> bool {
    match signal {
        Signal::Mentions(name, fragment) => name@ == "TERM"@ && (fragment@ == "alacritty"@
            || fragment@ == "kitty"@ || fragment@ == "xterm"@ || fragment@ == "rxvt"@),
        _ => false,
    }
}

/// Whether every rule of a list either needs a signal variable or the
/// directory, or looks for a fragment of `TERM`.
pub open spec fn silent_when_quiet(rules: Seq<Rule>) -> bool {
    forall|i: int|
        0 <= i < rules.len() ==> needs_signal((#[trigger] rules[i]).signal)
            || is_term_fragment(rules[i].signal)
}

/// Every rule of the fast path and of every platform either needs a signal
/// variable or the directory, or looks for a fragment of `TERM`.
pub proof fn lemma_rules_silent_when_quiet(platform: Platform)
    ensures
        silent_when_quiet(fast_path_rules()),
        silent_when_quiet(platform_rules(platform)),
{
    let fast = fast_path_rules();
    assert(fast.len() == 13);
    assert forall|i: int| 0 <= i < fast.len() implies needs_signal(
        (#[trigger] fast[i]).signal,
    ) || is_term_fragment(fast[i].signal) by {}
    let rules = platform_rules(platform);
    match platform {
        Platform::Windows => {
            assert(rules.len() == 14);
        },
        Platform::MacOS => {
            assert(rules.len() == 9);
        },
        Platform::Linux => {
            assert(rules.len() == 14);
        },
        Platform::Android => {
            assert(rules.len() == 3);
        },
        Platform::Other => {},
    }
    assert forall|i: int| 0 <= i < rules.len() implies needs_signal(
        (#[trigger] rules[i]).signal,
    ) || is_term_fragment(rules[i].signal) by {}
}

/// In quiet surroundings whose terminal type, if set, is plain, a list of
/// rules that is silent when quiet finds nothing.
pub proof fn lemma_quiet_rules_find_nothing(rules: Seq<Rule>, env: EnvironmentView)
    requires
        silent_when_quiet(rules),
        quiet(env),
        env.variable("TERM"@) matches Some(value) ==> plain_term(value),
    ensures
        outcome(rules, env) is None,
{
    assert forall|i: int| 0 <= i < rules.len() implies !(#[trigger] rules[i]).signal.holds(
        env,
    ) by {
        let signal = rules[i].signal;
        assert(needs_signal(signal) || is_term_fragment(signal));
    }
    lemma_no_signal_no_finding(rules, env);
}

/// With every known signal absent and `TERM` not set, the detection has no
/// result: it is unresolved, on every platform.
pub proof fn lemma_no_signal_no_result(env: EnvironmentView)
    requires
        quiet(env),
        !env.variables.contains_key("TERM"@),
    ensures
        finding(env) is None,
        detection(env) == DetectionView::Unresolved,
        answer(env) is None,
{
    lemma_rules_silent_when_quiet(env.platform);
    lemma_quiet_rules_find_nothing(fast_path_rules(), env);
    lemma_quiet_rules_find_nothing(platform_rules(env.platform), env);
}

/// With every known signal absent and `TERM` set to a plain terminal type,
/// the detection gives a terminal outside the known set that carries the
/// terminal type as it stands, without a version, on every platform.
pub proof fn lemma_plain_term_is_wrapped(env: EnvironmentView, value: Seq<char>)
    requires
        quiet(env),
        env.variable("TERM"@) == Some(value),
        plain_term(value),
    ensures
        detection(env) == DetectionView::Resolved(info(TerminalView::Generic(value), None, env)),
        answer(env) == Some(info(TerminalView::Generic(value), None, env)),
{
    lemma_rules_silent_when_quiet(env.platform);
    lemma_quiet_rules_find_nothing(fast_path_rules(), env);
    lemma_quiet_rules_find_nothing(platform_rules(env.platform), env);
}

/// At most one strategy applies on a platform, and the coordinator tries
/// the rules of the one that applies: the four strategies are written for
/// four different platforms, and on a platform that none is written for, no
/// rule of any strategy is tried.
pub proof fn lemma_one_strategy_applies(platform: Platform)
    ensures
        WindowsDetector.target() != MacOSDetector.target(),
        WindowsDetector.target() != LinuxDetector.target(),
        WindowsDetector.target() != AndroidDetector.target(),
        MacOSDetector.target() != LinuxDetector.target(),
        MacOSDetector.target() != AndroidDetector.target(),
        LinuxDetector.target() != AndroidDetector.target(),
        platform == WindowsDetector.target() ==> platform_rules(platform)
            == WindowsDetector.rules(),
        platform == MacOSDetector.target() ==> platform_rules(platform) == MacOSDetector.rules(),
        platform == LinuxDetector.target() ==> platform_rules(platform) == LinuxDetector.rules(),
        platform == AndroidDetector.target() ==> platform_rules(platform)
            == AndroidDetector.rules(),
        platform == Platform::Other ==> platform_rules(platform).len() == 0,
{
}

/// The one order in which the rules count on `platform`: those of the fast
/// path, then those of the platform's strategy.
pub open spec fn priority_order(platform: Platform) -> Seq<Rule> {
    fast_path_rules() + platform_rules(platform)
}

/// The coordinator follows one fixed order: it finds what the earliest rule
/// of the priority order finds whose signal is there, and falls back on
/// the terminal type only where no rule's signal is there.
pub proof fn lemma_one_priority_order(env: EnvironmentView)
    ensures
        finding(env) == if outcome(priority_order(env.platform), env) is Some {
            outcome(priority_order(env.platform), env)
        } else {
            generic_finding(env)
        },
{
    lemma_joined_rules(fast_path_rules(), platform_rules(env.platform), env);
}

/// Of the rules whose signals are there, the earliest decides: where the
/// signal of the rule at `at` is there, the detection finds what the first
/// rule finds whose signal is there, and that rule stands at `at` or before
/// it; it is the rule at `at` itself where no signal before it is there.
pub proof fn lemma_earlier_rule_decides(env: EnvironmentView, at: int)
    requires
        0 <= at < priority_order(env.platform).len(),
        priority_order(env.platform)[at].signal.holds(env),
    ensures
        first_match(priority_order(env.platform), env) is Some,
        first_match(priority_order(env.platform), env)->Some_0 <= at,
        finding(env) == Some(
            priority_order(env.platform)[first_match(
                priority_order(env.platform),
                env,
            )->Some_0].finding(),
        ),
        (forall|j: int|
            0 <= j < at ==> !(#[trigger] priority_order(env.platform)[j]).signal.holds(env))
            ==> finding(env) == Some(priority_order(env.platform)[at].finding()),
{
    lemma_one_priority_order(env);
    lemma_first_from(priority_order(env.platform), env, 0);
}

/// The terminal that a value of `TERM_PROGRAM` names exactly, if it names
/// one.
pub open spec fn named_program(value: Seq<char>) -> Option<TerminalView> {
    if value == "Apple_Terminal"@ {
        Some(TerminalView::AppleTerminal)
    } else if value == "iTerm.app"@ {
        Some(TerminalView::ITerm2)
    } else if value == "Hyper"@ {
        Some(TerminalView::Hyper)
    } else if value == "Tabby"@ {
        Some(TerminalView::Tabby)
    } else if value == "WezTerm"@ {
        Some(TerminalView::WezTerm)
    } else {
        None
    }
}

/// The program identity comes first: where `TERM_PROGRAM` names a terminal
/// exactly, the detection gives that terminal, with the version that
/// `TERM_PROGRAM_VERSION` holds, whatever other signals are there and
/// whatever the platform.
pub proof fn lemma_program_identity_first(env: EnvironmentView, value: Seq<char>)
    requires
        env.variable("TERM_PROGRAM"@) == Some(value),
        named_program(value) is Some,
    ensures
        detection(env) == DetectionView::Resolved(
            info(named_program(value)->Some_0, env.variable("TERM_PROGRAM_VERSION"@), env),
        ),
        answer(env) == Some(
            info(named_program(value)->Some_0, env.variable("TERM_PROGRAM_VERSION"@), env),
        ),
{
    let rules = fast_path_rules();
    assert(rules.len() == 13);
    let at: int = if value == "Apple_Terminal"@ {
        0
    } else if value == "iTerm.app"@ {
        1
    } else if value == "Hyper"@ {
        2
    } else if value == "Tabby"@ {
        3
    } else {
        4
    };
    assert(rules[at].signal.holds(env));
    assert forall|j: int| 0 <= j < at implies !(#[trigger] rules[j]).signal.holds(env) by {}
    lemma_earliest_rule_wins(rules, env, at);
}

/// No stage overwrites an earlier one: where the fast path finds a
/// terminal, that is what the detection finds; where it finds none and the
/// strategy of the platform finds one, that is what the detection finds.
pub proof fn lemma_earlier_stage_stands(env: EnvironmentView)
    ensures
        outcome(fast_path_rules(), env) is Some ==> finding(env) == outcome(
            fast_path_rules(),
            env,
        ),
        outcome(fast_path_rules(), env) is None && outcome(platform_rules(env.platform), env)
            is Some ==> finding(env) == outcome(platform_rules(env.platform), env),
        outcome(fast_path_rules(), env) is None && outcome(platform_rules(env.platform), env)
            is None ==> finding(env) == generic_finding(env),
{
}

/// Asking and answering agree: a resolved detection is the answer, an
/// unresolved one has no answer, and a detection that asks for a run has
/// an answer for the same terminal.
pub proof fn lemma_detection_and_answer_agree(env: EnvironmentView)
    ensures
        match detection(env) {
            DetectionView::Unresolved => answer(env) is None,
            DetectionView::Resolved(found) => answer(env) == Some(found),
            DetectionView::NeedsQuery(terminal, _) => answer(env) is Some
                && answer(env)->Some_0.terminal == terminal,
        },
{
}

/// The surroundings `env` with the run of `program` recorded.
pub open spec fn with_run(
    env: EnvironmentView,
    program: Seq<char>,
    run: OutcomeView,
) -> EnvironmentView {
    EnvironmentView { executions: env.executions.insert(program, run), ..env }
}

/// One run settles a detection: where it asks for the run of a command
/// line, it asks for one that `env` does not hold, and once that run is
/// recorded, however it ended, the detection is resolved to the same
/// terminal.
pub proof fn lemma_one_run_settles(env: EnvironmentView, run: OutcomeView)
    requires
        detection(env) is NeedsQuery,
    ensures
        !env.executions.contains_key(detection(env)->NeedsQuery_1.program@),
        detection(with_run(env, detection(env)->NeedsQuery_1.program@, run)) is Resolved,
        detection(with_run(env, detection(env)->NeedsQuery_1.program@, run))->Resolved_0.terminal
            == detection(env)->NeedsQuery_0,
{
    let query = detection(env)->NeedsQuery_1;
    let after = with_run(env, query.program@, run);
    lemma_run_keeps_finding(env, query.program@, run);
    let found = finding(env)->Some_0;
    assert(version_command(found.terminal, after.platform) == Some(query));
    assert(after.executions.contains_key(query.program@));
}

/// Which terminal is found does not depend on the executables that were
/// run.
pub proof fn lemma_run_keeps_finding(env: EnvironmentView, program: Seq<char>, run: OutcomeView)
    ensures
        finding(with_run(env, program, run)) == finding(env),
{
    let after = with_run(env, program, run);
    lemma_run_keeps_outcome(fast_path_rules(), env, after);
    lemma_run_keeps_outcome(platform_rules(env.platform), env, after);
}

/// What a list of rules finds depends on the variables and the directory
/// probe alone.
pub proof fn lemma_run_keeps_outcome(rules: Seq<Rule>, a: EnvironmentView, b: EnvironmentView)
    requires
        a.variables == b.variables,
        a.termux_directory == b.termux_directory,
    ensures
        outcome(rules, a) == outcome(rules, b),
{
    lemma_first_from(rules, a, 0);
    lemma_first_from(rules, b, 0);
    assert forall|j: int| 0 <= j < rules.len() implies (#[trigger] rules[j]).signal.holds(a)
        == rules[j].signal.holds(b) by {}
}

/// Whether the rule looks at no variable but those that the detection is
/// said to look at.
pub open spec fn reads_watched(rule: Rule) -> bool {
    &&& match rule.signal {
        Signal::Equals(name, _) => watched(name@),
        Signal::Mentions(name, _) => watched(name@),
        Signal::Contains(name, _) => watched(name@),
        Signal::Present(name) => watched(name@),
        Signal::PresentBoth(first, second) => watched(first@) && watched(second@),
        Signal::PresentWithout(name, other) => watched(name@) && watched(other@),
        Signal::TermuxDirectory => true,
    }
    &&& match rule.version {
        VersionSource::Variable(name) => watched(name@),
        _ => true,
    }
}

/// Whether two surroundings are the same as far as the detection looks:
/// the same platform, directory probe and runs of executables, and the same
/// value, or none, for every variable that the detection looks at.
pub open spec fn agree(a: EnvironmentView, b: EnvironmentView) -> bool {
    &&& a.platform == b.platform
    &&& a.termux_directory == b.termux_directory
    &&& a.executions == b.executions
    &&& forall|name: Seq<char>| #[trigger] watched(name) ==> a.variable(name) == b.variable(name)
}

/// Every rule of the fast path and of every platform looks at no variable
/// but those that the detection is said to look at.
pub proof fn lemma_rules_read_watched(platform: Platform)
    ensures
        forall|i: int|
            0 <= i < fast_path_rules().len() ==> reads_watched(#[trigger] fast_path_rules()[i]),
        forall|i: int|
            0 <= i < platform_rules(platform).len() ==> reads_watched(
                #[trigger] platform_rules(platform)[i],
            ),
{
    let fast = fast_path_rules();
    assert(fast.len() == 13);
    assert forall|i: int| 0 <= i < fast.len() implies reads_watched(#[trigger] fast[i]) by {}
    let rules = platform_rules(platform);
    match platform {
        Platform::Windows => {
            assert(rules.len() == 14);
        },
        Platform::MacOS => {
            assert(rules.len() == 9);
        },
        Platform::Linux => {
            assert(rules.len() == 14);
        },
        Platform::Android => {
            assert(rules.len() == 3);
        },
        Platform::Other => {},
    }
    assert forall|i: int| 0 <= i < rules.len() implies reads_watched(#[trigger] rules[i]) by {}
}

/// In surroundings that agree, a list of rules that reads nothing unwatched
/// finds the same, with the same version and the same run to ask for.
pub proof fn lemma_agreeing_rules(rules: Seq<Rule>, a: EnvironmentView, b: EnvironmentView)
    requires
        agree(a, b),
        forall|i: int| 0 <= i < rules.len() ==> reads_watched(#[trigger] rules[i]),
    ensures
        outcome(rules, a) == outcome(rules, b),
        outcome(rules, a) matches Some(found) ==> info_of(found, a) == info_of(found, b)
            && found.version.pending(found.terminal, a) == found.version.pending(
            found.terminal,
            b,
        ),
{
    lemma_first_from(rules, a, 0);
    lemma_first_from(rules, b, 0);
    assert forall|j: int| 0 <= j < rules.len() implies (#[trigger] rules[j]).signal.holds(a)
        == rules[j].signal.holds(b) by {
        assert(reads_watched(rules[j]));
    }
    if first_match(rules, a) is Some {
        let rule = rules[first_match(rules, a)->Some_0];
        assert(reads_watched(rule));
        lemma_agreeing_version(rule.version, rule.terminal@, a, b);
    }
}

/// In surroundings that agree, a source that reads nothing unwatched gives
/// the same version and asks for the same run.
pub proof fn lemma_agreeing_version(
    source: VersionSource,
    terminal: TerminalView,
    a: EnvironmentView,
    b: EnvironmentView,
)
    requires
        agree(a, b),
        source matches VersionSource::Variable(name) ==> watched(name@),
    ensures
        source.version(terminal, a) == source.version(terminal, b),
        source.pending(terminal, a) == source.pending(terminal, b),
        info(terminal, source.version(terminal, a), a) == info(
            terminal,
            source.version(terminal, b),
            b,
        ),
{
    assert(watched("TERM"@) && watched("COLORTERM"@));
    assert(watched("TERMUX_VERSION"@) && watched("KONSOLE_VERSION"@) && watched(
        "TERM_PROGRAM_VERSION"@,
    ));
}

/// Only what the detection looks at matters: in two surroundings that agree
/// on it, the detection stands the same and has the same answer.
pub proof fn lemma_only_watched_matter(a: EnvironmentView, b: EnvironmentView)
    requires
        agree(a, b),
    ensures
        detection(a) == detection(b),
        answer(a) == answer(b),
{
    lemma_rules_read_watched(a.platform);
    lemma_agreeing_rules(fast_path_rules(), a, b);
    lemma_agreeing_rules(platform_rules(a.platform), a, b);
    assert(watched("TERM"@));
    lemma_agreeing_version(
        VersionSource::Unreported,
        TerminalView::Generic(a.variables["TERM"@]),
        a,
        b,
    );
}

} // verus!
