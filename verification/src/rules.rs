//! Ordered lists of rules, each of which names a terminal where a signal of
//! the surroundings is there. The first rule that holds decides.

use vstd::prelude::*;
use crate::environment::{position, Environment, EnvironmentView};
use crate::text::{contains, str_contains, str_eq};
use crate::types::{Terminal, TerminalView};
use crate::utils::{env_contains, has_env, mentions};
use crate::version::VersionSource;

verus! {

/// How specific a signal is. Rules are ordered from the most specific tier
/// to the least.
#[derive(Clone, Copy, Debug, PartialEq, Eq, Structural)]
pub enum Tier {
    /// The variable in which a terminal names itself.
    ProgramIdentity,
    /// A variable that only one terminal sets.
    UniqueVariable,
    /// A variable of a family of terminals, which may need a second look to
    /// tell its members apart.
    FamilyVariable,
    /// A fragment of the terminal type.
    TermPattern,
    /// A probe of the file system.
    FilesystemProbe,
}

impl Tier {
    /// The place of the tier in the order, from 1 for the most specific.
    pub open spec fn rank(self) -> nat {
        match self {
            Tier::ProgramIdentity => 1,
            Tier::UniqueVariable => 2,
            Tier::FamilyVariable => 3,
            Tier::TermPattern => 4,
            Tier::FilesystemProbe => 5,
        }
    }
}

/// Something that can be observed of the surroundings.
#[derive(Clone, Copy, Debug, PartialEq, Eq)]
pub enum Signal {
    /// The variable is set to exactly the value.
    Equals(&'static str, &'static str),
    /// The variable is set, and its value holds the fragment, the case of
    /// letters set aside.
    Mentions(&'static str, &'static str),
    /// The variable is set, and its value holds the fragment as written.
    Contains(&'static str, &'static str),
    /// The variable is set.
    Present(&'static str),
    /// Both variables are set.
    PresentBoth(&'static str, &'static str),
    /// The first variable is set and the second is not.
    PresentWithout(&'static str, &'static str),
    /// The installation directory of Termux exists.
    TermuxDirectory,
}

impl Signal {
    /// Whether the signal is there in `env`.
    pub open spec fn holds(self, env: EnvironmentView) -> bool {
        match self {
            Signal::Equals(name, value) => env.variable(name@) == Some(value@),
            Signal::Mentions(name, fragment) => mentions(env, name@, fragment@),
            Signal::Contains(name, fragment) => env.variables.contains_key(name@) && contains(
                env.variables[name@],
                fragment@,
            ),
            Signal::Present(name) => env.variables.contains_key(name@),
            Signal::PresentBoth(first, second) => env.variables.contains_key(first@)
                && env.variables.contains_key(second@),
            Signal::PresentWithout(name, other) => env.variables.contains_key(name@)
                && !env.variables.contains_key(other@),
            Signal::TermuxDirectory => env.termux_directory,
        }
    }

    /// Tests whether the signal is there in `env`.
    pub fn test(&self, env: &Environment) -> (r: bool)
        ensures
            r == self.holds(env@),
    {
        match self {
            Signal::Equals(name, value) => match position(&env.variables, name) {
                Some(at) => str_eq(env.variables[at].1.as_str(), value),
                None => false,
            },
            Signal::Mentions(name, fragment) => env_contains(env, name, fragment),
            Signal::Contains(name, fragment) => match position(&env.variables, name) {
                Some(at) => str_contains(env.variables[at].1.as_str(), fragment),
                None => false,
            },
            Signal::Present(name) => has_env(env, name),
            Signal::PresentBoth(first, second) => has_env(env, first) && has_env(env, second),
            Signal::PresentWithout(name, other) => has_env(env, name) && !has_env(env, other),
            Signal::TermuxDirectory => env.termux_directory,
        }
    }
}

/// One rule: where the signal is there, the terminal is the one named, and
/// its version comes from the source named.
#[derive(Debug, PartialEq, Eq)]
pub struct Rule {
    pub tier: Tier,
    pub signal: Signal,
    pub terminal: Terminal,
    pub version: VersionSource,
}

/// What a rule found: the terminal, and where its version comes from.
#[derive(Debug, PartialEq, Eq)]
pub struct Finding {
    pub terminal: Terminal,
    pub version: VersionSource,
}

/// What a `Finding` stands for.
pub struct FindingView {
    pub terminal: TerminalView,
    pub version: VersionSource,
}

impl View for Finding {
    type V = FindingView;

    open spec fn view(&self) -> FindingView {
        FindingView { terminal: self.terminal@, version: self.version }
    }
}

impl DeepView for Finding {
    type V = FindingView;

    open spec fn deep_view(&self) -> FindingView {
        self@
    }
}

impl Rule {
    /// What the rule finds where its signal is there.
    pub open spec fn finding(self) -> FindingView {
        FindingView { terminal: self.terminal@, version: self.version }
    }
}

/// The place of the first rule from `from` on whose signal is there.
pub open spec fn first_from(rules: Seq<Rule>, env: EnvironmentView, from: int) -> Option<int>
    decreases rules.len() - from,
{
    if from < 0 || from >= rules.len() {
        None
    } else if rules[from].signal.holds(env) {
        Some(from)
    } else {
        first_from(rules, env, from + 1)
    }
}

/// The place of the first rule whose signal is there.
pub open spec fn first_match(rules: Seq<Rule>, env: EnvironmentView) -> Option<int> {
    first_from(rules, env, 0)
}

/// What a list of rules finds in `env`: what its first rule finds whose
/// signal is there.
pub open spec fn outcome(rules: Seq<Rule>, env: EnvironmentView) -> Option<FindingView> {
    match first_match(rules, env) {
        Some(at) => Some(rules[at].finding()),
        None => None,
    }
}

/// Whether the rules stand in the order of their tiers, the most specific
/// first.
pub open spec fn ordered_by_tier(rules: Seq<Rule>) -> bool {
    forall|i: int, j: int|
        0 <= i < j < rules.len() ==> (#[trigger] rules[i]).tier.rank() <= (
        #[trigger] rules[j]).tier.rank()
}

/// Whether the tier of a rule is the one that its signal belongs to.
pub open spec fn tier_fits(rule: Rule) -> bool {
    match rule.tier {
        Tier::ProgramIdentity => match rule.signal {
            Signal::Equals(name, _) => name@ == "TERM_PROGRAM"@,
            Signal::Mentions(name, _) => name@ == "TERM_PROGRAM"@,
            _ => false,
        },
        Tier::UniqueVariable => rule.signal is Present,
        Tier::FamilyVariable => rule.signal is Present || rule.signal is PresentBoth
            || rule.signal is PresentWithout || rule.signal is Contains,
        Tier::TermPattern => match rule.signal {
            Signal::Mentions(name, _) => name@ == "TERM"@,
            _ => false,
        },
        Tier::FilesystemProbe => rule.signal is TermuxDirectory,
    }
}

/// Whether a rule is well made: it names a known terminal, and stands in
/// the tier of its signal.
pub open spec fn well_made(rule: Rule) -> bool {
    rule.terminal@.is_known() && tier_fits(rule)
}

/// Whether a list of rules is well made: every rule well made, and the
/// tiers in order.
pub open spec fn well_formed(rules: Seq<Rule>) -> bool {
    ordered_by_tier(rules) && forall|i: int| 0 <= i < rules.len() ==> well_made(#[trigger] rules[i])
}

/// The first match is a rule whose signal is there and before which no
/// signal is there; where there is no match, no signal is there.
pub proof fn lemma_first_from(rules: Seq<Rule>, env: EnvironmentView, from: int)
    requires
        0 <= from <= rules.len(),
    ensures
        match first_from(rules, env, from) {
            Some(at) => from <= at < rules.len() && rules[at].signal.holds(env) && forall|j: int|
                from <= j < at ==> !(#[trigger] rules[j]).signal.holds(env),
            None => forall|j: int|
                from <= j < rules.len() ==> !(#[trigger] rules[j]).signal.holds(env),
        },
    decreases rules.len() - from,
{
    if from < rules.len() && !rules[from].signal.holds(env) {
        lemma_first_from(rules, env, from + 1);
    }
}

/// The earliest rule wins: a rule whose signal is there, and before which
/// no signal is there, is the one that decides, whatever signals are there
/// for the rules after it.
pub proof fn lemma_earliest_rule_wins(rules: Seq<Rule>, env: EnvironmentView, at: int)
    requires
        0 <= at < rules.len(),
        rules[at].signal.holds(env),
        forall|j: int| 0 <= j < at ==> !(#[trigger] rules[j]).signal.holds(env),
    ensures
        first_match(rules, env) == Some(at),
        outcome(rules, env) == Some(rules[at].finding()),
{
    lemma_first_from(rules, env, 0);
}

/// Where no signal of a list is there, the list finds nothing.
pub proof fn lemma_no_signal_no_finding(rules: Seq<Rule>, env: EnvironmentView)
    requires
        forall|j: int| 0 <= j < rules.len() ==> !(#[trigger] rules[j]).signal.holds(env),
    ensures
        outcome(rules, env) is None,
{
    lemma_first_from(rules, env, 0);
}

/// Two lists tried one after the other are one list: what the joined list
/// finds is what the first list finds, and what the second finds only where
/// the first finds nothing.
pub proof fn lemma_joined_rules(first: Seq<Rule>, second: Seq<Rule>, env: EnvironmentView)
    ensures
        outcome(first + second, env) == if outcome(first, env) is Some {
            outcome(first, env)
        } else {
            outcome(second, env)
        },
{
    let joined = first + second;
    lemma_first_from(first, env, 0);
    lemma_first_from(second, env, 0);
    assert forall|j: int| 0 <= j < first.len() implies #[trigger] joined[j] == first[j] by {}
    assert forall|j: int| 0 <= j < second.len() implies #[trigger] joined[first.len() + j]
        == second[j] by {}
    match first_match(first, env) {
        Some(at) => {
            lemma_earliest_rule_wins(joined, env, at);
        },
        None => {
            match first_match(second, env) {
                Some(at) => {
                    assert forall|j: int| 0 <= j < first.len() + at implies !(
                    #[trigger] joined[j]).signal.holds(env) by {
                        if j >= first.len() {
                            assert(joined[first.len() + (j - first.len())] == second[j
                                - first.len()]);
                        }
                    }
                    lemma_earliest_rule_wins(joined, env, first.len() + at);
                },
                None => {
                    assert forall|j: int| 0 <= j < joined.len() implies !(
                    #[trigger] joined[j]).signal.holds(env) by {
                        if j >= first.len() {
                            assert(joined[first.len() + (j - first.len())] == second[j
                                - first.len()]);
                        }
                    }
                    lemma_no_signal_no_finding(joined, env);
                },
            }
        },
    }
}

/// Applies a list of rules: finds what its first rule finds whose signal is
/// there in `env`.
pub fn apply(rules: &Vec<Rule>, env: &Environment) -> (r: Option<Finding>)
    ensures
        r.deep_view() == outcome(rules@, env@),
{
    let mut i: usize = 0;
    while i < rules.len()
        invariant
            i <= rules@.len(),
            first_match(rules@, env@) == first_from(rules@, env@, i as int),
        decreases rules@.len() - i,
    {
        if rules[i].signal.test(env) {
            let rule = &rules[i];
            return Some(Finding { terminal: rule.terminal.clone(), version: rule.version });
        }
        i += 1;
    }
    None
}

} // verus!
