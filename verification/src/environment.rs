//! What a process can observe of its surroundings, held as plain values:
//! the platform, the environment variables, one directory probe, and the
//! outcome of each executable that was asked for its version.

use vstd::prelude::*;
use crate::text::str_eq;

verus! {

/// The family of operating systems that the process runs on.
#[derive(Clone, Copy, Debug, PartialEq, Eq, Structural)]
pub enum Platform {
    Windows,
    MacOS,
    Linux,
    Android,
    /// A platform that no strategy is written for.
    Other,
}

/// How the run of an executable ended.
#[derive(Debug, PartialEq, Eq)]
pub enum Outcome {
    /// The executable could not be started.
    NotStarted,
    /// The executable ran to its end.
    Finished {
        /// Whether it reported success.
        success: bool,
        /// What it wrote to its standard output.
        stdout: Vec<u8>,
        /// What it wrote to its standard error.
        stderr: Vec<u8>,
    },
}

/// What an `Outcome` stands for.
pub enum OutcomeView {
    NotStarted,
    Finished { success: bool, stdout: Seq<u8>, stderr: Seq<u8> },
}

impl View for Outcome {
    type V = OutcomeView;

    open spec fn view(&self) -> OutcomeView {
        match self {
            Outcome::NotStarted => OutcomeView::NotStarted,
            Outcome::Finished { success, stdout, stderr } => OutcomeView::Finished {
                success: *success,
                stdout: stdout@,
                stderr: stderr@,
            },
        }
    }
}

/// The surroundings of a process at one moment.
#[derive(Debug, PartialEq, Eq)]
pub struct Environment {
    /// The platform that the process runs on.
    pub platform: Platform,
    /// The environment variables, each with its name and value. Where a name
    /// stands twice, the first entry counts.
    pub variables: Vec<(String, String)>,
    /// Whether the installation directory of Termux exists.
    pub termux_directory: bool,
    /// The executables that were run, each with its name and outcome. Where a
    /// name stands twice, the first entry counts.
    pub executions: Vec<(String, Outcome)>,
}

/// What an `Environment` stands for: the variables and the executions as
/// maps from a name.
pub struct EnvironmentView {
    pub platform: Platform,
    pub variables: Map<Seq<char>, Seq<char>>,
    pub termux_directory: bool,
    pub executions: Map<Seq<char>, OutcomeView>,
}

/// The map that a list of named entries stands for. An entry counts over
/// every later entry of the same name.
pub open spec fn table_of<V: View>(entries: Seq<(String, V)>) -> Map<Seq<char>, V::V>
    decreases entries.len(),
{
    if entries.len() == 0 {
        Map::empty()
    } else {
        table_of(entries.drop_first()).insert(entries[0].0@, entries[0].1@)
    }
}

/// The first entry of a name is what the map holds for it.
pub proof fn lemma_table_first<V: View>(entries: Seq<(String, V)>, name: Seq<char>, at: int)
    requires
        0 <= at < entries.len(),
        entries[at].0@ == name,
        forall|k: int| 0 <= k < at ==> (#[trigger] entries[k]).0@ != name,
    ensures
        table_of(entries).contains_key(name),
        table_of(entries)[name] == entries[at].1@,
    decreases at,
{
    if at > 0 {
        let rest = entries.drop_first();
        assert forall|k: int| 0 <= k < at - 1 implies (#[trigger] rest[k]).0@ != name by {
            assert(rest[k] == entries[k + 1]);
        }
        lemma_table_first(rest, name, at - 1);
    }
}

/// A name that no entry has is not in the map.
pub proof fn lemma_table_absent<V: View>(entries: Seq<(String, V)>, name: Seq<char>)
    requires
        forall|k: int| 0 <= k < entries.len() ==> (#[trigger] entries[k]).0@ != name,
    ensures
        !table_of(entries).contains_key(name),
    decreases entries.len(),
{
    if entries.len() > 0 {
        let rest = entries.drop_first();
        assert forall|k: int| 0 <= k < rest.len() implies (#[trigger] rest[k]).0@ != name by {
            assert(rest[k] == entries[k + 1]);
        }
        lemma_table_absent(rest, name);
    }
}

/// The place of the first entry of a name in a list of named entries.
pub fn position<V: View>(entries: &Vec<(String, V)>, name: &str) -> (r: Option<usize>)
    ensures
        r is Some <==> table_of(entries@).contains_key(name@),
        r matches Some(at) ==> at < entries@.len() && table_of(entries@)[name@]
            == entries@[at as int].1@,
{
    let mut i: usize = 0;
    while i < entries.len()
        invariant
            i <= entries@.len(),
            forall|k: int| 0 <= k < i ==> (#[trigger] entries@[k]).0@ != name@,
        decreases entries@.len() - i,
    {
        if str_eq(entries[i].0.as_str(), name) {
            proof {
                lemma_table_first(entries@, name@, i as int);
            }
            return Some(i);
        }
        i += 1;
    }
    proof {
        lemma_table_absent(entries@, name@);
    }
    None
}

impl View for Environment {
    type V = EnvironmentView;

    open spec fn view(&self) -> EnvironmentView {
        EnvironmentView {
            platform: self.platform,
            variables: table_of(self.variables@),
            termux_directory: self.termux_directory,
            executions: table_of(self.executions@),
        }
    }
}

impl EnvironmentView {
    /// The value of a variable, if it is set.
    pub open spec fn variable(self, name: Seq<char>) -> Option<Seq<char>> {
        if self.variables.contains_key(name) {
            Some(self.variables[name])
        } else {
            None
        }
    }

    /// The outcome of an executable, if it was run.
    pub open spec fn execution(self, program: Seq<char>) -> Option<OutcomeView> {
        if self.executions.contains_key(program) {
            Some(self.executions[program])
        } else {
            None
        }
    }
}

impl Environment {
    /// The surroundings on `platform` in which no variable is set, the
    /// directory of Termux is missing and no executable was run.
    pub fn new(platform: Platform) -> (r: Environment)
        ensures
            r@.platform == platform,
            r@.variables == Map::<Seq<char>, Seq<char>>::empty(),
            !r@.termux_directory,
            r@.executions == Map::<Seq<char>, OutcomeView>::empty(),
    {
        Environment {
            platform,
            variables: Vec::new(),
            termux_directory: false,
            executions: Vec::new(),
        }
    }

    /// Sets a variable; a value that it had before is replaced.
    pub fn set_variable(&mut self, name: &str, value: &str)
        ensures
            final(self)@ == (EnvironmentView {
                variables: old(self)@.variables.insert(name@, value@),
                ..old(self)@
            }),
    {
        let ghost before = self.variables@;
        self.variables.insert(0, (name.to_owned(), value.to_owned()));
        assert(self.variables@.drop_first() == before);
    }

    /// Records how the run of an executable ended; an outcome recorded for
    /// it before is replaced.
    pub fn record_execution(&mut self, program: &str, outcome: Outcome)
        ensures
            final(self)@ == (EnvironmentView {
                executions: old(self)@.executions.insert(program@, outcome@),
                ..old(self)@
            }),
    {
        let ghost before = self.executions@;
        self.executions.insert(0, (program.to_owned(), outcome));
        assert(self.executions@.drop_first() == before);
    }
}

} // verus!
