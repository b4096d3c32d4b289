//! The strategies that find the version of a terminal, and how they are
//! combined.

pub mod env;
pub mod exec;

use vstd::prelude::*;
use crate::environment::{position, Environment, EnvironmentView};
use crate::types::{Terminal, TerminalView};
use crate::utils::get_env;
use crate::version::env::{env_version, EnvVersionExtractor};
use crate::version::exec::{
    exec_version, version_command, ExecVersionExtractor, VersionQuery, VersionQueryView,
};

verus! {

/// A way to find the version of a terminal in what is known of the
/// surroundings.
pub trait VersionExtractor {
    /// The version that this strategy finds.
    spec fn version_of(&self, terminal: TerminalView, env: EnvironmentView) -> Option<Seq<char>>;

    /// Finds the version of `terminal`, if this strategy can tell it.
    fn extract(&self, terminal: &Terminal, env: &Environment) -> (r: Option<String>)
        ensures
            r.deep_view() == self.version_of(terminal@, env@),
    ;
}

/// Where the version of a detected terminal comes from.
#[derive(Clone, Copy, Debug, PartialEq, Eq)]
pub enum VersionSource {
    /// Nowhere: the terminal is reported without a version.
    Unreported,
    /// The value of the variable named.
    Variable(&'static str),
    /// The variable in which the terminal reports its version.
    Environment,
    /// The terminal's own executable.
    Executable,
    /// The variable, and the executable only where the variable says
    /// nothing.
    EnvironmentThenExecutable,
}

/// The command line that has to be run before the executable of `terminal`
/// can tell its version: the terminal's command, unless its run is recorded
/// in `env`.
pub open spec fn unanswered(terminal: TerminalView, env: EnvironmentView) -> Option<
    VersionQueryView,
> {
    match version_command(terminal, env.platform) {
        Some(query) => if env.executions.contains_key(query.program@) {
            None
        } else {
            Some(query)
        },
        None => None,
    }
}

impl VersionSource {
    /// The version of `terminal` that this source gives in `env`.
    pub open spec fn version(self, terminal: TerminalView, env: EnvironmentView) -> Option<
        Seq<char>,
    > {
        match self {
            VersionSource::Unreported => None,
            VersionSource::Variable(name) => env.variable(name@),
            VersionSource::Environment => env_version(terminal, env),
            VersionSource::Executable => exec_version(terminal, env),
            VersionSource::EnvironmentThenExecutable => if env_version(terminal, env) is Some {
                env_version(terminal, env)
            } else {
                exec_version(terminal, env)
            },
        }
    }

    /// The command line that has to be run before this source can give the
    /// version of `terminal`. An executable is asked only where the source
    /// names it, the variable before it says nothing and no run of it is
    /// recorded.
    pub open spec fn pending(self, terminal: TerminalView, env: EnvironmentView) -> Option<
        VersionQueryView,
    > {
        match self {
            VersionSource::Executable => unanswered(terminal, env),
            VersionSource::EnvironmentThenExecutable => if env_version(terminal, env) is Some {
                None
            } else {
                unanswered(terminal, env)
            },
            _ => None,
        }
    }

    /// Finds the version of `terminal` that this source gives in `env`.
    pub fn resolve(&self, terminal: &Terminal, env: &Environment) -> (r: Option<String>)
        ensures
            r.deep_view() == self.version(terminal@, env@),
    {
        match self {
            VersionSource::Unreported => None,
            VersionSource::Variable(name) => get_env(env, name),
            VersionSource::Environment => EnvVersionExtractor.extract(terminal, env),
            VersionSource::Executable => ExecVersionExtractor.extract(terminal, env),
            VersionSource::EnvironmentThenExecutable => {
                let reported = EnvVersionExtractor.extract(terminal, env);
                if reported.is_some() {
                    reported
                } else {
                    ExecVersionExtractor.extract(terminal, env)
                }
            },
        }
    }

    /// Finds the command line that has to be run before this source can give
    /// the version of `terminal`.
    pub fn query(&self, terminal: &Terminal, env: &Environment) -> (r: Option<VersionQuery>)
        ensures
            r is Some <==> self.pending(terminal@, env@) is Some,
            r matches Some(query) ==> query@ == self.pending(terminal@, env@)->Some_0,
    {
        let asks: bool = match self {
            VersionSource::Executable => true,
            VersionSource::EnvironmentThenExecutable => {
                EnvVersionExtractor.extract(terminal, env).is_none()
            },
            _ => false,
        };
        if !asks {
            return None;
        }
        match ExecVersionExtractor::command(terminal, env.platform) {
            Some(query) => {
                if position(&env.executions, query.program).is_some() {
                    None
                } else {
                    Some(query)
                }
            },
            None => None,
        }
    }
}

/// An executable is asked only where nothing tells the version yet: where
/// a source has a command line pending, the source gives no version, and
/// the variable in which the terminal reports its version, where the source
/// reads it, says nothing.
pub proof fn lemma_asks_only_without_version(
    source: VersionSource,
    terminal: TerminalView,
    env: EnvironmentView,
)
    requires
        source.pending(terminal, env) is Some,
    ensures
        source.version(terminal, env) is None,
        source is Executable || source is EnvironmentThenExecutable,
        source is EnvironmentThenExecutable ==> env_version(terminal, env) is None,
        source.pending(terminal, env) == version_command(terminal, env.platform),
        !env.executions.contains_key(source.pending(terminal, env)->Some_0.program@),
{
}

} // verus!
