//! Identifies the terminal emulator that hosts a process from what the
//! process can observe of its surroundings.

pub mod detect;
pub mod detector;
pub mod environment;
pub mod guarantees;
pub mod platform;
pub mod rules;
pub mod text;
pub mod types;
pub mod utils;
pub mod version;

use vstd::prelude::*;
use crate::detector::{answer, DetectionCoordinator};
use crate::environment::Environment;
pub use crate::types::{Terminal, TerminalInfo};

verus! {

/// Tells which terminal hosts the process from what `env` holds, asking for
/// nothing: the terminal that the first matching rule names, with its
/// version as far as `env` gives it, or nothing where no rule matches and
/// `TERM` is not set.
pub fn which_terminal(env: &Environment) -> (r: Option<TerminalInfo>)
    ensures
        r.deep_view() == answer(env@),
{
    DetectionCoordinator::new().settle(env)
}

} // verus!
