//! Detection in one call.

use vstd::prelude::*;
use crate::detector::{detection, Detection, DetectionCoordinator};
use crate::environment::Environment;

verus! {

/// Detects the terminal in `env`: the fast path, then the strategy of the
/// platform, then the terminal type as it stands. Where the version of the
/// terminal depends on an executable whose run `env` does not hold, the
/// result asks for that run; record it in `env` and detect again.
pub fn detect(env: &Environment) -> (r: Detection)
    ensures
        r@ == detection(env@),
{
    DetectionCoordinator::new().detect(env)
}

} // verus!
