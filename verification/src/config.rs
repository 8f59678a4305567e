//! What a run of the program is asked to do.

use vstd::prelude::*;

verus! {

/// The one switch a run has: whether the fractal is rendered.
#[derive(Clone, Copy, Debug, PartialEq, Eq, Structural)]
pub struct Config {
    pub run_fractal: bool,
}

impl Default for Config {
    /// The fractal is not rendered unless asked for.
    fn default() -> (config: Config)
        ensures
            !config.run_fractal,
    {
        Config { run_fractal: false }
    }
}

} // verus!
