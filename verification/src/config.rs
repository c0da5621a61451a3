//! The configuration surface of one benchmark run: values only — flag
//! parsing happens at the process edge and hands a `Cli` in.

use vstd::prelude::*;

verus! {

/// The settings of one run.
#[derive(Clone, Copy, Debug, PartialEq, Eq, Structural)]
pub struct Cli {
    /// The index of the monitor to capture.
    pub monitor: usize,
    /// The duration of each test pass in ms.
    pub duration: u64,
    /// The duration of each rest period in ms.
    pub rest: u64,
    /// Sets the dirty-region reporting mode of the event-driven backend.
    pub use_dirty_rects: bool,
    /// Enables verbose output.
    pub verbose: bool,
    /// Runs a single ad-hoc pass; excludes the duration and rest settings.
    pub adhoc: bool,
}

impl Default for Cli {
    /// The defaults: the first monitor, a 5000 ms pass, a 1000 ms rest,
    /// every mode off.
    fn default() -> (c: Cli)
        ensures
            c == (Cli {
                monitor: 0,
                duration: 5000,
                rest: 1000,
                use_dirty_rects: false,
                verbose: false,
                adhoc: false,
            }),
    {
        Cli {
            monitor: 0,
            duration: 5000,
            rest: 1000,
            use_dirty_rects: false,
            verbose: false,
            adhoc: false,
        }
    }
}

} // verus!
