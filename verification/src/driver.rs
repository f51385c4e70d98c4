//! The options that steer a translation.

use vstd::prelude::*;

verus! {

#[derive(Clone, Copy, Debug, PartialEq, Eq, Structural)]
pub enum OptimizationLevel {
    O0,
    O1,
    O2,
    O3,
}

impl Default for OptimizationLevel {
    fn default() -> (r: OptimizationLevel)
        ensures
            r == OptimizationLevel::O1,
    {
        OptimizationLevel::O1
    }
}

/// The instruction set for which the linker is asked to produce code.
#[derive(Clone, Copy, Debug, PartialEq, Eq, Structural)]
pub enum Target {
    X86_64,
    Aarch64,
}

#[derive(Clone, Copy, Debug, PartialEq, Eq, Structural)]
pub struct Args {
    /// Emit the module and do not link.
    pub compile_only: bool,
    pub lto: bool,
    pub cf_protection: bool,
    pub target: Option<Target>,
    /// Instrument the code for checkpoint and restore.
    pub enable_cr: bool,
    /// Instrument only the call sites that the call-graph analysis selects.
    pub optimize_cr: bool,
    /// Put no migration point at loop headers.
    pub disable_loop_cr: bool,
    /// Emit the checkpoint side only.
    pub no_restore: bool,
    /// Leave the walk over the frame to the runtime: a migration point calls
    /// `start_checkpoint` and records its live values in a stack map.
    pub checkpoint_v2: bool,
    pub optimization: OptimizationLevel,
}

impl Args {
    /// Whether code for checkpointing is emitted.
    pub open spec fn checkpoints(self) -> bool {
        self.enable_cr
    }

    /// Whether code for restoring is emitted.
    pub open spec fn restores(self) -> bool {
        self.enable_cr && !self.no_restore
    }
}

impl Default for Args {
    fn default() -> (r: Args)
        ensures
            r == (Args {
                compile_only: false,
                lto: false,
                cf_protection: false,
                target: None,
                enable_cr: false,
                optimize_cr: false,
                disable_loop_cr: false,
                no_restore: false,
                checkpoint_v2: false,
                optimization: OptimizationLevel::O1,
            }),
    {
        Args {
            compile_only: false,
            lto: false,
            cf_protection: false,
            target: None,
            enable_cr: false,
            optimize_cr: false,
            disable_loop_cr: false,
            no_restore: false,
            checkpoint_v2: false,
            optimization: OptimizationLevel::O1,
        }
    }
}

/// The options that refine the instrumentation ask for the instrumentation.
pub open spec fn config_ok(args: Args) -> bool {
    (args.optimize_cr || args.disable_loop_cr || args.no_restore || args.checkpoint_v2)
        ==> args.enable_cr
}

/// Tells whether the options agree with each other.
pub fn check_config(args: &Args) -> (ok: bool)
    ensures
        ok == config_ok(*args),
{
    if (args.optimize_cr || args.disable_loop_cr || args.no_restore || args.checkpoint_v2)
        && !args.enable_cr {
        return false;
    }
    true
}

} // verus!
