//! How the process ends when it cannot go on.

use vstd::prelude::*;

verus! {

/// Why the process gives up. Each reason has an exit code of its own, so
/// that whoever supervises the process can tell them apart.
#[derive(Debug, Clone, Copy, PartialEq, Eq, Structural)]
pub enum ExitCode {
    /// No display could be had from the toolkit.
    GtkDisplay,
    /// The bars could not be created.
    CreateBars,
}

impl ExitCode {
    /// The exit code of the reason.
    pub open spec fn number(self) -> i32 {
        match self {
            ExitCode::GtkDisplay => 1,
            ExitCode::CreateBars => 2,
        }
    }

    /// The exit code of the reason.
    pub fn code(self) -> (code: i32)
        ensures
            code == self.number(),
    {
        match self {
            ExitCode::GtkDisplay => 1,
            ExitCode::CreateBars => 2,
        }
    }
}

/// No exit code of a failure is that of success, and no two failures share
/// one.
pub proof fn lemma_exit_codes_differ(a: ExitCode, b: ExitCode)
    ensures
        a.number() != 0,
        a.number() == b.number() ==> a == b,
{
}

} // verus!
