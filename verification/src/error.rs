//! Failures that the triage policy itself can report.

use vstd::prelude::*;

verus! {

/// Why a pass over an issue was refused.
#[derive(Clone, Copy, Debug, PartialEq, Eq, Structural)]
pub enum Error {
    /// A field that the decision needs was absent from what the platform
    /// reported.
    MissingData,
}

} // verus!
