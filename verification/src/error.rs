//! The outcomes a selection session can fail with.

use vstd::prelude::*;

verus! {

/// Failure taxonomy of a session. `NoSelection` is the one recoverable
/// outcome — the loop exited without a completed drag; the others are
/// fatal and abort the run.
#[derive(Clone, Copy, Debug, PartialEq, Eq, Structural)]
pub enum SelectError {
    /// The compositor connection or a required protocol could not be set up.
    SetupFailure,
    /// An output advertised no usable logical position or size.
    GeometryMissing,
    /// A shared-memory buffer could not be allocated mid-session.
    BufferCreationFailure,
    /// The session ended without a drag ever beginning.
    NoSelection,
}

} // verus!
