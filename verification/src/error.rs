//! Error kinds of the engine. Every failure is terminal for the current
//! build, estimate, flatten, or execute call; there are no retries.

use vstd::prelude::*;

verus! {

/// Why a build, estimation, flatten, or execution pass was abandoned.
#[derive(Clone, Copy, Debug, PartialEq, Eq, Structural)]
pub enum FlowError {
    /// A node's descriptor received a parameter payload of the wrong variant.
    ParamsMismatch,
    /// The native bitmap primitive reported failure; wrapped and
    /// propagated to the execution caller, never retried.
    LibraryFailure,
    /// An expansion rule that depends on the upstream shape was invoked
    /// before the upstream estimate was known.
    EstimateUnresolved,
    /// Input and canvas buffers have different pixel formats.
    FormatMismatch,
    /// Input and canvas are the same underlying buffer.
    AliasedBuffers,
    /// A node kind that must never reach execution (a composite, or the
    /// pass-through node) was handed to the execution dispatcher.
    UnexpectedNode,
    /// A node reached execution with the wrong inbound edges: a canvas
    /// edge on an in-place primitive, or none on a copy primitive.
    EdgeMismatch,
}

impl FlowError {
    /// Whether this error marks an incorrectly constructed or flattened
    /// graph (an unrecoverable defect) rather than a caller-visible
    /// parameter error or a native-library failure.
    pub open spec fn spec_is_internal_consistency(self) -> bool {
        match self {
            FlowError::ParamsMismatch => false,
            FlowError::LibraryFailure => false,
            FlowError::EstimateUnresolved => true,
            FlowError::FormatMismatch => true,
            FlowError::AliasedBuffers => true,
            FlowError::UnexpectedNode => true,
            FlowError::EdgeMismatch => true,
        }
    }

    pub fn is_internal_consistency(&self) -> (r: bool)
        ensures
            r == self.spec_is_internal_consistency(),
    {
        match self {
            FlowError::ParamsMismatch => false,
            FlowError::LibraryFailure => false,
            FlowError::EstimateUnresolved => true,
            FlowError::FormatMismatch => true,
            FlowError::AliasedBuffers => true,
            FlowError::UnexpectedNode => true,
            FlowError::EdgeMismatch => true,
        }
    }
}

} // verus!
