//! The node definitions with behaviour of their own: the orientation
//! composite, and the two in-place flip primitives.

use vstd::prelude::*;

use crate::engine::{plain_node, spec_plain_node, Node};
use crate::error::FlowError;
use crate::estimate::{estimate, spec_estimate};
use crate::execute::{BufferInfo, LibraryCall};
use crate::ops::{spec_fqn, NodeParams, OpId};
use crate::shape::FrameEstimate;

verus! {

/// The one-step expansion table of the orientation composite: the exact
/// replacement sequence for every flag value. Flags outside 2..8
/// (including the identity flag 1) expand to nothing.
pub open spec fn spec_orientation_steps(flag: i32) -> Seq<Node> {
    if flag == 7 {
        seq![spec_plain_node(OpId::Rotate180), spec_plain_node(OpId::Transpose)]
    } else if flag == 8 {
        seq![spec_plain_node(OpId::Rotate90)]
    } else if flag == 6 {
        seq![spec_plain_node(OpId::Rotate270)]
    } else if flag == 5 {
        seq![spec_plain_node(OpId::Transpose)]
    } else if flag == 4 {
        seq![spec_plain_node(OpId::FlipVertical)]
    } else if flag == 3 {
        seq![spec_plain_node(OpId::Rotate180)]
    } else if flag == 2 {
        seq![spec_plain_node(OpId::FlipHorizontal)]
    } else {
        Seq::empty()
    }
}

/// The composite that normalizes an EXIF orientation flag. It expands
/// into a single-input subgraph and its estimate swaps width and height
/// exactly for flags 5..8.
#[derive(Debug, Clone)]
pub struct ApplyOrientationDef;

impl ApplyOrientationDef {
    pub fn fqn(&self) -> (r: &'static str)
        ensures
            r@ == spec_fqn(OpId::ApplyOrientation),
    {
        "imazen.apply_orientation"
    }

    /// The estimator rule of this composite: flags 5..8 swap width and
    /// height, flags 1..4 leave the shape unchanged; any payload other
    /// than an orientation flag is a parameter mismatch.
    pub fn estimate(&self, p: &NodeParams, input: FrameEstimate) -> (r: Result<
        FrameEstimate,
        FlowError,
    >)
        ensures
            r == spec_estimate(OpId::ApplyOrientation, *p, input),
    {
        estimate(OpId::ApplyOrientation, p, input)
    }

    /// One expansion step: the replacement node list of the table in
    /// `spec_orientation_steps`, or a parameter mismatch for any payload
    /// other than an orientation flag.
    pub fn expand(&self, p: &NodeParams) -> (r: Result<Vec<Node>, FlowError>)
        ensures
            (match *p {
                NodeParams::ApplyOrientation { flag } => (match r {
                    Ok(v) => v@ == spec_orientation_steps(flag),
                    Err(_) => false,
                }),
                _ => (match r {
                    Ok(_) => false,
                    Err(e) => e == FlowError::ParamsMismatch,
                }),
            }),
    {
        match p {
            NodeParams::ApplyOrientation { flag } => {
                let f: i32 = *flag;
                let mut v: Vec<Node> = Vec::new();
                if f == 7 {
                    v.push(plain_node(OpId::Rotate180));
                    v.push(plain_node(OpId::Transpose));
                    proof {
                        assert(v@ =~= spec_orientation_steps(7));
                    }
                } else if f == 8 {
                    v.push(plain_node(OpId::Rotate90));
                    proof {
                        assert(v@ =~= spec_orientation_steps(8));
                    }
                } else if f == 6 {
                    v.push(plain_node(OpId::Rotate270));
                    proof {
                        assert(v@ =~= spec_orientation_steps(6));
                    }
                } else if f == 5 {
                    v.push(plain_node(OpId::Transpose));
                    proof {
                        assert(v@ =~= spec_orientation_steps(5));
                    }
                } else if f == 4 {
                    v.push(plain_node(OpId::FlipVertical));
                    proof {
                        assert(v@ =~= spec_orientation_steps(4));
                    }
                } else if f == 3 {
                    v.push(plain_node(OpId::Rotate180));
                    proof {
                        assert(v@ =~= spec_orientation_steps(3));
                    }
                } else if f == 2 {
                    v.push(plain_node(OpId::FlipHorizontal));
                    proof {
                        assert(v@ =~= spec_orientation_steps(2));
                    }
                } else {
                    proof {
                        assert(v@ =~= spec_orientation_steps(f));
                    }
                }
                Ok(v)
            },
            _ => Err(FlowError::ParamsMismatch),
        }
    }
}

/// The primitive that flips its one input buffer vertically, in place,
/// through the native bitmap library.
#[derive(Debug, Clone)]
pub struct FlipVerticalMutNodeDef;

impl FlipVerticalMutNodeDef {
    pub fn fqn(&self) -> (r: &'static str)
        ensures
            r@ == spec_fqn(OpId::FlipVertical),
    {
        "imazen.flip_vertical_mutate"
    }

    /// The one native call this node makes: a vertical flip of its input
    /// buffer, in place.
    pub fn mutate_call(&self, bitmap: &BufferInfo) -> (c: LibraryCall)
        ensures
            c == (LibraryCall::FlipVertical { target: bitmap.id }),
    {
        LibraryCall::FlipVertical { target: bitmap.id }
    }

    /// Absorbs the native call's outcome. The flip rewrites pixels
    /// within the same buffer, so the buffer's shape is unchanged either
    /// way; a failed call is a library error, never retried.
    pub fn mutate(&self, bitmap: &mut BufferInfo, call_succeeded: bool) -> (r: Result<
        (),
        FlowError,
    >)
        ensures
            *final(bitmap) == *old(bitmap),
            call_succeeded ==> r == Ok::<(), FlowError>(()),
            !call_succeeded ==> r == Err::<(), FlowError>(FlowError::LibraryFailure),
    {
        if call_succeeded {
            Ok(())
        } else {
            Err(FlowError::LibraryFailure)
        }
    }
}

/// The primitive that flips its one input buffer horizontally, in
/// place, through the native bitmap library.
#[derive(Debug, Clone)]
pub struct FlipHorizontalMutNodeDef;

impl FlipHorizontalMutNodeDef {
    pub fn fqn(&self) -> (r: &'static str)
        ensures
            r@ == spec_fqn(OpId::FlipHorizontal),
    {
        "imazen.flip_horizontal_mutate"
    }

    /// The one native call this node makes: a horizontal flip of its
    /// input buffer, in place.
    pub fn mutate_call(&self, bitmap: &BufferInfo) -> (c: LibraryCall)
        ensures
            c == (LibraryCall::FlipHorizontal { target: bitmap.id }),
    {
        LibraryCall::FlipHorizontal { target: bitmap.id }
    }

    /// Absorbs the native call's outcome. The flip rewrites pixels
    /// within the same buffer, so the buffer's shape is unchanged either
    /// way; a failed call is a library error, never retried.
    pub fn mutate(&self, bitmap: &mut BufferInfo, call_succeeded: bool) -> (r: Result<
        (),
        FlowError,
    >)
        ensures
            *final(bitmap) == *old(bitmap),
            call_succeeded ==> r == Ok::<(), FlowError>(()),
            !call_succeeded ==> r == Err::<(), FlowError>(FlowError::LibraryFailure),
    {
        if call_succeeded {
            Ok(())
        } else {
            Err(FlowError::LibraryFailure)
        }
    }
}

} // verus!
