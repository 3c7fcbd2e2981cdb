//! The frame-shape estimator: a pure function from an operation, its
//! parameter payload, and the upstream estimate to the downstream
//! estimate, or a parameter-mismatch error.

use vstd::prelude::*;

use crate::error::FlowError;
use crate::ops::{NodeParams, OpId};
use crate::shape::{Color, FrameEstimate, FrameInfo};

verus! {

/// Whether an orientation flag exchanges width and height: flags 5..8
/// involve a transposition, flags 1..4 do not.
pub open spec fn spec_orientation_swaps(flag: i32) -> bool {
    5 <= flag <= 8
}

/// The estimator's contract.
///
/// - Shape-preserving operations (the flips, the pass-through, a
///   180-degree rotation) leave the estimate unchanged.
/// - Transpositions (transpose, its copy-to-canvas primitive, and the
///   90/270-degree rotations) exchange width and height; pixel format
///   and the alpha flag are unchanged.
/// - An orientation flag exchanges width and height exactly when it is
///   one of 5..8.
/// - A canvas allocation's shape comes from its own parameters; its
///   alpha channel is meaningful exactly when the fill is transparent.
/// - An unknown upstream estimate stays unknown: estimation never
///   guesses.
/// - A parameter payload of the wrong variant is a mismatch error.
pub open spec fn spec_estimate(op: OpId, params: NodeParams, input: FrameEstimate) -> Result<
    FrameEstimate,
    FlowError,
> {
    match op {
        OpId::ApplyOrientation => match params {
            NodeParams::ApplyOrientation { flag } => if spec_orientation_swaps(flag) {
                Ok(input.spec_swapped())
            } else {
                Ok(input)
            },
            _ => Err(FlowError::ParamsMismatch),
        },
        OpId::FlipVertical => Ok(input),
        OpId::FlipHorizontal => Ok(input),
        OpId::NoOp => Ok(input),
        OpId::Rotate180 => Ok(input),
        OpId::Transpose => Ok(input.spec_swapped()),
        OpId::TransposeToCanvas => Ok(input.spec_swapped()),
        OpId::Rotate90 => Ok(input.spec_swapped()),
        OpId::Rotate270 => Ok(input.spec_swapped()),
        OpId::CreateCanvas => match params {
            NodeParams::CreateCanvas { w, h, format, color } => Ok(
                FrameEstimate::Known(
                    FrameInfo {
                        w,
                        h,
                        fmt: format,
                        alpha_meaningful: color == Color::Transparent,
                    },
                ),
            ),
            _ => Err(FlowError::ParamsMismatch),
        },
    }
}

/// Maps an operation, its parameters, and the upstream estimate to the
/// downstream estimate; see `spec_estimate` for the full contract.
pub fn estimate(op: OpId, params: &NodeParams, input: FrameEstimate) -> (r: Result<
    FrameEstimate,
    FlowError,
>)
    ensures
        r == spec_estimate(op, *params, input),
{
    match op {
        OpId::ApplyOrientation => match params {
            NodeParams::ApplyOrientation { flag } => {
                let f: i32 = *flag;
                if 5 <= f && f <= 8 {
                    Ok(input.swapped())
                } else {
                    Ok(input)
                }
            },
            _ => Err(FlowError::ParamsMismatch),
        },
        OpId::FlipVertical => Ok(input),
        OpId::FlipHorizontal => Ok(input),
        OpId::NoOp => Ok(input),
        OpId::Rotate180 => Ok(input),
        OpId::Transpose => Ok(input.swapped()),
        OpId::TransposeToCanvas => Ok(input.swapped()),
        OpId::Rotate90 => Ok(input.swapped()),
        OpId::Rotate270 => Ok(input.swapped()),
        OpId::CreateCanvas => match params {
            NodeParams::CreateCanvas { w, h, format, color } => Ok(
                FrameEstimate::Known(
                    FrameInfo {
                        w: *w,
                        h: *h,
                        fmt: *format,
                        alpha_meaningful: *color == Color::Transparent,
                    },
                ),
            ),
            _ => Err(FlowError::ParamsMismatch),
        },
    }
}

} // verus!
