//! Execution-time decisions for the primitive nodes.
//!
//! This core performs no pixel arithmetic. For each primitive node it
//! decides whether the native bitmap library may be called at all, and
//! on which buffers; the execution layer performs the call and hands the
//! outcome back. Buffers are described by their shape and an identity:
//! two distinct underlying buffers never share an `id`.

use vstd::prelude::*;

use crate::error::FlowError;
use crate::ops::OpId;
use crate::shape::PixelFormat;

verus! {

/// What the engine knows of a raw pixel buffer owned by the execution
/// layer: its identity and its shape. Equal `id` means the very same
/// underlying buffer.
#[derive(Clone, Copy, Debug, PartialEq, Eq, Structural)]
pub struct BufferInfo {
    pub id: u64,
    pub w: u32,
    pub h: u32,
    pub fmt: PixelFormat,
}

/// One call into the native bitmap-arithmetic library, named by the
/// buffers it touches.
#[derive(Clone, Copy, Debug, PartialEq, Eq, Structural)]
pub enum LibraryCall {
    FlipVertical { target: u64 },
    FlipHorizontal { target: u64 },
    Transpose { src: u64, dst: u64 },
}

/// The guard in front of the native transpose. The library's
/// precondition — source and destination share the pixel format and are
/// different buffers — is undefined behaviour to violate, so it is
/// checked here, before any call: a format mismatch or aliased buffers
/// is an internal-consistency failure and no call is made. Otherwise the
/// result is the one call to perform.
pub open spec fn spec_transpose_call(input: BufferInfo, canvas: BufferInfo) -> Result<
    LibraryCall,
    FlowError,
> {
    if input.fmt != canvas.fmt {
        Err(FlowError::FormatMismatch)
    } else if input.id == canvas.id {
        Err(FlowError::AliasedBuffers)
    } else {
        Ok(LibraryCall::Transpose { src: input.id, dst: canvas.id })
    }
}

/// Decides the native call of the copy primitive; see
/// `spec_transpose_call`.
pub fn transpose_to_canvas_call(input: &BufferInfo, canvas: &BufferInfo) -> (r: Result<
    LibraryCall,
    FlowError,
>)
    ensures
        r == spec_transpose_call(*input, *canvas),
{
    if input.fmt != canvas.fmt {
        Err(FlowError::FormatMismatch)
    } else if input.id == canvas.id {
        Err(FlowError::AliasedBuffers)
    } else {
        Ok(LibraryCall::Transpose { src: input.id, dst: canvas.id })
    }
}

/// Absorbs the native transpose's outcome: on success the node's output
/// is the canvas buffer, now holding the transposed pixels, the input
/// buffer untouched; a failure is a library error, never retried.
pub fn transpose_to_canvas_result(canvas: &BufferInfo, call_succeeded: bool) -> (r: Result<
    BufferInfo,
    FlowError,
>)
    ensures
        call_succeeded ==> r == Ok::<BufferInfo, FlowError>(*canvas),
        !call_succeeded ==> r == Err::<BufferInfo, FlowError>(FlowError::LibraryFailure),
{
    if call_succeeded {
        Ok(*canvas)
    } else {
        Err(FlowError::LibraryFailure)
    }
}

/// The execution dispatcher's contract: in-place primitives take one
/// input and no canvas; the copy primitive takes one input and one
/// canvas and passes the aliasing and format guard; any other node kind
/// reaching execution marks an incorrectly flattened graph.
pub open spec fn spec_execution_call(
    op: OpId,
    input: BufferInfo,
    canvas: Option<BufferInfo>,
) -> Result<LibraryCall, FlowError> {
    match op {
        OpId::FlipVertical => match canvas {
            Option::None => Ok(LibraryCall::FlipVertical { target: input.id }),
            Option::Some(_) => Err(FlowError::EdgeMismatch),
        },
        OpId::FlipHorizontal => match canvas {
            Option::None => Ok(LibraryCall::FlipHorizontal { target: input.id }),
            Option::Some(_) => Err(FlowError::EdgeMismatch),
        },
        OpId::TransposeToCanvas => match canvas {
            Option::Some(c) => spec_transpose_call(input, c),
            Option::None => Err(FlowError::EdgeMismatch),
        },
        _ => Err(FlowError::UnexpectedNode),
    }
}

/// Decides the one native call a primitive node makes, or the
/// internal-consistency failure that aborts execution before any call;
/// see `spec_execution_call`.
pub fn execution_call(op: OpId, input: BufferInfo, canvas: Option<BufferInfo>) -> (r: Result<
    LibraryCall,
    FlowError,
>)
    ensures
        r == spec_execution_call(op, input, canvas),
{
    match op {
        OpId::FlipVertical => match canvas {
            Option::None => Ok(LibraryCall::FlipVertical { target: input.id }),
            Option::Some(_) => Err(FlowError::EdgeMismatch),
        },
        OpId::FlipHorizontal => match canvas {
            Option::None => Ok(LibraryCall::FlipHorizontal { target: input.id }),
            Option::Some(_) => Err(FlowError::EdgeMismatch),
        },
        OpId::TransposeToCanvas => match canvas {
            Option::Some(c) => transpose_to_canvas_call(&input, &c),
            Option::None => Err(FlowError::EdgeMismatch),
        },
        _ => Err(FlowError::UnexpectedNode),
    }
}

/// With matching formats and distinct buffers the copy primitive always
/// reaches exactly one native call, on exactly those buffers; with a
/// format mismatch or aliased buffers it raises the internal-consistency
/// failure before any call is made.
pub proof fn lemma_transpose_exec_guard(input: BufferInfo, canvas: BufferInfo)
    ensures
        (input.fmt == canvas.fmt && input.id != canvas.id) <==> spec_transpose_call(input, canvas)
            == Ok::<LibraryCall, FlowError>(
            LibraryCall::Transpose { src: input.id, dst: canvas.id },
        ),
        input.fmt != canvas.fmt ==> spec_transpose_call(input, canvas) == Err::<
            LibraryCall,
            FlowError,
        >(FlowError::FormatMismatch),
        (input.fmt == canvas.fmt && input.id == canvas.id) ==> spec_transpose_call(input, canvas)
            == Err::<LibraryCall, FlowError>(FlowError::AliasedBuffers),
        spec_transpose_call(input, canvas) == spec_execution_call(
            OpId::TransposeToCanvas,
            input,
            Option::Some(canvas),
        ),
{
}

} // verus!
