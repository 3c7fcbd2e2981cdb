use orient_flatten::error::FlowError;
use orient_flatten::execute::{
    execution_call, transpose_to_canvas_call, transpose_to_canvas_result, BufferInfo, LibraryCall,
};
use orient_flatten::nodes::{FlipHorizontalMutNodeDef, FlipVerticalMutNodeDef};
use orient_flatten::ops::OpId;
use orient_flatten::shape::PixelFormat;

fn buffer(id: u64, fmt: PixelFormat) -> BufferInfo {
    BufferInfo { id, w: 100, h: 50, fmt }
}

#[test]
fn transpose_call_with_valid_buffers_is_one_library_call() {
    let input = buffer(1, PixelFormat::Bgra32);
    let canvas = buffer(2, PixelFormat::Bgra32);
    let r = transpose_to_canvas_call(&input, &canvas);
    assert_eq!(r, Ok(LibraryCall::Transpose { src: 1, dst: 2 }));
}

#[test]
fn transpose_call_with_format_mismatch_fails_before_any_call() {
    let input = buffer(1, PixelFormat::Bgra32);
    let canvas = buffer(2, PixelFormat::Gray8);
    let r = transpose_to_canvas_call(&input, &canvas);
    assert_eq!(r, Err(FlowError::FormatMismatch));
    assert!(FlowError::FormatMismatch.is_internal_consistency());
}

#[test]
fn transpose_call_with_aliased_buffers_fails_before_any_call() {
    let input = buffer(7, PixelFormat::Bgr24);
    let canvas = buffer(7, PixelFormat::Bgr24);
    let r = transpose_to_canvas_call(&input, &canvas);
    assert_eq!(r, Err(FlowError::AliasedBuffers));
    assert!(FlowError::AliasedBuffers.is_internal_consistency());
}

#[test]
fn transpose_result_is_the_canvas_buffer() {
    let canvas = buffer(2, PixelFormat::Bgra32);
    assert_eq!(transpose_to_canvas_result(&canvas, true), Ok(canvas));
    assert_eq!(
        transpose_to_canvas_result(&canvas, false),
        Err(FlowError::LibraryFailure)
    );
    assert!(!FlowError::LibraryFailure.is_internal_consistency());
}

#[test]
fn execution_dispatch_for_flips() {
    let input = buffer(3, PixelFormat::Bgra32);
    assert_eq!(
        execution_call(OpId::FlipVertical, input, None),
        Ok(LibraryCall::FlipVertical { target: 3 })
    );
    assert_eq!(
        execution_call(OpId::FlipHorizontal, input, None),
        Ok(LibraryCall::FlipHorizontal { target: 3 })
    );
}

#[test]
fn execution_dispatch_rejects_wrong_edges() {
    let input = buffer(3, PixelFormat::Bgra32);
    let canvas = buffer(4, PixelFormat::Bgra32);
    assert_eq!(
        execution_call(OpId::FlipVertical, input, Some(canvas)),
        Err(FlowError::EdgeMismatch)
    );
    assert_eq!(
        execution_call(OpId::TransposeToCanvas, input, None),
        Err(FlowError::EdgeMismatch)
    );
    assert_eq!(
        execution_call(OpId::TransposeToCanvas, input, Some(canvas)),
        Ok(LibraryCall::Transpose { src: 3, dst: 4 })
    );
}

#[test]
fn execution_dispatch_rejects_nodes_that_must_not_execute() {
    let input = buffer(3, PixelFormat::Bgra32);
    for op in [OpId::NoOp, OpId::ApplyOrientation, OpId::Rotate90, OpId::Transpose] {
        assert_eq!(execution_call(op, input, None), Err(FlowError::UnexpectedNode), "{:?}", op);
    }
    assert!(FlowError::UnexpectedNode.is_internal_consistency());
}

#[test]
fn flip_vertical_mutate_maps_outcome_and_keeps_shape() {
    let def = FlipVerticalMutNodeDef;
    let mut b = buffer(5, PixelFormat::Bgr32);
    assert_eq!(def.mutate_call(&b), LibraryCall::FlipVertical { target: 5 });
    assert_eq!(def.mutate(&mut b, true), Ok(()));
    assert_eq!(b, buffer(5, PixelFormat::Bgr32));
    assert_eq!(def.mutate(&mut b, false), Err(FlowError::LibraryFailure));
    assert_eq!(b, buffer(5, PixelFormat::Bgr32));
}

#[test]
fn flip_horizontal_mutate_maps_outcome_and_keeps_shape() {
    let def = FlipHorizontalMutNodeDef;
    let mut b = buffer(6, PixelFormat::Gray8);
    assert_eq!(def.mutate_call(&b), LibraryCall::FlipHorizontal { target: 6 });
    assert_eq!(def.mutate(&mut b, true), Ok(()));
    assert_eq!(def.mutate(&mut b, false), Err(FlowError::LibraryFailure));
    assert_eq!(b, buffer(6, PixelFormat::Gray8));
}
