use orient_flatten::engine::{node_out_estimate, plain_node, Node};
use orient_flatten::error::FlowError;
use orient_flatten::estimate::estimate;
use orient_flatten::nodes::ApplyOrientationDef;
use orient_flatten::ops::{NodeParams, OpId};
use orient_flatten::shape::{Color, FrameEstimate, FrameInfo, PixelFormat};

fn upstream() -> FrameEstimate {
    FrameEstimate::Known(FrameInfo {
        w: 100,
        h: 50,
        fmt: PixelFormat::Bgra32,
        alpha_meaningful: false,
    })
}

fn swapped() -> FrameEstimate {
    FrameEstimate::Known(FrameInfo {
        w: 50,
        h: 100,
        fmt: PixelFormat::Bgra32,
        alpha_meaningful: false,
    })
}

#[test]
fn orientation_flag_six_swaps_dimensions() {
    let def = ApplyOrientationDef;
    let r = def.estimate(&NodeParams::ApplyOrientation { flag: 6 }, upstream());
    assert_eq!(r, Ok(swapped()));
}

#[test]
fn orientation_flag_two_keeps_dimensions() {
    let def = ApplyOrientationDef;
    let r = def.estimate(&NodeParams::ApplyOrientation { flag: 2 }, upstream());
    assert_eq!(r, Ok(upstream()));
}

#[test]
fn orientation_swap_boundary_flags() {
    let def = ApplyOrientationDef;
    for flag in 1..=4 {
        let r = def.estimate(&NodeParams::ApplyOrientation { flag }, upstream());
        assert_eq!(r, Ok(upstream()), "flag {}", flag);
    }
    for flag in 5..=8 {
        let r = def.estimate(&NodeParams::ApplyOrientation { flag }, upstream());
        assert_eq!(r, Ok(swapped()), "flag {}", flag);
    }
}

#[test]
fn orientation_estimate_rejects_wrong_params() {
    let def = ApplyOrientationDef;
    let r = def.estimate(&NodeParams::NoParams, upstream());
    assert_eq!(r, Err(FlowError::ParamsMismatch));
}

#[test]
fn unknown_upstream_stays_unknown() {
    let def = ApplyOrientationDef;
    let r = def.estimate(&NodeParams::ApplyOrientation { flag: 6 }, FrameEstimate::Unknown);
    assert_eq!(r, Ok(FrameEstimate::Unknown));
    let r = estimate(OpId::Transpose, &NodeParams::NoParams, FrameEstimate::Unknown);
    assert_eq!(r, Ok(FrameEstimate::Unknown));
}

#[test]
fn shape_preserving_ops_keep_estimate() {
    for op in [OpId::FlipVertical, OpId::FlipHorizontal, OpId::NoOp, OpId::Rotate180] {
        let r = estimate(op, &NodeParams::NoParams, upstream());
        assert_eq!(r, Ok(upstream()), "{:?}", op);
    }
}

#[test]
fn transposing_ops_swap_estimate() {
    for op in [OpId::Transpose, OpId::TransposeToCanvas, OpId::Rotate90, OpId::Rotate270] {
        let r = estimate(op, &NodeParams::NoParams, upstream());
        assert_eq!(r, Ok(swapped()), "{:?}", op);
    }
}

#[test]
fn create_canvas_estimate_comes_from_params() {
    let params = NodeParams::CreateCanvas {
        w: 50,
        h: 100,
        format: PixelFormat::Bgr24,
        color: Color::Transparent,
    };
    let r = estimate(OpId::CreateCanvas, &params, FrameEstimate::Unknown);
    assert_eq!(
        r,
        Ok(FrameEstimate::Known(FrameInfo {
            w: 50,
            h: 100,
            fmt: PixelFormat::Bgr24,
            alpha_meaningful: true,
        }))
    );
    let opaque = NodeParams::CreateCanvas {
        w: 50,
        h: 100,
        format: PixelFormat::Bgr24,
        color: Color::Black,
    };
    let r = estimate(OpId::CreateCanvas, &opaque, FrameEstimate::Unknown);
    assert_eq!(
        r,
        Ok(FrameEstimate::Known(FrameInfo {
            w: 50,
            h: 100,
            fmt: PixelFormat::Bgr24,
            alpha_meaningful: false,
        }))
    );
    let r = estimate(OpId::CreateCanvas, &NodeParams::NoParams, FrameEstimate::Unknown);
    assert_eq!(r, Err(FlowError::ParamsMismatch));
}

#[test]
fn node_out_estimate_absorbs_param_mismatch_as_unknown() {
    let bad = Node { op: OpId::ApplyOrientation, params: NodeParams::NoParams };
    assert_eq!(node_out_estimate(&bad, upstream()), FrameEstimate::Unknown);
    let good = plain_node(OpId::Transpose);
    assert_eq!(node_out_estimate(&good, upstream()), swapped());
}
