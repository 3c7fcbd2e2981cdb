use orient_flatten::engine::{
    expand_stage, flatten, orientation_stage, pipeline_estimate, plain_node, plain_stage,
    transpose_canvas_stage, Node, Pipeline, Stage,
};
use orient_flatten::error::FlowError;
use orient_flatten::nodes::ApplyOrientationDef;
use orient_flatten::ops::{NodeParams, OpId};
use orient_flatten::shape::{Color, FrameEstimate, FrameInfo, PixelFormat};

fn sample_info() -> FrameInfo {
    FrameInfo { w: 100, h: 50, fmt: PixelFormat::Bgra32, alpha_meaningful: false }
}

fn known() -> FrameEstimate {
    FrameEstimate::Known(sample_info())
}

fn step_ops(def: &ApplyOrientationDef, flag: i32) -> Vec<OpId> {
    let steps = def.expand(&NodeParams::ApplyOrientation { flag }).unwrap();
    steps.iter().map(|n| n.op).collect()
}

#[test]
fn orientation_step_table_each_flag() {
    let def = ApplyOrientationDef;
    assert_eq!(step_ops(&def, 1), vec![]);
    assert_eq!(step_ops(&def, 2), vec![OpId::FlipHorizontal]);
    assert_eq!(step_ops(&def, 3), vec![OpId::Rotate180]);
    assert_eq!(step_ops(&def, 4), vec![OpId::FlipVertical]);
    assert_eq!(step_ops(&def, 5), vec![OpId::Transpose]);
    assert_eq!(step_ops(&def, 6), vec![OpId::Rotate270]);
    assert_eq!(step_ops(&def, 7), vec![OpId::Rotate180, OpId::Transpose]);
    assert_eq!(step_ops(&def, 8), vec![OpId::Rotate90]);
}

#[test]
fn orientation_step_nodes_carry_no_params() {
    let def = ApplyOrientationDef;
    let steps = def.expand(&NodeParams::ApplyOrientation { flag: 7 }).unwrap();
    let expected: Vec<Node> = vec![plain_node(OpId::Rotate180), plain_node(OpId::Transpose)];
    assert_eq!(steps, expected);
}

#[test]
fn orientation_step_out_of_range_flag_is_empty() {
    let def = ApplyOrientationDef;
    assert_eq!(step_ops(&def, 0), vec![]);
    assert_eq!(step_ops(&def, 9), vec![]);
    assert_eq!(step_ops(&def, -3), vec![]);
}

#[test]
fn orientation_expand_rejects_wrong_params() {
    let def = ApplyOrientationDef;
    let r = def.expand(&NodeParams::NoParams);
    assert_eq!(r, Err(FlowError::ParamsMismatch));
}

#[test]
fn rotate90_fully_flattens_in_order() {
    let p = Pipeline { stages: vec![plain_stage(OpId::Rotate90)] };
    let flat = flatten(&p, known()).unwrap();
    let expected = vec![transpose_canvas_stage(sample_info()), plain_stage(OpId::FlipVertical)];
    assert_eq!(flat.stages, expected);
}

#[test]
fn rotate180_fully_flattens_in_order() {
    let p = Pipeline { stages: vec![plain_stage(OpId::Rotate180)] };
    let flat = flatten(&p, known()).unwrap();
    let expected = vec![plain_stage(OpId::FlipVertical), plain_stage(OpId::FlipHorizontal)];
    assert_eq!(flat.stages, expected);
}

#[test]
fn rotate270_fully_flattens_in_order() {
    let p = Pipeline { stages: vec![plain_stage(OpId::Rotate270)] };
    let flat = flatten(&p, known()).unwrap();
    let expected = vec![plain_stage(OpId::FlipVertical), transpose_canvas_stage(sample_info())];
    assert_eq!(flat.stages, expected);
}

#[test]
fn orientation_flags_fully_flatten_to_primitives() {
    let t2c = transpose_canvas_stage(sample_info());
    let fv = plain_stage(OpId::FlipVertical);
    let fh = plain_stage(OpId::FlipHorizontal);
    let expected: Vec<(i32, Vec<Stage>)> = vec![
        (1, vec![]),
        (2, vec![fh]),
        (3, vec![fv, fh]),
        (4, vec![fv]),
        (5, vec![t2c]),
        (6, vec![fv, t2c]),
        (7, vec![fv, fh, t2c]),
        (8, vec![t2c, fv]),
    ];
    for (flag, stages) in expected {
        let p = Pipeline { stages: vec![orientation_stage(flag)] };
        let flat = flatten(&p, known()).unwrap();
        assert_eq!(flat.stages, stages, "flag {}", flag);
    }
}

#[test]
fn no_op_is_spliced_out() {
    let p = Pipeline {
        stages: vec![
            plain_stage(OpId::FlipVertical),
            plain_stage(OpId::NoOp),
            plain_stage(OpId::FlipHorizontal),
        ],
    };
    let flat = flatten(&p, known()).unwrap();
    let expected = vec![plain_stage(OpId::FlipVertical), plain_stage(OpId::FlipHorizontal)];
    assert_eq!(flat.stages, expected);
}

#[test]
fn no_op_alone_flattens_to_nothing() {
    let p = Pipeline { stages: vec![plain_stage(OpId::NoOp)] };
    let flat = flatten(&p, known()).unwrap();
    assert!(flat.stages.is_empty());
}

#[test]
fn transpose_inserts_canvas_and_rewires() {
    let p = Pipeline { stages: vec![plain_stage(OpId::Transpose)] };
    let flat = flatten(&p, known()).unwrap();
    assert_eq!(flat.stages.len(), 1);
    let stage = flat.stages[0];
    assert_eq!(stage.node.op, OpId::TransposeToCanvas);
    let canvas = stage.canvas.expect("the copy primitive needs a canvas");
    assert_eq!(canvas.op, OpId::CreateCanvas);
    assert_eq!(
        canvas.params,
        NodeParams::CreateCanvas {
            w: 50,
            h: 100,
            format: PixelFormat::Bgra32,
            color: Color::Transparent,
        }
    );
    let out = pipeline_estimate(&flat, known());
    assert_eq!(
        out,
        FrameEstimate::Known(FrameInfo {
            w: 50,
            h: 100,
            fmt: PixelFormat::Bgra32,
            alpha_meaningful: false,
        })
    );
}

#[test]
fn transpose_with_unknown_estimate_fails() {
    let p = Pipeline { stages: vec![plain_stage(OpId::Transpose)] };
    let r = flatten(&p, FrameEstimate::Unknown);
    assert_eq!(r, Err(FlowError::EstimateUnresolved));
}

#[test]
fn flatten_is_idempotent_on_flattened_graph() {
    let p = Pipeline { stages: vec![orientation_stage(6), plain_stage(OpId::Rotate90)] };
    let once = flatten(&p, known()).unwrap();
    let twice = flatten(&once, known()).unwrap();
    assert_eq!(once, twice);
}

#[test]
fn flatten_of_empty_pipeline_is_empty() {
    let p = Pipeline { stages: vec![] };
    let flat = flatten(&p, known()).unwrap();
    assert!(flat.stages.is_empty());
}

#[test]
fn expand_stage_rejects_orientation_without_params() {
    let stage = plain_stage(OpId::ApplyOrientation);
    let r = expand_stage(&stage, known());
    assert_eq!(r, Err(FlowError::ParamsMismatch));
}

#[test]
fn flatten_mixed_chain_keeps_order() {
    let p = Pipeline {
        stages: vec![
            plain_stage(OpId::NoOp),
            orientation_stage(3),
            plain_stage(OpId::Rotate90),
        ],
    };
    let flat = flatten(&p, known()).unwrap();
    let expected = vec![
        plain_stage(OpId::FlipVertical),
        plain_stage(OpId::FlipHorizontal),
        transpose_canvas_stage(sample_info()),
        plain_stage(OpId::FlipVertical),
    ];
    assert_eq!(flat.stages, expected);
}
