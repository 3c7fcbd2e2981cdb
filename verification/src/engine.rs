//! The rewrite/expansion engine.
//!
//! A pipeline is a chain of stages; each stage's node takes the previous
//! stage's output as its one input, and a copy primitive additionally
//! carries the canvas-allocation node wired to it by a canvas edge.
//! Flattening replaces every composite node with its equivalent subgraph
//! until only primitives remain. Replacement lists are computed as pure
//! values and spliced into the chain, so no traversal ever observes a
//! half-rewritten graph. Termination is guaranteed because every
//! expansion rule only produces operations of strictly smaller `rank`.

use vstd::prelude::*;

use crate::error::FlowError;
use crate::estimate::{estimate, spec_estimate};
use crate::ops::{is_primitive, rank, NodeParams, OpId};
use crate::shape::{Color, FrameEstimate, FrameInfo};

verus! {

/// One node of a pipeline: an operation plus its parameter payload.
#[derive(Clone, Copy, Debug, PartialEq, Eq, Structural)]
pub struct Node {
    pub op: OpId,
    pub params: NodeParams,
}

/// One stage of the chain. `canvas` is the canvas-allocation node wired
/// to this stage by a canvas edge; only the copy primitive carries one.
#[derive(Clone, Copy, Debug, PartialEq, Eq)]
pub struct Stage {
    pub node: Node,
    pub canvas: Option<Node>,
}

/// A pipeline: the chain of stages, fed by one source frame.
#[derive(Clone, Debug, PartialEq, Eq)]
pub struct Pipeline {
    pub stages: Vec<Stage>,
}

/// A node with no parameter payload.
pub open spec fn spec_plain_node(op: OpId) -> Node {
    Node { op, params: NodeParams::NoParams }
}

/// A stage with no parameter payload and no canvas edge.
pub open spec fn spec_plain_stage(op: OpId) -> Stage {
    Stage { node: spec_plain_node(op), canvas: Option::None }
}

/// The canvas-allocation node a transpose of shape `info` needs: sized
/// with width and height exchanged, the upstream pixel format, and a
/// fully transparent fill.
pub open spec fn spec_canvas_node(info: FrameInfo) -> Node {
    Node {
        op: OpId::CreateCanvas,
        params: NodeParams::CreateCanvas {
            w: info.h,
            h: info.w,
            format: info.fmt,
            color: Color::Transparent,
        },
    }
}

/// The stage a top-level transpose of shape `info` is rewritten to: the
/// copy primitive with the fresh canvas wired in by a canvas edge.
pub open spec fn spec_transpose_canvas_stage(info: FrameInfo) -> Stage {
    Stage { node: spec_plain_node(OpId::TransposeToCanvas), canvas: Option::Some(spec_canvas_node(info)) }
}

pub fn plain_node(op: OpId) -> (n: Node)
    ensures
        n == spec_plain_node(op),
{
    Node { op, params: NodeParams::NoParams }
}

pub fn plain_stage(op: OpId) -> (s: Stage)
    ensures
        s == spec_plain_stage(op),
{
    Stage { node: plain_node(op), canvas: Option::None }
}

pub fn canvas_node(info: FrameInfo) -> (n: Node)
    ensures
        n == spec_canvas_node(info),
{
    Node {
        op: OpId::CreateCanvas,
        params: NodeParams::CreateCanvas {
            w: info.h,
            h: info.w,
            format: info.fmt,
            color: Color::Transparent,
        },
    }
}

pub fn transpose_canvas_stage(info: FrameInfo) -> (s: Stage)
    ensures
        s == spec_transpose_canvas_stage(info),
{
    Stage { node: plain_node(OpId::TransposeToCanvas), canvas: Option::Some(canvas_node(info)) }
}

/// The stage that applies an EXIF orientation flag.
pub open spec fn spec_orientation_stage(flag: i32) -> Stage {
    Stage {
        node: Node { op: OpId::ApplyOrientation, params: NodeParams::ApplyOrientation { flag } },
        canvas: Option::None,
    }
}

pub fn orientation_stage(flag: i32) -> (s: Stage)
    ensures
        s == spec_orientation_stage(flag),
{
    Stage {
        node: Node { op: OpId::ApplyOrientation, params: NodeParams::ApplyOrientation { flag } },
        canvas: Option::None,
    }
}

/// A stage meets the edge invariant: the copy primitive carries exactly
/// one canvas-allocation node, every other node carries none.
pub open spec fn stage_wf(stage: Stage) -> bool {
    match stage.canvas {
        Option::None => stage.node.op != OpId::TransposeToCanvas,
        Option::Some(c) => {
            &&& stage.node.op == OpId::TransposeToCanvas
            &&& c.op == OpId::CreateCanvas
            &&& match c.params {
                NodeParams::CreateCanvas { .. } => true,
                _ => false,
            }
        },
    }
}

/// Every stage of a chain is a primitive (the fixed point of flattening).
pub open spec fn all_primitive(s: Seq<Stage>) -> bool {
    forall|j: int| 0 <= j < s.len() ==> is_primitive((#[trigger] s[j]).node.op)
}

/// Every stage of a chain meets the edge invariant.
pub open spec fn all_wf(s: Seq<Stage>) -> bool {
    forall|j: int| 0 <= j < s.len() ==> stage_wf(#[trigger] s[j])
}

impl Pipeline {
    /// Every stage of the chain meets the edge invariant.
    pub open spec fn wf(self) -> bool {
        all_wf(self.stages@)
    }
}

/// The estimate downstream of one node. An estimation error can only
/// arise from a parameter mismatch, which expansion reports itself, so
/// it is absorbed here as an unknown shape.
pub open spec fn spec_out_estimate(node: Node, input: FrameEstimate) -> FrameEstimate {
    match spec_estimate(node.op, node.params, input) {
        Ok(e) => e,
        Err(_) => FrameEstimate::Unknown,
    }
}

pub fn node_out_estimate(node: &Node, input: FrameEstimate) -> (r: FrameEstimate)
    ensures
        r == spec_out_estimate(*node, input),
{
    match estimate(node.op, &node.params, input) {
        Ok(e) => e,
        Err(_) => FrameEstimate::Unknown,
    }
}

/// Full expansion of one stage into primitive-only stages, given the
/// estimate of the stage's input frame.
///
/// - A primitive stage is kept as it stands.
/// - The pass-through node expands to nothing: it is spliced out.
/// - A 180-degree rotation becomes a vertical then a horizontal flip.
/// - A 90-degree rotation becomes a transpose then a vertical flip; a
///   270-degree rotation a vertical flip then a transpose.
/// - A transpose needs the upstream shape: it becomes the copy primitive
///   with a fresh canvas sized with width and height exchanged, the same
///   pixel format, and a fully transparent fill. With the upstream shape
///   unknown it is an internal error.
/// - An orientation flag expands by the fixed table: 1 to nothing, 2 to
///   a horizontal flip, 3 to a 180-degree rotation, 4 to a vertical
///   flip, 5 to a transpose, 6 to a 270-degree rotation, 7 to a
///   180-degree rotation then a transpose, 8 to a 90-degree rotation;
///   any other payload variant is a parameter mismatch.
pub open spec fn spec_expand_stage(stage: Stage, input: FrameEstimate) -> Result<
    Seq<Stage>,
    FlowError,
>
    decreases rank(stage.node.op),
{
    if is_primitive(stage.node.op) {
        Ok(seq![stage])
    } else {
        match stage.node.op {
            OpId::NoOp => Ok(Seq::empty()),
            OpId::Rotate180 => Ok(
                seq![spec_plain_stage(OpId::FlipVertical), spec_plain_stage(OpId::FlipHorizontal)],
            ),
            OpId::Rotate90 => match spec_expand_stage(spec_plain_stage(OpId::Transpose), input) {
                Ok(s) => Ok(s.push(spec_plain_stage(OpId::FlipVertical))),
                Err(e) => Err(e),
            },
            OpId::Rotate270 => match spec_expand_stage(spec_plain_stage(OpId::Transpose), input) {
                Ok(s) => Ok(seq![spec_plain_stage(OpId::FlipVertical)] + s),
                Err(e) => Err(e),
            },
            OpId::Transpose => match input {
                FrameEstimate::Unknown => Err(FlowError::EstimateUnresolved),
                FrameEstimate::Known(info) => Ok(seq![spec_transpose_canvas_stage(info)]),
            },
            OpId::ApplyOrientation => match stage.node.params {
                NodeParams::ApplyOrientation { flag } => if flag == 7 {
                    match spec_expand_stage(spec_plain_stage(OpId::Rotate180), input) {
                        Ok(a) => match spec_expand_stage(
                            spec_plain_stage(OpId::Transpose),
                            spec_out_estimate(spec_plain_node(OpId::Rotate180), input),
                        ) {
                            Ok(b) => Ok(a + b),
                            Err(e) => Err(e),
                        },
                        Err(e) => Err(e),
                    }
                } else if flag == 8 {
                    spec_expand_stage(spec_plain_stage(OpId::Rotate90), input)
                } else if flag == 6 {
                    spec_expand_stage(spec_plain_stage(OpId::Rotate270), input)
                } else if flag == 5 {
                    spec_expand_stage(spec_plain_stage(OpId::Transpose), input)
                } else if flag == 4 {
                    Ok(seq![spec_plain_stage(OpId::FlipVertical)])
                } else if flag == 3 {
                    spec_expand_stage(spec_plain_stage(OpId::Rotate180), input)
                } else if flag == 2 {
                    Ok(seq![spec_plain_stage(OpId::FlipHorizontal)])
                } else {
                    Ok(Seq::empty())
                },
                _ => Err(FlowError::ParamsMismatch),
            },
            _ => Ok(seq![stage]),
        }
    }
}

/// The view of an expansion result, for stating exec results against
/// `spec_expand_stage`.
pub open spec fn spec_expand_result(r: Result<Vec<Stage>, FlowError>) -> Result<
    Seq<Stage>,
    FlowError,
> {
    match r {
        Ok(v) => Ok(v@),
        Err(e) => Err(e),
    }
}

/// Fully expands one stage into primitive-only stages; see
/// `spec_expand_stage` for the rules.
pub fn expand_stage(stage: &Stage, input: FrameEstimate) -> (r: Result<Vec<Stage>, FlowError>)
    ensures
        spec_expand_result(r) == spec_expand_stage(*stage, input),
    decreases rank(stage.node.op),
{
    match stage.node.op {
        OpId::FlipVertical | OpId::FlipHorizontal | OpId::TransposeToCanvas
            | OpId::CreateCanvas => {
            let mut v: Vec<Stage> = Vec::new();
            v.push(*stage);
            proof {
                assert(v@ =~= seq![*stage]);
            }
            Ok(v)
        },
        OpId::NoOp => {
            let v: Vec<Stage> = Vec::new();
            proof {
                assert(v@ =~= Seq::<Stage>::empty());
            }
            Ok(v)
        },
        OpId::Rotate180 => {
            let mut v: Vec<Stage> = Vec::new();
            v.push(plain_stage(OpId::FlipVertical));
            v.push(plain_stage(OpId::FlipHorizontal));
            proof {
                assert(v@ =~= seq![
                    spec_plain_stage(OpId::FlipVertical),
                    spec_plain_stage(OpId::FlipHorizontal),
                ]);
            }
            Ok(v)
        },
        OpId::Rotate90 => {
            let t = plain_stage(OpId::Transpose);
            match expand_stage(&t, input) {
                Ok(mut v) => {
                    v.push(plain_stage(OpId::FlipVertical));
                    Ok(v)
                },
                Err(e) => Err(e),
            }
        },
        OpId::Rotate270 => {
            let t = plain_stage(OpId::Transpose);
            match expand_stage(&t, input) {
                Ok(mut v) => {
                    let mut out: Vec<Stage> = Vec::new();
                    out.push(plain_stage(OpId::FlipVertical));
                    proof {
                        assert(out@ =~= seq![spec_plain_stage(OpId::FlipVertical)]);
                    }
                    out.append(&mut v);
                    Ok(out)
                },
                Err(e) => Err(e),
            }
        },
        OpId::Transpose => match input {
            FrameEstimate::Unknown => Err(FlowError::EstimateUnresolved),
            FrameEstimate::Known(info) => {
                let mut v: Vec<Stage> = Vec::new();
                v.push(transpose_canvas_stage(info));
                proof {
                    assert(v@ =~= seq![spec_transpose_canvas_stage(info)]);
                }
                Ok(v)
            },
        },
        OpId::ApplyOrientation => match stage.node.params {
            NodeParams::ApplyOrientation { flag } => {
                if flag == 7 {
                    let r180 = plain_stage(OpId::Rotate180);
                    match expand_stage(&r180, input) {
                        Ok(mut a) => {
                            let e1 = node_out_estimate(&plain_node(OpId::Rotate180), input);
                            let t = plain_stage(OpId::Transpose);
                            match expand_stage(&t, e1) {
                                Ok(mut b) => {
                                    a.append(&mut b);
                                    Ok(a)
                                },
                                Err(e) => Err(e),
                            }
                        },
                        Err(e) => Err(e),
                    }
                } else if flag == 8 {
                    let s = plain_stage(OpId::Rotate90);
                    expand_stage(&s, input)
                } else if flag == 6 {
                    let s = plain_stage(OpId::Rotate270);
                    expand_stage(&s, input)
                } else if flag == 5 {
                    let s = plain_stage(OpId::Transpose);
                    expand_stage(&s, input)
                } else if flag == 4 {
                    let mut v: Vec<Stage> = Vec::new();
                    v.push(plain_stage(OpId::FlipVertical));
                    proof {
                        assert(v@ =~= seq![spec_plain_stage(OpId::FlipVertical)]);
                    }
                    Ok(v)
                } else if flag == 3 {
                    let s = plain_stage(OpId::Rotate180);
                    expand_stage(&s, input)
                } else if flag == 2 {
                    let mut v: Vec<Stage> = Vec::new();
                    v.push(plain_stage(OpId::FlipHorizontal));
                    proof {
                        assert(v@ =~= seq![spec_plain_stage(OpId::FlipHorizontal)]);
                    }
                    Ok(v)
                } else {
                    let v: Vec<Stage> = Vec::new();
                    proof {
                        assert(v@ =~= Seq::<Stage>::empty());
                    }
                    Ok(v)
                }
            },
            _ => Err(FlowError::ParamsMismatch),
        },
    }
}

/// Flattening a whole chain: each stage is fully expanded at the
/// estimate of its input frame, and the results are spliced in order.
/// The pass, and with it the whole build, is abandoned on first error.
pub open spec fn spec_flatten_stages(stages: Seq<Stage>, input: FrameEstimate) -> Result<
    Seq<Stage>,
    FlowError,
>
    decreases stages.len(),
{
    if stages.len() == 0 {
        Ok(Seq::empty())
    } else {
        match spec_expand_stage(stages[0], input) {
            Err(e) => Err(e),
            Ok(head) => match spec_flatten_stages(
                stages.drop_first(),
                spec_out_estimate(stages[0].node, input),
            ) {
                Ok(tail) => Ok(head + tail),
                Err(e) => Err(e),
            },
        }
    }
}

/// The estimator pass: the estimate of the chain's final output, folded
/// forward from the source estimate over every stage.
pub open spec fn spec_pipeline_estimate(stages: Seq<Stage>, input: FrameEstimate) -> FrameEstimate
    decreases stages.len(),
{
    if stages.len() == 0 {
        input
    } else {
        spec_pipeline_estimate(stages.drop_first(), spec_out_estimate(stages[0].node, input))
    }
}

/// The estimator pass, run forward over the chain: annotates nothing,
/// only computes what the final output's shape will be.
pub fn pipeline_estimate(p: &Pipeline, input: FrameEstimate) -> (r: FrameEstimate)
    ensures
        r == spec_pipeline_estimate(p.stages@, input),
{
    let mut est: FrameEstimate = input;
    let mut i: usize = 0;
    proof {
        assert(p.stages@.skip(0) =~= p.stages@);
    }
    while i < p.stages.len()
        invariant
            0 <= i <= p.stages@.len(),
            spec_pipeline_estimate(p.stages@, input) == spec_pipeline_estimate(
                p.stages@.skip(i as int),
                est,
            ),
        decreases p.stages@.len() - i,
    {
        let ghost rest = p.stages@.skip(i as int);
        proof {
            assert(rest[0] == p.stages@[i as int]);
            assert(rest.drop_first() =~= p.stages@.skip(i as int + 1));
        }
        est = node_out_estimate(&p.stages[i].node, est);
        i += 1;
    }
    proof {
        assert(p.stages@.skip(p.stages@.len() as int) =~= Seq::<Stage>::empty());
    }
    est
}

/// Primitivity and the edge invariant survive splicing two chains.
proof fn lemma_concat_all(a: Seq<Stage>, b: Seq<Stage>)
    ensures
        (all_primitive(a) && all_primitive(b)) ==> all_primitive(a + b),
        (all_wf(a) && all_wf(b)) ==> all_wf(a + b),
{
    if all_primitive(a) && all_primitive(b) {
        assert forall|j: int| 0 <= j < (a + b).len() implies is_primitive(
            (#[trigger] (a + b)[j]).node.op,
        ) by {
            if j < a.len() {
                assert((a + b)[j] == a[j]);
            } else {
                assert((a + b)[j] == b[j - a.len()]);
            }
        }
    }
    if all_wf(a) && all_wf(b) {
        assert forall|j: int| 0 <= j < (a + b).len() implies stage_wf(#[trigger] (a + b)[j]) by {
            if j < a.len() {
                assert((a + b)[j] == a[j]);
            } else {
                assert((a + b)[j] == b[j - a.len()]);
            }
        }
    }
}

/// A one-stage chain inherits the stage's primitivity and edge invariant.
proof fn lemma_single_stage(st: Stage)
    ensures
        is_primitive(st.node.op) ==> all_primitive(seq![st]),
        stage_wf(st) ==> all_wf(seq![st]),
{
    assert(seq![st][0] == st);
}

/// Expanding one stage only ever yields primitive stages, and stages
/// that meet the edge invariant: the fresh canvas is wired to the copy
/// primitive and nothing else.
pub proof fn lemma_expand_stage_primitive_only(stage: Stage, input: FrameEstimate)
    ensures
        (match spec_expand_stage(stage, input) {
            Ok(s) => all_primitive(s) && (stage_wf(stage) ==> all_wf(s)),
            Err(_) => true,
        }),
    decreases rank(stage.node.op),
{
    if is_primitive(stage.node.op) {
        lemma_single_stage(stage);
    } else {
        match stage.node.op {
            OpId::Rotate180 => {
                let s = seq![
                    spec_plain_stage(OpId::FlipVertical),
                    spec_plain_stage(OpId::FlipHorizontal),
                ];
                assert(s[0] == spec_plain_stage(OpId::FlipVertical));
                assert(s[1] == spec_plain_stage(OpId::FlipHorizontal));
                assert(all_primitive(s));
                assert(all_wf(s));
            },
            OpId::Rotate90 => {
                let t = spec_plain_stage(OpId::Transpose);
                lemma_expand_stage_primitive_only(t, input);
                match spec_expand_stage(t, input) {
                    Ok(s) => {
                        let fv = spec_plain_stage(OpId::FlipVertical);
                        lemma_single_stage(fv);
                        lemma_concat_all(s, seq![fv]);
                        assert(s.push(fv) =~= s + seq![fv]);
                    },
                    Err(_) => {},
                }
            },
            OpId::Rotate270 => {
                let t = spec_plain_stage(OpId::Transpose);
                lemma_expand_stage_primitive_only(t, input);
                match spec_expand_stage(t, input) {
                    Ok(s) => {
                        let fv = spec_plain_stage(OpId::FlipVertical);
                        lemma_single_stage(fv);
                        lemma_concat_all(seq![fv], s);
                    },
                    Err(_) => {},
                }
            },
            OpId::Transpose => {
                match input {
                    FrameEstimate::Unknown => {},
                    FrameEstimate::Known(info) => {
                        lemma_single_stage(spec_transpose_canvas_stage(info));
                    },
                }
            },
            OpId::ApplyOrientation => {
                match stage.node.params {
                    NodeParams::ApplyOrientation { flag } => {
                        if flag == 7 {
                            let r180 = spec_plain_stage(OpId::Rotate180);
                            let t = spec_plain_stage(OpId::Transpose);
                            let e1 = spec_out_estimate(spec_plain_node(OpId::Rotate180), input);
                            lemma_expand_stage_primitive_only(r180, input);
                            lemma_expand_stage_primitive_only(t, e1);
                            match (spec_expand_stage(r180, input), spec_expand_stage(t, e1)) {
                                (Ok(a), Ok(b)) => {
                                    lemma_concat_all(a, b);
                                },
                                _ => {},
                            }
                        } else if flag == 8 {
                            lemma_expand_stage_primitive_only(
                                spec_plain_stage(OpId::Rotate90),
                                input,
                            );
                        } else if flag == 6 {
                            lemma_expand_stage_primitive_only(
                                spec_plain_stage(OpId::Rotate270),
                                input,
                            );
                        } else if flag == 5 {
                            lemma_expand_stage_primitive_only(
                                spec_plain_stage(OpId::Transpose),
                                input,
                            );
                        } else if flag == 4 {
                            lemma_single_stage(spec_plain_stage(OpId::FlipVertical));
                        } else if flag == 3 {
                            lemma_expand_stage_primitive_only(
                                spec_plain_stage(OpId::Rotate180),
                                input,
                            );
                        } else if flag == 2 {
                            lemma_single_stage(spec_plain_stage(OpId::FlipHorizontal));
                        }
                    },
                    _ => {},
                }
            },
            _ => {},
        }
    }
}

/// On success, flattening reaches the fixed point: only primitive stages
/// remain, and if every input stage met the edge invariant, every output
/// stage does too.
pub proof fn lemma_flatten_primitive_only(stages: Seq<Stage>, input: FrameEstimate)
    ensures
        (match spec_flatten_stages(stages, input) {
            Ok(s) => all_primitive(s) && (all_wf(stages) ==> all_wf(s)),
            Err(_) => true,
        }),
    decreases stages.len(),
{
    if stages.len() == 0 {
    } else {
        lemma_expand_stage_primitive_only(stages[0], input);
        let e1 = spec_out_estimate(stages[0].node, input);
        lemma_flatten_primitive_only(stages.drop_first(), e1);
        if all_wf(stages) {
            assert(stage_wf(stages[0]));
            assert forall|j: int| 0 <= j < stages.drop_first().len() implies stage_wf(
                #[trigger] stages.drop_first()[j],
            ) by {
                assert(stages.drop_first()[j] == stages[j + 1]);
            }
        }
        match (spec_expand_stage(stages[0], input), spec_flatten_stages(stages.drop_first(), e1)) {
            (Ok(head), Ok(tail)) => {
                lemma_concat_all(head, tail);
            },
            _ => {},
        }
    }
}

/// The view of a flatten result, for stating exec results against
/// `spec_flatten_stages`.
pub open spec fn spec_flatten_result(r: Result<Pipeline, FlowError>) -> Result<
    Seq<Stage>,
    FlowError,
> {
    match r {
        Ok(p) => Ok(p.stages@),
        Err(e) => Err(e),
    }
}

/// Flattens a pipeline to a fixed point: exactly what
/// `spec_flatten_stages` dictates. On success no composite node remains,
/// and a well-formed pipeline stays well formed.
pub fn flatten(p: &Pipeline, input: FrameEstimate) -> (r: Result<Pipeline, FlowError>)
    ensures
        spec_flatten_result(r) == spec_flatten_stages(p.stages@, input),
        (match r {
            Ok(q) => all_primitive(q.stages@) && (p.wf() ==> q.wf()),
            Err(_) => true,
        }),
{
    proof {
        lemma_flatten_primitive_only(p.stages@, input);
    }
    let mut out: Vec<Stage> = Vec::new();
    let mut est: FrameEstimate = input;
    let mut i: usize = 0;
    proof {
        assert(p.stages@.skip(0) =~= p.stages@);
    }
    while i < p.stages.len()
        invariant
            0 <= i <= p.stages@.len(),
            (match spec_flatten_stages(p.stages@.skip(i as int), est) {
                Ok(tail) => spec_flatten_stages(p.stages@, input) == Ok::<Seq<Stage>, FlowError>(
                    out@ + tail,
                ),
                Err(e) => spec_flatten_stages(p.stages@, input) == Err::<Seq<Stage>, FlowError>(e),
            }),
        decreases p.stages@.len() - i,
    {
        let ghost rest = p.stages@.skip(i as int);
        let ghost pre_est = est;
        proof {
            assert(rest[0] == p.stages@[i as int]);
            assert(rest.drop_first() =~= p.stages@.skip(i as int + 1));
        }
        match expand_stage(&p.stages[i], est) {
            Ok(mut v) => {
                let ghost expanded = v@;
                let ghost old_out = out@;
                out.append(&mut v);
                est = node_out_estimate(&p.stages[i].node, est);
                i += 1;
                proof {
                    assert(spec_expand_stage(rest[0], pre_est) == Ok::<Seq<Stage>, FlowError>(
                        expanded,
                    ));
                    assert(est == spec_out_estimate(rest[0].node, pre_est));
                    match spec_flatten_stages(p.stages@.skip(i as int), est) {
                        Ok(tail) => {
                            assert(spec_flatten_stages(rest, pre_est) == Ok::<
                                Seq<Stage>,
                                FlowError,
                            >(expanded + tail));
                            assert(old_out + (expanded + tail) =~= (old_out + expanded) + tail);
                        },
                        Err(e) => {
                            assert(spec_flatten_stages(rest, pre_est) == Err::<
                                Seq<Stage>,
                                FlowError,
                            >(e));
                        },
                    }
                }
            },
            Err(e) => {
                proof {
                    assert(spec_flatten_stages(rest, pre_est) == Err::<Seq<Stage>, FlowError>(e));
                }
                return Err(e);
            },
        }
    }
    proof {
        assert(p.stages@.skip(p.stages@.len() as int) =~= Seq::<Stage>::empty());
    }
    Ok(Pipeline { stages: out })
}

} // verus!
