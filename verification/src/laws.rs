//! The engine's guarantees, stated and proved once and for all inputs:
//! flattening reaches the primitive-only fixed point and is idempotent,
//! the pass-through node is always spliced out, a top-level transpose
//! inserts a correctly sized canvas, the rotation and orientation tables
//! expand exactly as specified, and expansion never changes what the
//! estimator says about the final frame.

use vstd::prelude::*;

use crate::engine::{
    all_primitive, lemma_flatten_primitive_only, spec_canvas_node, spec_expand_stage,
    spec_flatten_stages, spec_orientation_stage, spec_out_estimate, spec_pipeline_estimate,
    spec_plain_node, spec_plain_stage, spec_transpose_canvas_stage, Node, Stage,
};
use crate::error::FlowError;
use crate::nodes::spec_orientation_steps;
use crate::ops::{is_primitive, rank, NodeParams, OpId};
use crate::shape::{Color, FrameEstimate, FrameInfo};

verus! {

/// Flattening an already primitive-only chain returns it unchanged.
pub proof fn lemma_flatten_primitive_identity(stages: Seq<Stage>, input: FrameEstimate)
    requires
        all_primitive(stages),
    ensures
        spec_flatten_stages(stages, input) == Ok::<Seq<Stage>, FlowError>(stages),
    decreases stages.len(),
{
    if stages.len() == 0 {
        assert(stages =~= Seq::<Stage>::empty());
    } else {
        assert(is_primitive(stages[0].node.op));
        let e1 = spec_out_estimate(stages[0].node, input);
        assert forall|j: int| 0 <= j < stages.drop_first().len() implies is_primitive(
            (#[trigger] stages.drop_first()[j]).node.op,
        ) by {
            assert(stages.drop_first()[j] == stages[j + 1]);
        }
        lemma_flatten_primitive_identity(stages.drop_first(), e1);
        assert(seq![stages[0]] + stages.drop_first() =~= stages);
    }
}

/// Flattening is idempotent: flattening what a successful flatten pass
/// produced returns it unchanged, from any source estimate.
pub proof fn lemma_flatten_idempotent(
    stages: Seq<Stage>,
    input: FrameEstimate,
    second_input: FrameEstimate,
)
    ensures
        (match spec_flatten_stages(stages, input) {
            Ok(s) => spec_flatten_stages(s, second_input) == Ok::<Seq<Stage>, FlowError>(s),
            Err(_) => true,
        }),
{
    lemma_flatten_primitive_only(stages, input);
    match spec_flatten_stages(stages, input) {
        Ok(s) => {
            lemma_flatten_primitive_identity(s, second_input);
        },
        Err(_) => {},
    }
}

/// The pass-through node expands to nothing on every input, so a chain
/// running through it flattens to the direct connection of its
/// neighbours, with no residual stage.
pub proof fn lemma_no_op_spliced_out(a: Stage, b: Stage, input: FrameEstimate)
    requires
        is_primitive(a.node.op),
        is_primitive(b.node.op),
    ensures
        spec_expand_stage(spec_plain_stage(OpId::NoOp), input) == Ok::<Seq<Stage>, FlowError>(
            Seq::<Stage>::empty(),
        ),
        spec_flatten_stages(seq![a, spec_plain_stage(OpId::NoOp), b], input) == Ok::<
            Seq<Stage>,
            FlowError,
        >(seq![a, b]),
{
    let n = spec_plain_stage(OpId::NoOp);
    let chain = seq![a, n, b];
    let e1 = spec_out_estimate(a.node, input);
    assert(chain.drop_first() =~= seq![n, b]);
    assert(seq![n, b].drop_first() =~= seq![b]);
    assert(seq![b].drop_first() =~= Seq::<Stage>::empty());
    let e2 = spec_out_estimate(n.node, e1);
    let e3 = spec_out_estimate(b.node, e2);
    assert(spec_flatten_stages(Seq::<Stage>::empty(), e3) == Ok::<Seq<Stage>, FlowError>(
        Seq::<Stage>::empty(),
    ));
    assert(spec_flatten_stages(seq![b], e2) == Ok::<Seq<Stage>, FlowError>(
        seq![b] + Seq::<Stage>::empty(),
    ));
    assert(spec_flatten_stages(seq![n, b], e1) == Ok::<Seq<Stage>, FlowError>(
        Seq::<Stage>::empty() + (seq![b] + Seq::<Stage>::empty()),
    ));
    assert(spec_flatten_stages(chain, input) == Ok::<Seq<Stage>, FlowError>(
        seq![a] + (Seq::<Stage>::empty() + (seq![b] + Seq::<Stage>::empty())),
    ));
    assert(seq![a] + (Seq::<Stage>::empty() + (seq![b] + Seq::<Stage>::empty())) =~= seq![a, b]);
}

/// Inserting the pass-through node anywhere in a chain never changes
/// what flattening produces: it is always removed, and its neighbours
/// are reconnected directly.
pub proof fn lemma_no_op_removed_anywhere(xs: Seq<Stage>, ys: Seq<Stage>, input: FrameEstimate)
    ensures
        spec_flatten_stages(xs + seq![spec_plain_stage(OpId::NoOp)] + ys, input)
            == spec_flatten_stages(xs + ys, input),
    decreases xs.len(),
{
    let n = spec_plain_stage(OpId::NoOp);
    if xs.len() == 0 {
        assert(xs + seq![n] + ys =~= seq![n] + ys);
        assert(xs + ys =~= ys);
        let chain = seq![n] + ys;
        assert(chain[0] == n);
        assert(chain.drop_first() =~= ys);
        let e1 = spec_out_estimate(n.node, input);
        assert(e1 == input);
        match spec_flatten_stages(ys, input) {
            Ok(t) => {
                assert(Seq::<Stage>::empty() + t =~= t);
                assert(spec_flatten_stages(chain, input) == Ok::<Seq<Stage>, FlowError>(
                    Seq::<Stage>::empty() + t,
                ));
            },
            Err(_) => {},
        }
    } else {
        let x = xs[0];
        let left = xs + seq![n] + ys;
        let right = xs + ys;
        assert(left[0] == x);
        assert(right[0] == x);
        assert(left.drop_first() =~= xs.drop_first() + seq![n] + ys);
        assert(right.drop_first() =~= xs.drop_first() + ys);
        let e1 = spec_out_estimate(x.node, input);
        lemma_no_op_removed_anywhere(xs.drop_first(), ys, e1);
    }
}

/// A top-level transpose over a known upstream shape flattens to the
/// copy primitive with a fresh canvas wired in: the canvas is sized with
/// width and height exchanged, keeps the upstream pixel format, and is
/// filled fully transparent. The final output estimate is the upstream
/// shape with width and height exchanged.
pub proof fn lemma_transpose_inserts_canvas(info: FrameInfo)
    ensures
        spec_canvas_node(info).params == (NodeParams::CreateCanvas {
            w: info.h,
            h: info.w,
            format: info.fmt,
            color: Color::Transparent,
        }),
        spec_transpose_canvas_stage(info).canvas == Option::Some(spec_canvas_node(info)),
        spec_flatten_stages(seq![spec_plain_stage(OpId::Transpose)], FrameEstimate::Known(info))
            == Ok::<Seq<Stage>, FlowError>(seq![spec_transpose_canvas_stage(info)]),
        spec_pipeline_estimate(
            seq![spec_transpose_canvas_stage(info)],
            FrameEstimate::Known(info),
        ) == FrameEstimate::Known(info.spec_swapped()),
{
    let known = FrameEstimate::Known(info);
    let t = spec_plain_stage(OpId::Transpose);
    let out = spec_transpose_canvas_stage(info);
    assert(seq![t].drop_first() =~= Seq::<Stage>::empty());
    assert(seq![out].drop_first() =~= Seq::<Stage>::empty());
    let e1 = spec_out_estimate(t.node, known);
    assert(spec_expand_stage(t, known) == Ok::<Seq<Stage>, FlowError>(seq![out]));
    assert(spec_flatten_stages(Seq::<Stage>::empty(), e1) == Ok::<Seq<Stage>, FlowError>(
        Seq::<Stage>::empty(),
    ));
    assert(spec_flatten_stages(seq![t], known) == Ok::<Seq<Stage>, FlowError>(
        seq![out] + Seq::<Stage>::empty(),
    ));
    assert(seq![out] + Seq::<Stage>::empty() =~= seq![out]);
    let e2 = spec_out_estimate(out.node, known);
    assert(e2 == FrameEstimate::Known(info.spec_swapped()));
    assert(spec_pipeline_estimate(Seq::<Stage>::empty(), e2) == e2);
    assert(spec_pipeline_estimate(seq![out], known) == e2);
}

/// Expanding a transpose with the upstream shape still unknown is the
/// internal error that aborts the build: the engine must estimate before
/// it expands any shape-dependent rule.
pub proof fn lemma_transpose_needs_estimate()
    ensures
        spec_expand_stage(spec_plain_stage(OpId::Transpose), FrameEstimate::Unknown) == Err::<
            Seq<Stage>,
            FlowError,
        >(FlowError::EstimateUnresolved),
{
}

/// The rotation composites fully flatten to their fixed, order-stable
/// primitive sequences: a 90-degree rotation to a transpose-to-canvas
/// then a vertical flip, a 180-degree rotation to a vertical then a
/// horizontal flip, and a 270-degree rotation to a vertical flip then a
/// transpose-to-canvas.
pub proof fn lemma_rotate_expansions(info: FrameInfo, any: FrameEstimate)
    ensures
        spec_expand_stage(spec_plain_stage(OpId::Rotate90), FrameEstimate::Known(info)) == Ok::<
            Seq<Stage>,
            FlowError,
        >(seq![spec_transpose_canvas_stage(info), spec_plain_stage(OpId::FlipVertical)]),
        spec_expand_stage(spec_plain_stage(OpId::Rotate180), any) == Ok::<Seq<Stage>, FlowError>(
            seq![spec_plain_stage(OpId::FlipVertical), spec_plain_stage(OpId::FlipHorizontal)],
        ),
        spec_expand_stage(spec_plain_stage(OpId::Rotate270), FrameEstimate::Known(info)) == Ok::<
            Seq<Stage>,
            FlowError,
        >(seq![spec_plain_stage(OpId::FlipVertical), spec_transpose_canvas_stage(info)]),
{
    let t = spec_transpose_canvas_stage(info);
    let fv = spec_plain_stage(OpId::FlipVertical);
    assert(spec_expand_stage(spec_plain_stage(OpId::Transpose), FrameEstimate::Known(info))
        == Ok::<Seq<Stage>, FlowError>(seq![t]));
    assert(seq![t].push(fv) =~= seq![t, fv]);
    assert(seq![fv] + seq![t] =~= seq![fv, t]);
}

/// The orientation table, fully flattened over a known upstream shape:
/// every flag 1..8 yields exactly the primitive sequence the expansion
/// table dictates, and any flag outside 2..8 yields the empty sequence.
pub proof fn lemma_orientation_full_expansion(flag: i32, info: FrameInfo)
    ensures
        flag == 1 ==> spec_expand_stage(spec_orientation_stage(flag), FrameEstimate::Known(info))
            == Ok::<Seq<Stage>, FlowError>(Seq::<Stage>::empty()),
        flag == 2 ==> spec_expand_stage(spec_orientation_stage(flag), FrameEstimate::Known(info))
            == Ok::<Seq<Stage>, FlowError>(seq![spec_plain_stage(OpId::FlipHorizontal)]),
        flag == 3 ==> spec_expand_stage(spec_orientation_stage(flag), FrameEstimate::Known(info))
            == Ok::<Seq<Stage>, FlowError>(
            seq![spec_plain_stage(OpId::FlipVertical), spec_plain_stage(OpId::FlipHorizontal)],
        ),
        flag == 4 ==> spec_expand_stage(spec_orientation_stage(flag), FrameEstimate::Known(info))
            == Ok::<Seq<Stage>, FlowError>(seq![spec_plain_stage(OpId::FlipVertical)]),
        flag == 5 ==> spec_expand_stage(spec_orientation_stage(flag), FrameEstimate::Known(info))
            == Ok::<Seq<Stage>, FlowError>(seq![spec_transpose_canvas_stage(info)]),
        flag == 6 ==> spec_expand_stage(spec_orientation_stage(flag), FrameEstimate::Known(info))
            == Ok::<Seq<Stage>, FlowError>(
            seq![spec_plain_stage(OpId::FlipVertical), spec_transpose_canvas_stage(info)],
        ),
        flag == 7 ==> spec_expand_stage(spec_orientation_stage(flag), FrameEstimate::Known(info))
            == Ok::<Seq<Stage>, FlowError>(
            seq![
                spec_plain_stage(OpId::FlipVertical),
                spec_plain_stage(OpId::FlipHorizontal),
                spec_transpose_canvas_stage(info),
            ],
        ),
        flag == 8 ==> spec_expand_stage(spec_orientation_stage(flag), FrameEstimate::Known(info))
            == Ok::<Seq<Stage>, FlowError>(
            seq![spec_transpose_canvas_stage(info), spec_plain_stage(OpId::FlipVertical)],
        ),
        !(2 <= flag <= 8) ==> spec_expand_stage(
            spec_orientation_stage(flag),
            FrameEstimate::Known(info),
        ) == Ok::<Seq<Stage>, FlowError>(Seq::<Stage>::empty()),
{
    let known = FrameEstimate::Known(info);
    let t = spec_transpose_canvas_stage(info);
    let fv = spec_plain_stage(OpId::FlipVertical);
    let fh = spec_plain_stage(OpId::FlipHorizontal);
    lemma_rotate_expansions(info, known);
    assert(spec_expand_stage(spec_plain_stage(OpId::Transpose), known) == Ok::<
        Seq<Stage>,
        FlowError,
    >(seq![t]));
    if flag == 7 {
        let e1 = spec_out_estimate(spec_plain_node(OpId::Rotate180), known);
        assert(e1 == known);
        assert(seq![fv, fh] + seq![t] =~= seq![fv, fh, t]);
    }
}

/// Flattening a one-stage chain is expanding that stage.
proof fn lemma_flatten_single(st: Stage, input: FrameEstimate)
    ensures
        spec_flatten_stages(seq![st], input) == spec_expand_stage(st, input),
{
    assert(seq![st].drop_first() =~= Seq::<Stage>::empty());
    let e1 = spec_out_estimate(st.node, input);
    assert(spec_flatten_stages(Seq::<Stage>::empty(), e1) == Ok::<Seq<Stage>, FlowError>(
        Seq::<Stage>::empty(),
    ));
    match spec_expand_stage(st, input) {
        Ok(h) => {
            assert(h + Seq::<Stage>::empty() =~= h);
        },
        Err(_) => {},
    }
}

/// Flattening a two-stage chain splices the two expansions, threading
/// the estimate through the first stage.
proof fn lemma_flatten_pair(a: Stage, b: Stage, input: FrameEstimate)
    ensures
        spec_flatten_stages(seq![a, b], input) == (match spec_expand_stage(a, input) {
            Ok(ha) => (match spec_expand_stage(b, spec_out_estimate(a.node, input)) {
                Ok(hb) => Ok::<Seq<Stage>, FlowError>(ha + hb),
                Err(e) => Err::<Seq<Stage>, FlowError>(e),
            }),
            Err(e) => Err::<Seq<Stage>, FlowError>(e),
        }),
{
    assert(seq![a, b].drop_first() =~= seq![b]);
    let e1 = spec_out_estimate(a.node, input);
    lemma_flatten_single(b, e1);
}

/// How a replacement node list is spliced into a chain: each node
/// becomes a stage with no canvas edge of its own.
pub open spec fn spec_nodes_as_stages(nodes: Seq<Node>) -> Seq<Stage> {
    nodes.map_values(|n: Node| Stage { node: n, canvas: Option::None })
}

/// One step of the orientation table followed by flattening agrees with
/// the engine's direct expansion: splicing the replacement node list in
/// and rewriting on to the fixed point yields the same primitive chain,
/// for every flag and every upstream estimate.
pub proof fn lemma_orientation_step_then_flatten(flag: i32, input: FrameEstimate)
    ensures
        spec_flatten_stages(spec_nodes_as_stages(spec_orientation_steps(flag)), input)
            == spec_expand_stage(spec_orientation_stage(flag), input),
{
    let staged = spec_nodes_as_stages(spec_orientation_steps(flag));
    if flag == 7 {
        assert(staged =~= seq![
            spec_plain_stage(OpId::Rotate180),
            spec_plain_stage(OpId::Transpose),
        ]);
        lemma_flatten_pair(
            spec_plain_stage(OpId::Rotate180),
            spec_plain_stage(OpId::Transpose),
            input,
        );
    } else if flag == 8 {
        assert(staged =~= seq![spec_plain_stage(OpId::Rotate90)]);
        lemma_flatten_single(spec_plain_stage(OpId::Rotate90), input);
    } else if flag == 6 {
        assert(staged =~= seq![spec_plain_stage(OpId::Rotate270)]);
        lemma_flatten_single(spec_plain_stage(OpId::Rotate270), input);
    } else if flag == 5 {
        assert(staged =~= seq![spec_plain_stage(OpId::Transpose)]);
        lemma_flatten_single(spec_plain_stage(OpId::Transpose), input);
    } else if flag == 4 {
        assert(staged =~= seq![spec_plain_stage(OpId::FlipVertical)]);
        lemma_flatten_single(spec_plain_stage(OpId::FlipVertical), input);
    } else if flag == 3 {
        assert(staged =~= seq![spec_plain_stage(OpId::Rotate180)]);
        lemma_flatten_single(spec_plain_stage(OpId::Rotate180), input);
    } else if flag == 2 {
        assert(staged =~= seq![spec_plain_stage(OpId::FlipHorizontal)]);
        lemma_flatten_single(spec_plain_stage(OpId::FlipHorizontal), input);
    } else {
        assert(staged =~= Seq::<Stage>::empty());
    }
}

/// On success, flattening never changes what the estimator says of the
/// final frame: shape inference over the primitive-only chain agrees
/// with shape inference over the original pipeline.
pub proof fn lemma_flatten_preserves_estimate(stages: Seq<Stage>, input: FrameEstimate)
    ensures
        (match spec_flatten_stages(stages, input) {
            Ok(s) => spec_pipeline_estimate(s, input) == spec_pipeline_estimate(stages, input),
            Err(_) => true,
        }),
    decreases stages.len(),
{
    if stages.len() == 0 {
    } else {
        lemma_expansion_preserves_estimate(stages[0], input);
        let e1 = spec_out_estimate(stages[0].node, input);
        lemma_flatten_preserves_estimate(stages.drop_first(), e1);
        match (spec_expand_stage(stages[0], input), spec_flatten_stages(stages.drop_first(), e1)) {
            (Ok(head), Ok(tail)) => {
                lemma_pipeline_estimate_concat(head, tail, input);
            },
            _ => {},
        }
    }
}

/// Folding the estimator over two spliced chains is folding it over the
/// first, then the second.
pub proof fn lemma_pipeline_estimate_concat(a: Seq<Stage>, b: Seq<Stage>, input: FrameEstimate)
    ensures
        spec_pipeline_estimate(a + b, input) == spec_pipeline_estimate(
            b,
            spec_pipeline_estimate(a, input),
        ),
    decreases a.len(),
{
    if a.len() == 0 {
        assert(a + b =~= b);
    } else {
        assert((a + b)[0] == a[0]);
        let e1 = spec_out_estimate(a[0].node, input);
        assert((a + b).drop_first() =~= a.drop_first() + b);
        lemma_pipeline_estimate_concat(a.drop_first(), b, e1);
    }
}

/// Expansion is sound for the estimator: the estimate folded over what a
/// stage expands to equals the estimate of the original composite stage.
/// Shape inference before and after flattening agree.
pub proof fn lemma_expansion_preserves_estimate(stage: Stage, input: FrameEstimate)
    ensures
        (match spec_expand_stage(stage, input) {
            Ok(s) => spec_pipeline_estimate(s, input) == spec_out_estimate(stage.node, input),
            Err(_) => true,
        }),
    decreases rank(stage.node.op),
{
    let one = spec_out_estimate(stage.node, input);
    if is_primitive(stage.node.op) {
        assert(seq![stage].drop_first() =~= Seq::<Stage>::empty());
        assert(spec_pipeline_estimate(Seq::<Stage>::empty(), one) == one);
    } else {
        match stage.node.op {
            OpId::Rotate180 => {
                let fv = spec_plain_stage(OpId::FlipVertical);
                let fh = spec_plain_stage(OpId::FlipHorizontal);
                let e1 = spec_out_estimate(fv.node, input);
                let e2 = spec_out_estimate(fh.node, e1);
                assert(seq![fv, fh].drop_first() =~= seq![fh]);
                assert(seq![fh].drop_first() =~= Seq::<Stage>::empty());
                assert(spec_pipeline_estimate(Seq::<Stage>::empty(), e2) == e2);
                assert(spec_pipeline_estimate(seq![fh], e1) == e2);
                assert(spec_pipeline_estimate(seq![fv, fh], input) == e2);
            },
            OpId::Rotate90 => {
                let t = spec_plain_stage(OpId::Transpose);
                lemma_expansion_preserves_estimate(t, input);
                match spec_expand_stage(t, input) {
                    Ok(s) => {
                        let fv = spec_plain_stage(OpId::FlipVertical);
                        let mid = spec_pipeline_estimate(s, input);
                        let e1 = spec_out_estimate(fv.node, mid);
                        assert(s.push(fv) =~= s + seq![fv]);
                        lemma_pipeline_estimate_concat(s, seq![fv], input);
                        assert(seq![fv].drop_first() =~= Seq::<Stage>::empty());
                        assert(spec_pipeline_estimate(Seq::<Stage>::empty(), e1) == e1);
                        assert(spec_pipeline_estimate(seq![fv], mid) == e1);
                    },
                    Err(_) => {},
                }
            },
            OpId::Rotate270 => {
                let t = spec_plain_stage(OpId::Transpose);
                lemma_expansion_preserves_estimate(t, input);
                match spec_expand_stage(t, input) {
                    Ok(s) => {
                        let fv = spec_plain_stage(OpId::FlipVertical);
                        lemma_pipeline_estimate_concat(seq![fv], s, input);
                        let e1 = spec_out_estimate(fv.node, input);
                        assert(seq![fv].drop_first() =~= Seq::<Stage>::empty());
                        assert(spec_pipeline_estimate(Seq::<Stage>::empty(), e1) == e1);
                        assert(spec_pipeline_estimate(seq![fv], input) == input);
                    },
                    Err(_) => {},
                }
            },
            OpId::Transpose => {
                match input {
                    FrameEstimate::Unknown => {},
                    FrameEstimate::Known(info) => {
                        let out = spec_transpose_canvas_stage(info);
                        let e1 = spec_out_estimate(out.node, input);
                        assert(seq![out].drop_first() =~= Seq::<Stage>::empty());
                        assert(spec_pipeline_estimate(Seq::<Stage>::empty(), e1) == e1);
                        assert(spec_pipeline_estimate(seq![out], input) == e1);
                    },
                }
            },
            OpId::ApplyOrientation => {
                match stage.node.params {
                    NodeParams::ApplyOrientation { flag } => {
                        if flag == 7 {
                            let r180 = spec_plain_stage(OpId::Rotate180);
                            let t = spec_plain_stage(OpId::Transpose);
                            let e1 = spec_out_estimate(spec_plain_node(OpId::Rotate180), input);
                            lemma_expansion_preserves_estimate(r180, input);
                            lemma_expansion_preserves_estimate(t, e1);
                            match (spec_expand_stage(r180, input), spec_expand_stage(t, e1)) {
                                (Ok(a), Ok(b)) => {
                                    lemma_pipeline_estimate_concat(a, b, input);
                                },
                                _ => {},
                            }
                        } else if flag == 8 {
                            lemma_expansion_preserves_estimate(
                                spec_plain_stage(OpId::Rotate90),
                                input,
                            );
                        } else if flag == 6 {
                            lemma_expansion_preserves_estimate(
                                spec_plain_stage(OpId::Rotate270),
                                input,
                            );
                        } else if flag == 5 {
                            lemma_expansion_preserves_estimate(
                                spec_plain_stage(OpId::Transpose),
                                input,
                            );
                        } else if flag == 4 {
                            let fv = spec_plain_stage(OpId::FlipVertical);
                            let e1 = spec_out_estimate(fv.node, input);
                            assert(seq![fv].drop_first() =~= Seq::<Stage>::empty());
                            assert(spec_pipeline_estimate(Seq::<Stage>::empty(), e1) == e1);
                            assert(spec_pipeline_estimate(seq![fv], input) == e1);
                        } else if flag == 3 {
                            lemma_expansion_preserves_estimate(
                                spec_plain_stage(OpId::Rotate180),
                                input,
                            );
                        } else if flag == 2 {
                            let fh = spec_plain_stage(OpId::FlipHorizontal);
                            let e1 = spec_out_estimate(fh.node, input);
                            assert(seq![fh].drop_first() =~= Seq::<Stage>::empty());
                            assert(spec_pipeline_estimate(Seq::<Stage>::empty(), e1) == e1);
                            assert(spec_pipeline_estimate(seq![fh], input) == e1);
                        }
                    },
                    _ => {},
                }
            },
            _ => {},
        }
    }
}

} // verus!
