//! Operation descriptors and the process-wide registry.
//!
//! Every operation is identified by a stable fully-qualified name and
//! carries an explicit capability set: whether its output shape can be
//! estimated, whether it expands into a subgraph during flattening, and
//! whether it mutates its input buffer in place. Descriptors are
//! immutable values; the registry is built once at startup and passed by
//! reference into every pipeline-building call.

use vstd::prelude::*;

use crate::shape::{Color, PixelFormat};

verus! {

/// The fixed set of operations this engine knows.
#[derive(Clone, Copy, Debug, PartialEq, Eq, Structural)]
pub enum OpId {
    /// Composite: normalize an EXIF orientation flag (1..8).
    ApplyOrientation,
    /// Composite: rotate 90 degrees clockwise.
    Rotate90,
    /// Composite: rotate 180 degrees.
    Rotate180,
    /// Composite: rotate 270 degrees clockwise.
    Rotate270,
    /// Composite: transpose; rewritten into a canvas allocation plus the
    /// copy primitive once the upstream shape is known.
    Transpose,
    /// Composite: pass-through; always removed during flattening.
    NoOp,
    /// Primitive: flip the input buffer vertically, in place.
    FlipVertical,
    /// Primitive: flip the input buffer horizontally, in place.
    FlipHorizontal,
    /// Primitive: write the transposed input into a distinct canvas buffer.
    TransposeToCanvas,
    /// Primitive: allocate a fresh canvas buffer of a given shape and fill.
    CreateCanvas,
}

/// Typed parameter payload attached to a node.
#[derive(Clone, Copy, Debug, PartialEq, Eq, Structural)]
pub enum NodeParams {
    NoParams,
    ApplyOrientation { flag: i32 },
    CreateCanvas { w: u32, h: u32, format: PixelFormat, color: Color },
}

/// Inbound edges a node requires: in-place primitives take exactly one
/// input edge and no canvas edge; copy primitives take exactly one input
/// and exactly one canvas edge; a canvas allocation takes none.
#[derive(Clone, Copy, Debug, PartialEq, Eq, Structural)]
pub enum EdgesIn {
    NoInput,
    OneInput,
    OneInputOneCanvas,
}

/// Whether flattening replaces this operation with a subgraph.
pub open spec fn expands_to_subgraph(op: OpId) -> bool {
    match op {
        OpId::ApplyOrientation => true,
        OpId::Rotate90 => true,
        OpId::Rotate180 => true,
        OpId::Rotate270 => true,
        OpId::Transpose => true,
        OpId::NoOp => true,
        OpId::FlipVertical => false,
        OpId::FlipHorizontal => false,
        OpId::TransposeToCanvas => false,
        OpId::CreateCanvas => false,
    }
}

/// A primitive is executed directly against real buffers and survives
/// flattening unchanged.
pub open spec fn is_primitive(op: OpId) -> bool {
    !expands_to_subgraph(op)
}

/// Whether execution mutates the single input buffer in place.
pub open spec fn mutates_in_place(op: OpId) -> bool {
    match op {
        OpId::FlipVertical => true,
        OpId::FlipHorizontal => true,
        _ => false,
    }
}

/// Inbound edges each operation requires.
pub open spec fn spec_edges_in(op: OpId) -> EdgesIn {
    match op {
        OpId::TransposeToCanvas => EdgesIn::OneInputOneCanvas,
        OpId::CreateCanvas => EdgesIn::NoInput,
        _ => EdgesIn::OneInput,
    }
}

/// How far an operation is from the primitive basis. Every expansion
/// rule only produces operations of strictly smaller rank, which is what
/// guarantees that flattening terminates.
pub open spec fn rank(op: OpId) -> nat {
    match op {
        OpId::FlipVertical => 0,
        OpId::FlipHorizontal => 0,
        OpId::TransposeToCanvas => 0,
        OpId::CreateCanvas => 0,
        OpId::Transpose => 1,
        OpId::NoOp => 1,
        OpId::Rotate180 => 1,
        OpId::Rotate90 => 2,
        OpId::Rotate270 => 2,
        OpId::ApplyOrientation => 3,
    }
}

/// The stable fully-qualified name of each operation.
pub open spec fn spec_fqn(op: OpId) -> Seq<char> {
    match op {
        OpId::ApplyOrientation => "imazen.apply_orientation"@,
        OpId::Rotate90 => "imazen.rot90"@,
        OpId::Rotate180 => "imazen.rot180"@,
        OpId::Rotate270 => "imazen.rot270"@,
        OpId::Transpose => "imazen.transpose"@,
        OpId::NoOp => "imazen.noop"@,
        OpId::FlipVertical => "imazen.flip_vertical_mutate"@,
        OpId::FlipHorizontal => "imazen.flip_horizontal_mutate"@,
        OpId::TransposeToCanvas => "imazen.transpose_to_canvas"@,
        OpId::CreateCanvas => "imazen.create_canvas"@,
    }
}

/// The human-readable label of each operation.
pub open spec fn spec_label(op: OpId) -> Seq<char> {
    match op {
        OpId::ApplyOrientation => "Apply orientation"@,
        OpId::Rotate90 => "Rot90"@,
        OpId::Rotate180 => "Rot180"@,
        OpId::Rotate270 => "Rot270"@,
        OpId::Transpose => "Transpose"@,
        OpId::NoOp => "NoOp"@,
        OpId::FlipVertical => "Flip vertical"@,
        OpId::FlipHorizontal => "Flip horizontal"@,
        OpId::TransposeToCanvas => "Transpose to canvas"@,
        OpId::CreateCanvas => "Create canvas"@,
    }
}

/// An immutable operation descriptor: identity, label, and capability set.
#[derive(Clone, Debug, PartialEq, Eq)]
pub struct NodeDefinition {
    pub op: OpId,
    pub fqn: String,
    pub name: String,
    pub estimatable: bool,
    pub expands: bool,
    pub mutates_in_place: bool,
    pub inbound_edges: EdgesIn,
}

impl NodeDefinition {
    /// A descriptor is well formed when its name and capability set are
    /// exactly those of the operation it stands for. Every operation
    /// here is estimatable.
    pub open spec fn wf(self) -> bool {
        &&& self.fqn@ == spec_fqn(self.op)
        &&& self.name@ == spec_label(self.op)
        &&& self.estimatable == true
        &&& self.expands == expands_to_subgraph(self.op)
        &&& self.mutates_in_place == mutates_in_place(self.op)
        &&& self.inbound_edges == spec_edges_in(self.op)
    }
}

/// Builds the descriptor of one operation.
pub fn descriptor(op: OpId) -> (d: NodeDefinition)
    ensures
        d.op == op,
        d.wf(),
{
    let fqn: &'static str = match op {
        OpId::ApplyOrientation => "imazen.apply_orientation",
        OpId::Rotate90 => "imazen.rot90",
        OpId::Rotate180 => "imazen.rot180",
        OpId::Rotate270 => "imazen.rot270",
        OpId::Transpose => "imazen.transpose",
        OpId::NoOp => "imazen.noop",
        OpId::FlipVertical => "imazen.flip_vertical_mutate",
        OpId::FlipHorizontal => "imazen.flip_horizontal_mutate",
        OpId::TransposeToCanvas => "imazen.transpose_to_canvas",
        OpId::CreateCanvas => "imazen.create_canvas",
    };
    let name: &'static str = match op {
        OpId::ApplyOrientation => "Apply orientation",
        OpId::Rotate90 => "Rot90",
        OpId::Rotate180 => "Rot180",
        OpId::Rotate270 => "Rot270",
        OpId::Transpose => "Transpose",
        OpId::NoOp => "NoOp",
        OpId::FlipVertical => "Flip vertical",
        OpId::FlipHorizontal => "Flip horizontal",
        OpId::TransposeToCanvas => "Transpose to canvas",
        OpId::CreateCanvas => "Create canvas",
    };
    let expands: bool = match op {
        OpId::ApplyOrientation => true,
        OpId::Rotate90 => true,
        OpId::Rotate180 => true,
        OpId::Rotate270 => true,
        OpId::Transpose => true,
        OpId::NoOp => true,
        OpId::FlipVertical => false,
        OpId::FlipHorizontal => false,
        OpId::TransposeToCanvas => false,
        OpId::CreateCanvas => false,
    };
    let mutates: bool = match op {
        OpId::FlipVertical => true,
        OpId::FlipHorizontal => true,
        _ => false,
    };
    let edges: EdgesIn = match op {
        OpId::TransposeToCanvas => EdgesIn::OneInputOneCanvas,
        OpId::CreateCanvas => EdgesIn::NoInput,
        _ => EdgesIn::OneInput,
    };
    NodeDefinition {
        op,
        fqn: fqn.to_owned(),
        name: name.to_owned(),
        estimatable: true,
        expands,
        mutates_in_place: mutates,
        inbound_edges: edges,
    }
}

/// Descriptor of the pass-through operation, removed by flattening.
pub fn no_op_def() -> (d: NodeDefinition)
    ensures
        d.op == OpId::NoOp,
        d.wf(),
{
    descriptor(OpId::NoOp)
}

/// Descriptor of the 90-degree rotation composite.
pub fn rotate90_def() -> (d: NodeDefinition)
    ensures
        d.op == OpId::Rotate90,
        d.wf(),
{
    descriptor(OpId::Rotate90)
}

/// Descriptor of the 180-degree rotation composite.
pub fn rotate180_def() -> (d: NodeDefinition)
    ensures
        d.op == OpId::Rotate180,
        d.wf(),
{
    descriptor(OpId::Rotate180)
}

/// Descriptor of the 270-degree rotation composite.
pub fn rotate270_def() -> (d: NodeDefinition)
    ensures
        d.op == OpId::Rotate270,
        d.wf(),
{
    descriptor(OpId::Rotate270)
}

/// Descriptor of the shape-changing transpose composite.
pub fn transpose_def() -> (d: NodeDefinition)
    ensures
        d.op == OpId::Transpose,
        d.wf(),
{
    descriptor(OpId::Transpose)
}

/// Descriptor of the primitive that writes the transposed input into a
/// distinct, pre-allocated canvas buffer.
pub fn transpose_mut_def() -> (d: NodeDefinition)
    ensures
        d.op == OpId::TransposeToCanvas,
        d.wf(),
{
    descriptor(OpId::TransposeToCanvas)
}

/// Descriptor of the canvas-allocation primitive.
pub fn create_canvas_def() -> (d: NodeDefinition)
    ensures
        d.op == OpId::CreateCanvas,
        d.wf(),
{
    descriptor(OpId::CreateCanvas)
}

/// The fixed order in which the registry lists its descriptors.
pub open spec fn spec_registry_ops() -> Seq<OpId> {
    seq![
        OpId::ApplyOrientation,
        OpId::Rotate90,
        OpId::Rotate180,
        OpId::Rotate270,
        OpId::Transpose,
        OpId::NoOp,
        OpId::FlipVertical,
        OpId::FlipHorizontal,
        OpId::TransposeToCanvas,
        OpId::CreateCanvas,
    ]
}

/// The read-only table of every registered descriptor. Built exactly
/// once at startup; lookups after that always return the same
/// descriptor value for the same name.
pub struct OperationRegistry {
    pub defs: Vec<NodeDefinition>,
}

impl OperationRegistry {
    /// One well-formed descriptor per operation, in the fixed order.
    pub open spec fn wf(self) -> bool {
        &&& self.defs@.len() == spec_registry_ops().len()
        &&& forall|i: int|
            0 <= i < self.defs@.len() ==> #[trigger] self.defs@[i].wf() && self.defs@[i].op
                == spec_registry_ops()[i]
    }

    /// Looks a descriptor up by its fully-qualified name. A name no
    /// registration ever used yields no descriptor, which callers treat
    /// as a programming error, not a recoverable condition.
    pub fn lookup(&self, fqn: &str) -> (r: Option<&NodeDefinition>)
        ensures
            (match r {
                Some(d) => exists|i: int|
                    0 <= i < self.defs@.len() && *d == #[trigger] self.defs@[i] && d.fqn@ == fqn@,
                None => forall|i: int| 0 <= i < self.defs@.len() ==> #[trigger] self.defs@[i].fqn@ != fqn@,
            }),
    {
        let wanted: String = fqn.to_owned();
        let mut i: usize = 0;
        while i < self.defs.len()
            invariant
                0 <= i <= self.defs@.len(),
                wanted@ == fqn@,
                forall|j: int| 0 <= j < i ==> #[trigger] self.defs@[j].fqn@ != fqn@,
            decreases self.defs@.len() - i,
        {
            if self.defs[i].fqn == wanted {
                return Some(&self.defs[i]);
            }
            i += 1;
        }
        None
    }
}

/// Builds the registry: every operation this engine knows, each under
/// its stable fully-qualified name. Building it twice yields equal
/// tables, so registration is idempotent.
pub fn build_registry() -> (r: OperationRegistry)
    ensures
        r.wf(),
{
    let mut defs: Vec<NodeDefinition> = Vec::new();
    defs.push(descriptor(OpId::ApplyOrientation));
    defs.push(descriptor(OpId::Rotate90));
    defs.push(descriptor(OpId::Rotate180));
    defs.push(descriptor(OpId::Rotate270));
    defs.push(descriptor(OpId::Transpose));
    defs.push(descriptor(OpId::NoOp));
    defs.push(descriptor(OpId::FlipVertical));
    defs.push(descriptor(OpId::FlipHorizontal));
    defs.push(descriptor(OpId::TransposeToCanvas));
    defs.push(descriptor(OpId::CreateCanvas));
    OperationRegistry { defs }
}

} // verus!
