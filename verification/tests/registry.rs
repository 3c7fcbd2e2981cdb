use orient_flatten::nodes::{
    ApplyOrientationDef, FlipHorizontalMutNodeDef, FlipVerticalMutNodeDef,
};
use orient_flatten::ops::{
    build_registry, create_canvas_def, descriptor, no_op_def, rotate180_def, rotate270_def,
    rotate90_def, transpose_def, transpose_mut_def, EdgesIn, OpId,
};

#[test]
fn registry_lists_every_operation_once() {
    let reg = build_registry();
    assert_eq!(reg.defs.len(), 10);
    for (i, d) in reg.defs.iter().enumerate() {
        for other in reg.defs.iter().skip(i + 1) {
            assert_ne!(d.fqn, other.fqn);
            assert_ne!(d.op, other.op);
        }
    }
}

#[test]
fn registry_lookup_finds_each_descriptor() {
    let reg = build_registry();
    let rot = reg.lookup("imazen.rot90").expect("registered");
    assert_eq!(rot.op, OpId::Rotate90);
    assert!(rot.expands);
    assert!(!rot.mutates_in_place);
    let flip = reg.lookup("imazen.flip_horizontal_mutate").expect("registered");
    assert_eq!(flip.op, OpId::FlipHorizontal);
    assert!(flip.mutates_in_place);
    assert!(!flip.expands);
    let copy = reg.lookup("imazen.transpose_to_canvas").expect("registered");
    assert_eq!(copy.op, OpId::TransposeToCanvas);
    assert_eq!(copy.inbound_edges, EdgesIn::OneInputOneCanvas);
}

#[test]
fn registry_lookup_of_unregistered_name_is_none() {
    let reg = build_registry();
    assert!(reg.lookup("imazen.rot45").is_none());
    assert!(reg.lookup("").is_none());
}

#[test]
fn registration_is_idempotent() {
    let a = build_registry();
    let b = build_registry();
    assert_eq!(a.defs, b.defs);
}

#[test]
fn descriptor_names_are_stable() {
    assert_eq!(no_op_def().fqn, "imazen.noop");
    assert_eq!(no_op_def().name, "NoOp");
    assert_eq!(rotate90_def().fqn, "imazen.rot90");
    assert_eq!(rotate180_def().fqn, "imazen.rot180");
    assert_eq!(rotate270_def().fqn, "imazen.rot270");
    assert_eq!(transpose_def().fqn, "imazen.transpose");
    assert_eq!(transpose_mut_def().fqn, "imazen.transpose_to_canvas");
    assert_eq!(create_canvas_def().fqn, "imazen.create_canvas");
    assert_eq!(ApplyOrientationDef.fqn(), "imazen.apply_orientation");
    assert_eq!(FlipVerticalMutNodeDef.fqn(), "imazen.flip_vertical_mutate");
    assert_eq!(FlipHorizontalMutNodeDef.fqn(), "imazen.flip_horizontal_mutate");
}

#[test]
fn descriptor_capabilities_match_kind() {
    let composite = [
        OpId::ApplyOrientation,
        OpId::Rotate90,
        OpId::Rotate180,
        OpId::Rotate270,
        OpId::Transpose,
        OpId::NoOp,
    ];
    for op in composite {
        let d = descriptor(op);
        assert!(d.expands, "{:?}", op);
        assert!(d.estimatable, "{:?}", op);
        assert!(!d.mutates_in_place, "{:?}", op);
    }
    for op in [OpId::FlipVertical, OpId::FlipHorizontal] {
        let d = descriptor(op);
        assert!(!d.expands, "{:?}", op);
        assert!(d.mutates_in_place, "{:?}", op);
        assert_eq!(d.inbound_edges, EdgesIn::OneInput);
    }
    assert_eq!(descriptor(OpId::CreateCanvas).inbound_edges, EdgesIn::NoInput);
    assert!(!descriptor(OpId::TransposeToCanvas).expands);
}
