//! End-to-end tests of the sum-type encoders against a real `walrus`
//! instruction sequence.

use clar2wasm::errors::LoweringError;
use clar2wasm::expr::{get_sole_argument, Constructor, ExprKind, ExprNode};
use clar2wasm::generator::Generator;
use clar2wasm::types::{MachineValue, ValueType};
use clar2wasm::words::{ClarityErr, ClarityOk, ClaritySome};

/// Reads the constants emitted into a builder back out as machine values.
fn emitted_values(builder: &walrus::InstrSeqBuilder) -> Vec<MachineValue> {
    builder
        .instrs()
        .iter()
        .map(|(instr, _)| match instr {
            walrus::ir::Instr::Const(c) => match c.value {
                walrus::ir::Value::I32(v) => MachineValue::I32(v),
                walrus::ir::Value::I64(v) => MachineValue::I64(v),
                _ => panic!("unexpected constant kind"),
            },
            _ => panic!("unexpected instruction"),
        })
        .collect()
}

fn leaf(id: u64, vals: Vec<MachineValue>) -> ExprNode {
    ExprNode { id, kind: ExprKind::Leaf(vals) }
}

fn construct(id: u64, c: Constructor, args: Vec<ExprNode>) -> ExprNode {
    ExprNode { id, kind: ExprKind::Construct(c, args) }
}

fn response(ok_ty: ValueType, err_ty: ValueType) -> ValueType {
    ValueType::Response(Box::new(ok_ty), Box::new(err_ty))
}

/// Runs `f` on a fresh instruction-sequence builder and returns its
/// result together with the constants it emitted.
fn with_builder<R>(f: impl FnOnce(&mut walrus::InstrSeqBuilder) -> R) -> (R, Vec<MachineValue>) {
    let mut module = walrus::Module::default();
    let mut fb = walrus::FunctionBuilder::new(&mut module.types, &[], &[]);
    let mut body = fb.func_body();
    let r = f(&mut body);
    let vals = emitted_values(&body);
    (r, vals)
}

#[test]
fn some_single_slot_payload() {
    // (some 7) over a single 32-bit-slot payload: discriminant 1, then the value.
    let mut generator = Generator::new();
    let payload = leaf(2, vec![MachineValue::I32(7)]);
    generator.set_annotated_type(&payload, ValueType::Bool);
    let site = construct(1, Constructor::Present, vec![payload]);
    let (r, vals) = with_builder(|b| {
        let args = match &site.kind {
            ExprKind::Construct(_, args) => args,
            _ => unreachable!(),
        };
        ClaritySome.traverse(&mut generator, b, &site, args)
    });
    assert!(r.is_ok());
    assert_eq!(vals, vec![MachineValue::I32(1), MachineValue::I32(7)]);
}

#[test]
fn ok_pads_the_err_region() {
    // Response (32-bit, 32-bit), success payload 5: [1, 5, placeholder].
    let mut generator = Generator::new();
    let payload = leaf(2, vec![MachineValue::I32(5)]);
    let site = construct(1, Constructor::Success, vec![payload]);
    generator.set_annotated_type(&site, response(ValueType::Bool, ValueType::Bool));
    let (r, vals) = with_builder(|b| generator.lower(b, &site));
    assert!(r.is_ok());
    assert_eq!(
        vals,
        vec![MachineValue::I32(1), MachineValue::I32(5), MachineValue::I32(0)]
    );
}

#[test]
fn err_pads_the_ok_region() {
    // Same response type, failure payload 9: [0, placeholder, 9]; same width.
    let mut generator = Generator::new();
    let payload = leaf(2, vec![MachineValue::I32(9)]);
    let site = construct(1, Constructor::Failure, vec![payload]);
    generator.set_annotated_type(&site, response(ValueType::Bool, ValueType::Bool));
    let (r, vals) = with_builder(|b| generator.lower(b, &site));
    assert!(r.is_ok());
    assert_eq!(
        vals,
        vec![MachineValue::I32(0), MachineValue::I32(0), MachineValue::I32(9)]
    );
    assert_eq!(vals.len(), 3);
}

#[test]
fn both_variants_emit_the_same_width() {
    // Response (two 32-bit slots, one 64-bit slot): both variants emit 4 slots.
    let rty = response(ValueType::Buffer, ValueType::Int);

    let mut generator = Generator::new();
    let err_payload = leaf(2, vec![MachineValue::I64(11)]);
    let err_site = construct(1, Constructor::Failure, vec![err_payload]);
    generator.set_annotated_type(&err_site, rty);
    let (r, err_vals) = with_builder(|b| generator.lower(b, &err_site));
    assert!(r.is_ok());
    assert_eq!(
        err_vals,
        vec![
            MachineValue::I32(0),
            MachineValue::I32(0),
            MachineValue::I32(0),
            MachineValue::I64(11),
        ]
    );

    let rty = response(ValueType::Buffer, ValueType::Int);
    let mut generator = Generator::new();
    let ok_payload = leaf(2, vec![MachineValue::I32(1), MachineValue::I32(2)]);
    let ok_site = construct(1, Constructor::Success, vec![ok_payload]);
    generator.set_annotated_type(&ok_site, rty);
    let (r, ok_vals) = with_builder(|b| generator.lower(b, &ok_site));
    assert!(r.is_ok());
    assert_eq!(
        ok_vals,
        vec![
            MachineValue::I32(1),
            MachineValue::I32(1),
            MachineValue::I32(2),
            MachineValue::I64(0),
        ]
    );

    assert_eq!(ok_vals.len(), err_vals.len());
}

#[test]
fn nested_some_inside_ok() {
    // Response (Optional Bool, Int), success payload (some true):
    // ok discriminant, some discriminant, payload, 64-bit placeholder.
    let mut generator = Generator::new();
    let inner = leaf(3, vec![MachineValue::I32(1)]);
    generator.set_annotated_type(&inner, ValueType::Bool);
    let some_site = construct(2, Constructor::Present, vec![inner]);
    let ok_site = construct(1, Constructor::Success, vec![some_site]);
    generator.set_annotated_type(
        &ok_site,
        response(ValueType::Optional(Box::new(ValueType::Bool)), ValueType::Int),
    );
    let (r, vals) = with_builder(|b| generator.lower(b, &ok_site));
    assert!(r.is_ok());
    assert_eq!(
        vals,
        vec![
            MachineValue::I32(1),
            MachineValue::I32(1),
            MachineValue::I32(1),
            MachineValue::I64(0),
        ]
    );
}

#[test]
fn arity_error_emits_nothing() {
    // A malformed ok call with two arguments fails with an arity error
    // and zero instructions emitted.
    let mut generator = Generator::new();
    let a = leaf(2, vec![MachineValue::I32(5)]);
    let b = leaf(3, vec![MachineValue::I32(6)]);
    let site = construct(1, Constructor::Success, vec![a, b]);
    generator.set_annotated_type(&site, response(ValueType::Bool, ValueType::Bool));
    let (r, vals) = with_builder(|b| generator.lower(b, &site));
    assert_eq!(r, Err(LoweringError::ArityError));
    assert_eq!(vals, vec![]);
}

#[test]
fn arity_error_on_zero_arguments() {
    let mut generator = Generator::new();
    let site = construct(1, Constructor::Present, vec![]);
    let (r, vals) = with_builder(|b| generator.lower(b, &site));
    assert_eq!(r, Err(LoweringError::ArityError));
    assert_eq!(vals, vec![]);
}

#[test]
fn missing_annotation_is_an_internal_defect() {
    // An ok site that was never type-resolved fails before any emission.
    let mut generator = Generator::new();
    let payload = leaf(2, vec![MachineValue::I32(5)]);
    let site = construct(1, Constructor::Success, vec![payload]);
    let (r, vals) = with_builder(|b| generator.lower(b, &site));
    assert_eq!(r, Err(LoweringError::MissingAnnotation));
    assert!(r.unwrap_err().is_internal_defect());
    assert_eq!(vals, vec![]);
}

#[test]
fn non_response_annotation_is_an_internal_defect() {
    // An err site annotated with a non-response type fails before any emission.
    let mut generator = Generator::new();
    let payload = leaf(2, vec![MachineValue::I32(5)]);
    let site = construct(1, Constructor::Failure, vec![payload]);
    generator.set_annotated_type(&site, ValueType::Bool);
    let (r, vals) = with_builder(|b| generator.lower(b, &site));
    assert_eq!(r, Err(LoweringError::ExpectedResponseType));
    assert!(r.unwrap_err().is_internal_defect());
    assert_eq!(vals, vec![]);
}

#[test]
fn leaf_shape_mismatch_is_detected() {
    // A leaf whose values do not have its annotated shape is rejected.
    let mut generator = Generator::new();
    let payload = leaf(2, vec![MachineValue::I32(5)]);
    generator.set_annotated_type(&payload, ValueType::Int);
    let (r, vals) = with_builder(|b| generator.lower(b, &payload));
    assert_eq!(r, Err(LoweringError::LeafShapeMismatch));
    assert!(r.unwrap_err().is_internal_defect());
    assert_eq!(vals, vec![]);
}

#[test]
fn arity_error_is_recoverable() {
    assert!(!LoweringError::ArityError.is_internal_defect());
}

#[test]
fn overwrite_is_scoped_to_the_payload() {
    // Encoding an ok site overwrites only the payload's annotation; a
    // sibling node's entry and the site's own entry are untouched.
    let mut generator = Generator::new();
    let payload = leaf(2, vec![MachineValue::I32(5)]);
    let sibling = leaf(3, vec![MachineValue::I64(8)]);
    generator.set_annotated_type(&payload, ValueType::Buffer);
    generator.set_annotated_type(&sibling, ValueType::Int);
    let site = construct(1, Constructor::Success, vec![payload]);
    generator.set_annotated_type(&site, response(ValueType::Bool, ValueType::Int));
    let (r, _) = with_builder(|b| generator.lower(b, &site));
    assert!(r.is_ok());
    let payload_probe = leaf(2, vec![]);
    assert_eq!(generator.get_annotated_type(&payload_probe), Some(ValueType::Bool));
    let sibling_probe = leaf(3, vec![]);
    assert_eq!(generator.get_annotated_type(&sibling_probe), Some(ValueType::Int));
    let site_probe = leaf(1, vec![]);
    assert_eq!(
        generator.get_annotated_type(&site_probe),
        Some(response(ValueType::Bool, ValueType::Int))
    );
}

#[test]
fn payload_errors_propagate_unchanged() {
    // A defect inside the payload of a some site comes back as-is.
    let mut generator = Generator::new();
    let payload = leaf(2, vec![MachineValue::I32(5)]);
    let site = construct(1, Constructor::Present, vec![payload]);
    let (r, _) = with_builder(|b| generator.lower(b, &site));
    assert_eq!(r, Err(LoweringError::MissingAnnotation));
}

#[test]
fn word_names() {
    assert_eq!(ClaritySome.name(), "some");
    assert_eq!(ClarityOk.name(), "ok");
    assert_eq!(ClarityErr.name(), "err");
}

#[test]
fn sole_argument_accessor() {
    let args = vec![leaf(2, vec![MachineValue::I32(5)])];
    let got = get_sole_argument(&args).expect("one argument");
    assert_eq!(got.id, 2);
    let none: Vec<ExprNode> = vec![];
    assert_eq!(get_sole_argument(&none).unwrap_err(), LoweringError::ArityError);
}
