//! The correctness laws of the encoding.
//!
//! The arity-matching requirement of the target machine is that every
//! branch producing a value of one declared type pushes the same number
//! and kinds of stack slots.  The lemmas here establish that the encoders
//! meet it: under the guarantee owed by type inference
//! ([`well_typed_at`]), lowering succeeds and emits exactly the machine
//! shape of the effective type; in particular a success site and a
//! failure site of one response type emit the same width and the same
//! kind sequence.  Alongside stand the discriminant values and the
//! scoping of the one-shot annotation overwrite.

use vstd::prelude::*;

use crate::expr::{
    expr_ids, expr_size, lemma_first_arg_ids, lemma_first_arg_size, lemma_own_id, Constructor,
    ExprKind, ExprNode,
};
use crate::semantics::{lower_spec, well_typed_at};
use crate::types::{
    kinds_of, lemma_kinds_of_concat, lemma_placeholder_kinds, placeholders_for, shape,
    MachineValue, PrimitiveKind, ValueType,
};

verus! {

/// Lowering a well-typed expression succeeds and emits exactly the
/// machine shape of its effective type — the fact that makes the arity
/// of every branch statically known.
pub proof fn lemma_lowering_shape(t: Map<u64, ValueType>, e: ExprNode, ty: ValueType)
    requires
        well_typed_at(t, e, ty),
    ensures
        lower_spec(t, e) is Ok,
        kinds_of(lower_spec(t, e)->Ok_0.0) == shape(ty),
    decreases expr_size(e),
{
    match e.kind {
        ExprKind::Leaf(_vals) => {},
        ExprKind::Construct(c, args) => {
            lemma_first_arg_size(args);
            match c {
                Constructor::Present => {
                    let inner = *ty->Optional_0;
                    lemma_lowering_shape(t, args@[0], inner);
                    let p = lower_spec(t, args@[0])->Ok_0;
                    lemma_kinds_of_concat(seq![MachineValue::I32(1)], p.0);
                    assert(kinds_of(seq![MachineValue::I32(1)]) =~= seq![PrimitiveKind::I32]);
                    assert(kinds_of(lower_spec(t, e)->Ok_0.0) == shape(ty));
                },
                Constructor::Success => {
                    let ok_ty = *ty->Response_0;
                    let err_ty = *ty->Response_1;
                    let t1 = t.insert(args@[0].id, ok_ty);
                    lemma_lowering_shape(t1, args@[0], ok_ty);
                    let p = lower_spec(t1, args@[0])->Ok_0;
                    lemma_kinds_of_concat(
                        seq![MachineValue::I32(1)] + p.0,
                        placeholders_for(shape(err_ty)),
                    );
                    lemma_kinds_of_concat(seq![MachineValue::I32(1)], p.0);
                    lemma_placeholder_kinds(shape(err_ty));
                    assert(kinds_of(seq![MachineValue::I32(1)]) =~= seq![PrimitiveKind::I32]);
                    assert(kinds_of(lower_spec(t, e)->Ok_0.0) == shape(ty));
                },
                Constructor::Failure => {
                    let ok_ty = *ty->Response_0;
                    let err_ty = *ty->Response_1;
                    let t1 = t.insert(args@[0].id, err_ty);
                    lemma_lowering_shape(t1, args@[0], err_ty);
                    let p = lower_spec(t1, args@[0])->Ok_0;
                    lemma_kinds_of_concat(
                        seq![MachineValue::I32(0)] + placeholders_for(shape(ok_ty)),
                        p.0,
                    );
                    lemma_kinds_of_concat(seq![MachineValue::I32(0)], placeholders_for(shape(ok_ty)));
                    lemma_placeholder_kinds(shape(ok_ty));
                    assert(kinds_of(seq![MachineValue::I32(0)]) =~= seq![PrimitiveKind::I32]);
                    assert(kinds_of(lower_spec(t, e)->Ok_0.0) == shape(ty));
                },
            }
        },
    }
}

/// Width symmetry: a success site and a failure site of one response
/// type lower to the same total number of stack slots, and that number
/// is one discriminant slot plus the widths of the two payload regions.
pub proof fn lemma_width_symmetry(
    t_ok: Map<u64, ValueType>,
    e_ok: ExprNode,
    t_err: Map<u64, ValueType>,
    e_err: ExprNode,
    rty: ValueType,
)
    requires
        rty is Response,
        e_ok.kind matches ExprKind::Construct(Constructor::Success, _),
        e_err.kind matches ExprKind::Construct(Constructor::Failure, _),
        well_typed_at(t_ok, e_ok, rty),
        well_typed_at(t_err, e_err, rty),
    ensures
        lower_spec(t_ok, e_ok) is Ok,
        lower_spec(t_err, e_err) is Ok,
        lower_spec(t_ok, e_ok)->Ok_0.0.len() == lower_spec(t_err, e_err)->Ok_0.0.len(),
        lower_spec(t_ok, e_ok)->Ok_0.0.len() == 1 + shape(*rty->Response_0).len() + shape(
            *rty->Response_1,
        ).len(),
{
    lemma_lowering_shape(t_ok, e_ok, rty);
    lemma_lowering_shape(t_err, e_err, rty);
    assert(kinds_of(lower_spec(t_ok, e_ok)->Ok_0.0).len() == lower_spec(t_ok, e_ok)->Ok_0.0.len());
    assert(kinds_of(lower_spec(t_err, e_err)->Ok_0.0).len() == lower_spec(
        t_err,
        e_err,
    )->Ok_0.0.len());
}

/// Kind-sequence symmetry: a success site and a failure site of one
/// response type lower to the same ordered sequence of primitive kinds —
/// only the values differ, never the shape.
pub proof fn lemma_kind_sequence_symmetry(
    t_ok: Map<u64, ValueType>,
    e_ok: ExprNode,
    t_err: Map<u64, ValueType>,
    e_err: ExprNode,
    rty: ValueType,
)
    requires
        rty is Response,
        e_ok.kind matches ExprKind::Construct(Constructor::Success, _),
        e_err.kind matches ExprKind::Construct(Constructor::Failure, _),
        well_typed_at(t_ok, e_ok, rty),
        well_typed_at(t_err, e_err, rty),
    ensures
        lower_spec(t_ok, e_ok) is Ok,
        lower_spec(t_err, e_err) is Ok,
        kinds_of(lower_spec(t_ok, e_ok)->Ok_0.0) == kinds_of(lower_spec(t_err, e_err)->Ok_0.0),
{
    lemma_lowering_shape(t_ok, e_ok, rty);
    lemma_lowering_shape(t_err, e_err, rty);
}

/// Discriminant correctness, success side: whenever a success site
/// lowers at all, the first value it emits is the discriminant `1`.
pub proof fn lemma_success_discriminant(t: Map<u64, ValueType>, e: ExprNode)
    requires
        e.kind matches ExprKind::Construct(Constructor::Success, _),
        lower_spec(t, e) is Ok,
    ensures
        lower_spec(t, e)->Ok_0.0.len() >= 1,
        lower_spec(t, e)->Ok_0.0[0] == MachineValue::I32(1),
{
}

/// Discriminant correctness, failure side: whenever a failure site
/// lowers at all, the first value it emits is the discriminant `0`.
pub proof fn lemma_failure_discriminant(t: Map<u64, ValueType>, e: ExprNode)
    requires
        e.kind matches ExprKind::Construct(Constructor::Failure, _),
        lower_spec(t, e) is Ok,
    ensures
        lower_spec(t, e)->Ok_0.0.len() >= 1,
        lower_spec(t, e)->Ok_0.0[0] == MachineValue::I32(0),
{
}

/// Scoped mutation: lowering an expression leaves the annotation-table
/// entry of every node outside the expression's own subtree exactly as
/// it was — the one-shot payload overwrite never leaks to sibling or
/// ancestor nodes.
pub proof fn lemma_scoped_mutation(t: Map<u64, ValueType>, e: ExprNode, k: u64)
    requires
        lower_spec(t, e) is Ok,
        !expr_ids(e).contains(k),
    ensures
        lower_spec(t, e)->Ok_0.1.contains_key(k) == t.contains_key(k),
        t.contains_key(k) ==> lower_spec(t, e)->Ok_0.1[k] == t[k],
    decreases expr_size(e),
{
    match e.kind {
        ExprKind::Leaf(_vals) => {},
        ExprKind::Construct(c, args) => {
            lemma_first_arg_size(args);
            lemma_first_arg_ids(args);
            lemma_own_id(args@[0]);
            assert(!expr_ids(args@[0]).contains(k));
            match c {
                Constructor::Present => {
                    lemma_scoped_mutation(t, args@[0], k);
                },
                Constructor::Success => {
                    let t1 = t.insert(args@[0].id, *t[e.id]->Response_0);
                    lemma_scoped_mutation(t1, args@[0], k);
                },
                Constructor::Failure => {
                    let t1 = t.insert(args@[0].id, *t[e.id]->Response_1);
                    lemma_scoped_mutation(t1, args@[0], k);
                },
            }
        },
    }
}

} // verus!
