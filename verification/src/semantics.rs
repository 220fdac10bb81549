//! The meaning of lowering: which machine values a lowering pass emits
//! for an expression, and how it changes the type-annotation table.
//!
//! [`lower_spec`] is the denotation that the executable lowering pass is
//! proved to implement, value for value.  [`well_typed_at`] captures the
//! guarantee the upstream type-inference stage owes the encoders; under
//! it, lowering succeeds and emits exactly the machine shape of the
//! expression's effective type (see the lemmas in [`crate::laws`]).

use vstd::prelude::*;

use crate::errors::LoweringError;
use crate::expr::{args_size, expr_size, Constructor, ExprKind, ExprNode};
use crate::types::{kinds_of, placeholders_for, shape, MachineValue, ValueType};

verus! {

/// What lowering an expression under a type-annotation table yields: on
/// success, the emitted machine values in order and the table as the pass
/// leaves it; on failure, the error.
///
/// A construction site is lowered as one discriminant slot and the two
/// payload regions of its declared type in declared order, the region the
/// variant does not carry filled with placeholders:
///
/// - a `some` site emits discriminant `1`, then its payload;
/// - an `ok` site emits discriminant `1`, then its payload (lowered at
///   the success inner type), then placeholders shaped like the failure
///   inner type;
/// - an `err` site emits discriminant `0`, then placeholders shaped like
///   the success inner type, then its payload (lowered at the failure
///   inner type).
///
/// Before an `ok` or `err` payload is lowered, the payload node's table
/// entry is overwritten with the matching inner type, so that the
/// recursive lowering resolves the payload's effective shape — its
/// contribution to the flat encoding — rather than the broader type it
/// was inferred to carry in isolation.
pub open spec fn lower_spec(t: Map<u64, ValueType>, e: ExprNode) -> Result<
    (Seq<MachineValue>, Map<u64, ValueType>),
    LoweringError,
>
    decreases expr_size(e),
{
    match e.kind {
        ExprKind::Leaf(vals) => {
            if !t.contains_key(e.id) {
                Err(LoweringError::MissingAnnotation)
            } else if kinds_of(vals@) != shape(t[e.id]) {
                Err(LoweringError::LeafShapeMismatch)
            } else {
                Ok((vals@, t))
            }
        },
        ExprKind::Construct(c, args) => {
            if args@.len() != 1 {
                Err(LoweringError::ArityError)
            } else {
                match c {
                    Constructor::Present => match lower_spec(t, args@[0]) {
                        Ok(p) => Ok((seq![MachineValue::I32(1)] + p.0, p.1)),
                        Err(er) => Err(er),
                    },
                    Constructor::Success => {
                        if !t.contains_key(e.id) {
                            Err(LoweringError::MissingAnnotation)
                        } else {
                            match t[e.id] {
                                ValueType::Response(ok_ty, err_ty) => {
                                    match lower_spec(t.insert(args@[0].id, *ok_ty), args@[0]) {
                                        Ok(p) => Ok(
                                            (
                                                seq![MachineValue::I32(1)] + p.0
                                                    + placeholders_for(shape(*err_ty)),
                                                p.1,
                                            ),
                                        ),
                                        Err(er) => Err(er),
                                    }
                                },
                                _ => Err(LoweringError::ExpectedResponseType),
                            }
                        }
                    },
                    Constructor::Failure => {
                        if !t.contains_key(e.id) {
                            Err(LoweringError::MissingAnnotation)
                        } else {
                            match t[e.id] {
                                ValueType::Response(ok_ty, err_ty) => {
                                    match lower_spec(t.insert(args@[0].id, *err_ty), args@[0]) {
                                        Ok(p) => Ok(
                                            (
                                                seq![MachineValue::I32(0)] + placeholders_for(
                                                    shape(*ok_ty),
                                                ) + p.0,
                                                p.1,
                                            ),
                                        ),
                                        Err(er) => Err(er),
                                    }
                                },
                                _ => Err(LoweringError::ExpectedResponseType),
                            }
                        }
                    },
                }
            }
        },
    }
}

/// The guarantee the upstream type-inference stage owes: under table `t`,
/// expression `e` is well typed at its effective type `ty`.
///
/// Concretely: every node that lowering will consult carries the table
/// entry lowering will read, every construction carries exactly one
/// argument, the sum types' inner types line up with their payloads, and
/// every leaf's machine values have the shape of its effective type.  The
/// table threaded into an `ok` or `err` payload reflects the one-shot
/// overwrite that lowering performs before it descends.
pub open spec fn well_typed_at(t: Map<u64, ValueType>, e: ExprNode, ty: ValueType) -> bool
    decreases expr_size(e),
{
    match e.kind {
        ExprKind::Leaf(vals) => t.contains_key(e.id) && t[e.id] == ty && kinds_of(vals@) == shape(
            ty,
        ),
        ExprKind::Construct(c, args) => args@.len() == 1 && match c {
            Constructor::Present => ty matches ValueType::Optional(inner) && well_typed_at(
                t,
                args@[0],
                *inner,
            ),
            Constructor::Success => t.contains_key(e.id) && t[e.id] == ty && (
            ty matches ValueType::Response(ok_ty, _err_ty) && well_typed_at(
                t.insert(args@[0].id, *ok_ty),
                args@[0],
                *ok_ty,
            )),
            Constructor::Failure => t.contains_key(e.id) && t[e.id] == ty && (
            ty matches ValueType::Response(_ok_ty, err_ty) && well_typed_at(
                t.insert(args@[0].id, *err_ty),
                args@[0],
                *err_ty,
            )),
        },
    }
}

} // verus!
