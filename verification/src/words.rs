//! The three sum-type constructor encoders.
//!
//! Each encoder is a leaf of the surrounding traversal: invoked once per
//! matching construction site, it emits a statically determined run of
//! stack values — discriminant, payload region, placeholder region — and
//! recurses into the lowering driver exactly once, for its payload.
//!
//! The load-bearing invariant is arity matching: for one declared
//! response type, the `ok` and the `err` encoder emit the same total
//! number and kind sequence of stack slots — one discriminant slot, then
//! the success region, then the failure region — and differ only in the
//! discriminant value and in which region holds real data rather than
//! placeholders.  The lemmas in [`crate::laws`] prove this from the
//! contracts below.

use vstd::prelude::*;

use crate::emitter::{emit_i32_const, emit_placeholders, emitted};
use crate::errors::LoweringError;
use crate::expr::{args_size, get_sole_argument, lemma_first_arg_size, ExprNode};
use crate::generator::Generator;
use crate::semantics::lower_spec;
use crate::types::{placeholders_for, resolve_shape, shape, MachineValue, ValueType};

verus! {

/// The encoder for the present branch of the optional type, registered
/// under the word name `some`.
///
/// A `(some v)` site is encoded as the discriminant `1` followed by the
/// payload's own machine shape; the encoder never consults the site's
/// annotated type.  The absent branch is encoded elsewhere with the same
/// total shape: the discriminant `0` and one placeholder per slot of the
/// inner type.
pub struct ClaritySome;

/// The encoder for the success branch of the response type, registered
/// under the word name `ok`.
pub struct ClarityOk;

/// The encoder for the failure branch of the response type, registered
/// under the word name `err`.
pub struct ClarityErr;

impl ClaritySome {
    /// The word name this encoder is registered under.
    pub fn name(&self) -> (r: &'static str)
        ensures
            r@ == "some"@,
    {
        "some"
    }

    /// Encodes a `some` construction site: emits the discriminant `1`,
    /// then recursively lowers the sole payload argument in place.
    ///
    /// With zero or two-plus arguments the site yields an arity error
    /// before any emission; a payload error is propagated unchanged.
    pub fn traverse(
        &self,
        generator: &mut Generator,
        builder: &mut walrus::InstrSeqBuilder,
        _expr: &ExprNode,
        args: &Vec<ExprNode>,
    ) -> (r: Result<(), LoweringError>)
        ensures
            args@.len() != 1 ==> r == Err::<(), LoweringError>(LoweringError::ArityError)
                && final(generator)@ == old(generator)@ && emitted(*final(builder)) == emitted(
                *old(builder),
            ),
            args@.len() == 1 ==> {
                let sub = lower_spec(old(generator)@, args@[0]);
                &&& (sub matches Ok(p) ==> r is Ok && final(generator)@ == p.1 && emitted(*final(builder))
                    == emitted(*old(builder)) + seq![MachineValue::I32(1)] + p.0)
                &&& (sub matches Err(er) ==> r == Err::<(), LoweringError>(er))
            },
        decreases args_size(*args, 0),
    {
        let value = get_sole_argument(args)?;
        // (some <val>) is represented by an i32 1, followed by the value
        emit_i32_const(builder, 1);
        proof {
            lemma_first_arg_size(*args);
        }
        let r = generator.lower(builder, value);
        proof {
            if lower_spec(old(generator)@, args@[0]) is Ok {
                let p = lower_spec(old(generator)@, args@[0])->Ok_0;
                assert(emitted(*old(builder)).push(MachineValue::I32(1)) + p.0 =~= emitted(
                    *old(builder),
                ) + seq![MachineValue::I32(1)] + p.0);
            }
        }
        r
    }
}

impl ClarityOk {
    /// The word name this encoder is registered under.
    pub fn name(&self) -> (r: &'static str)
        ensures
            r@ == "ok"@,
    {
        "ok"
    }

    /// Encodes an `ok` construction site of a response type `(O, E)`:
    /// emits the discriminant `1`, overwrites the payload's annotated
    /// type with `O` and recursively lowers it in place, then emits one
    /// placeholder per slot of `E`'s shape — so that the site's total
    /// shape is the discriminant, the success region, and the failure
    /// region, exactly as an `err` site of the same type.
    ///
    /// With zero or two-plus arguments the site yields an arity error,
    /// and a site whose annotation is missing or not a response type
    /// yields an internal defect, in every case before any emission; a
    /// payload error is propagated unchanged.
    pub fn traverse(
        &self,
        generator: &mut Generator,
        builder: &mut walrus::InstrSeqBuilder,
        expr: &ExprNode,
        args: &Vec<ExprNode>,
    ) -> (r: Result<(), LoweringError>)
        ensures
            args@.len() != 1 ==> r == Err::<(), LoweringError>(LoweringError::ArityError)
                && final(generator)@ == old(generator)@ && emitted(*final(builder)) == emitted(
                *old(builder),
            ),
            args@.len() == 1 && !old(generator)@.contains_key(expr.id) ==> r == Err::<
                (),
                LoweringError,
            >(LoweringError::MissingAnnotation) && final(generator)@ == old(generator)@ && emitted(
                *final(builder),
            ) == emitted(*old(builder)),
            args@.len() == 1 && old(generator)@.contains_key(expr.id) && !(old(
                generator,
            )@[expr.id] is Response) ==> r == Err::<(), LoweringError>(
                LoweringError::ExpectedResponseType,
            ) && final(generator)@ == old(generator)@ && emitted(*final(builder)) == emitted(
                *old(builder),
            ),
            args@.len() == 1 && old(generator)@.contains_key(expr.id) ==> (old(
                generator,
            )@[expr.id] matches ValueType::Response(ok_ty, err_ty) ==> {
                let sub = lower_spec(old(generator)@.insert(args@[0].id, *ok_ty), args@[0]);
                &&& (sub matches Ok(p) ==> r is Ok && final(generator)@ == p.1 && emitted(*final(builder))
                    == emitted(*old(builder)) + seq![MachineValue::I32(1)] + p.0
                    + placeholders_for(shape(*err_ty)))
                &&& (sub matches Err(er) ==> r == Err::<(), LoweringError>(er))
            }),
        decreases args_size(*args, 0),
    {
        let value = get_sole_argument(args)?;

        let ty = match generator.get_annotated_type(expr) {
            Some(ty) => ty,
            None => {
                return Err(LoweringError::MissingAnnotation);
            },
        };
        let (ok_ty, err_ty) = match ty {
            ValueType::Response(ok_ty, err_ty) => (*ok_ty, *err_ty),
            _ => {
                return Err(LoweringError::ExpectedResponseType);
            },
        };
        let ghost g_err = err_ty;

        // (ok <val>) is represented by an i32 1, followed by the ok value,
        // followed by a placeholder for the err value
        emit_i32_const(builder, 1);

        generator.set_annotated_type(value, ok_ty);
        proof {
            lemma_first_arg_size(*args);
        }
        let ghost t1 = generator@;
        generator.lower(builder, value)?;

        // deal with err placeholders
        let err_types = resolve_shape(&err_ty);
        emit_placeholders(builder, &err_types);

        proof {
            let p = lower_spec(t1, args@[0])->Ok_0;
            assert(emitted(*old(builder)).push(MachineValue::I32(1)) + p.0 + placeholders_for(
                shape(g_err),
            ) =~= emitted(*old(builder)) + seq![MachineValue::I32(1)] + p.0 + placeholders_for(
                shape(g_err),
            ));
        }
        Ok(())
    }
}

impl ClarityErr {
    /// The word name this encoder is registered under.
    pub fn name(&self) -> (r: &'static str)
        ensures
            r@ == "err"@,
    {
        "err"
    }

    /// Encodes an `err` construction site of a response type `(O, E)`:
    /// emits the discriminant `0`, then one placeholder per slot of `O`'s
    /// shape, then overwrites the payload's annotated type with `E` and
    /// recursively lowers it in place — so that the site's total shape is
    /// the discriminant, the success region, and the failure region,
    /// exactly as an `ok` site of the same type.
    ///
    /// With zero or two-plus arguments the site yields an arity error,
    /// and a site whose annotation is missing or not a response type
    /// yields an internal defect, in every case before any emission; a
    /// payload error is propagated unchanged.
    pub fn traverse(
        &self,
        generator: &mut Generator,
        builder: &mut walrus::InstrSeqBuilder,
        expr: &ExprNode,
        args: &Vec<ExprNode>,
    ) -> (r: Result<(), LoweringError>)
        ensures
            args@.len() != 1 ==> r == Err::<(), LoweringError>(LoweringError::ArityError)
                && final(generator)@ == old(generator)@ && emitted(*final(builder)) == emitted(
                *old(builder),
            ),
            args@.len() == 1 && !old(generator)@.contains_key(expr.id) ==> r == Err::<
                (),
                LoweringError,
            >(LoweringError::MissingAnnotation) && final(generator)@ == old(generator)@ && emitted(
                *final(builder),
            ) == emitted(*old(builder)),
            args@.len() == 1 && old(generator)@.contains_key(expr.id) && !(old(
                generator,
            )@[expr.id] is Response) ==> r == Err::<(), LoweringError>(
                LoweringError::ExpectedResponseType,
            ) && final(generator)@ == old(generator)@ && emitted(*final(builder)) == emitted(
                *old(builder),
            ),
            args@.len() == 1 && old(generator)@.contains_key(expr.id) ==> (old(
                generator,
            )@[expr.id] matches ValueType::Response(ok_ty, err_ty) ==> {
                let sub = lower_spec(old(generator)@.insert(args@[0].id, *err_ty), args@[0]);
                &&& (sub matches Ok(p) ==> r is Ok && final(generator)@ == p.1 && emitted(*final(builder))
                    == emitted(*old(builder)) + seq![MachineValue::I32(0)] + placeholders_for(
                    shape(*ok_ty),
                ) + p.0)
                &&& (sub matches Err(er) ==> r == Err::<(), LoweringError>(er))
            }),
        decreases args_size(*args, 0),
    {
        let value = get_sole_argument(args)?;

        let ty = match generator.get_annotated_type(expr) {
            Some(ty) => ty,
            None => {
                return Err(LoweringError::MissingAnnotation);
            },
        };
        let (ok_ty, err_ty) = match ty {
            ValueType::Response(ok_ty, err_ty) => (*ok_ty, *err_ty),
            _ => {
                return Err(LoweringError::ExpectedResponseType);
            },
        };
        let ghost g_ok = ok_ty;

        // (err <val>) is represented by an i32 0, followed by a placeholder
        // for the ok value, followed by the err value
        emit_i32_const(builder, 0);

        let ok_types = resolve_shape(&ok_ty);
        emit_placeholders(builder, &ok_types);

        generator.set_annotated_type(value, err_ty);
        proof {
            lemma_first_arg_size(*args);
        }
        let ghost t1 = generator@;
        let r = generator.lower(builder, value);
        proof {
            if lower_spec(t1, args@[0]) is Ok {
                let p = lower_spec(t1, args@[0])->Ok_0;
                assert(emitted(*old(builder)).push(MachineValue::I32(0)) + placeholders_for(
                    shape(g_ok),
                ) + p.0 =~= emitted(*old(builder)) + seq![MachineValue::I32(0)] + placeholders_for(
                    shape(g_ok),
                ) + p.0);
            }
        }
        r
    }
}

} // verus!
