//! The shared generator state and the lowering driver.
//!
//! The [`Generator`] owns the type-annotation table: the binding of each
//! expression node's identity to its resolved value type, created by the
//! upstream type-inference stage, read by the encoders, and overwritten
//! exactly once per `ok`/`err` payload immediately before that payload is
//! recursively lowered.  [`Generator::lower`] walks an expression
//! depth-first and dispatches each construction site to the matching
//! encoder; it is proved to implement [`lower_spec`] exactly.

use std::collections::HashMap;

use vstd::prelude::*;

use crate::emitter::emitted;
use crate::errors::LoweringError;
use crate::expr::{args_size, expr_size, Constructor, ExprKind, ExprNode};
use crate::semantics::lower_spec;
use crate::types::{kinds_match, resolve_shape, ValueType};
use crate::words::{ClarityErr, ClarityOk, ClaritySome};

verus! {

broadcast use vstd::std_specs::hash::group_hash_axioms;

/// The shared generator state: the type-annotation table, keyed by
/// expression-node identity.
pub struct Generator {
    annotations: HashMap<u64, ValueType>,
}

impl View for Generator {
    type V = Map<u64, ValueType>;

    /// A generator is, to its callers, the annotation table it holds.
    closed spec fn view(&self) -> Map<u64, ValueType> {
        self.annotations@
    }
}

impl Generator {
    /// A generator with an empty annotation table.
    pub fn new() -> (g: Generator)
        ensures
            g@ == Map::<u64, ValueType>::empty(),
    {
        Generator { annotations: HashMap::new() }
    }

    /// Reads the resolved value type bound to an expression node, or
    /// nothing if the node was never type-resolved.
    pub fn get_annotated_type(&self, e: &ExprNode) -> (r: Option<ValueType>)
        ensures
            match r {
                Some(ty) => self@.contains_key(e.id) && ty == self@[e.id],
                None => !self@.contains_key(e.id),
            },
    {
        match self.annotations.get(&e.id) {
            Some(ty) => Some(ty.clone()),
            None => None,
        }
    }

    /// Binds an expression node to a value type, overwriting any earlier
    /// binding; last write wins.
    pub fn set_annotated_type(&mut self, e: &ExprNode, ty: ValueType)
        ensures
            final(self)@ == old(self)@.insert(e.id, ty),
    {
        self.annotations.insert(e.id, ty);
    }

    /// Recursively emits the instruction sequence for an arbitrary
    /// sub-expression: leaves push their machine values, and each
    /// construction site is dispatched to the encoder registered for its
    /// constructor.  The emitted values and the table it leaves behind
    /// are exactly those of [`lower_spec`]; an error of a payload is
    /// propagated unchanged.
    pub fn lower(&mut self, builder: &mut walrus::InstrSeqBuilder, e: &ExprNode) -> (r: Result<
        (),
        LoweringError,
    >)
        ensures
            lower_spec(old(self)@, *e) matches Ok(p) ==> r is Ok && final(self)@ == p.1 && emitted(
                *final(builder),
            ) == emitted(*old(builder)) + p.0,
            lower_spec(old(self)@, *e) matches Err(er) ==> r == Err::<(), LoweringError>(er),
            (e.kind matches ExprKind::Construct(_, cargs) && cargs@.len() != 1) ==> emitted(
                *final(builder),
            ) == emitted(*old(builder)) && final(self)@ == old(self)@,
        decreases expr_size(*e),
    {
        match &e.kind {
            ExprKind::Leaf(vals) => {
                let ty = match self.get_annotated_type(e) {
                    Some(ty) => ty,
                    None => {
                        return Err(LoweringError::MissingAnnotation);
                    },
                };
                let ks = resolve_shape(&ty);
                if !kinds_match(vals, &ks) {
                    return Err(LoweringError::LeafShapeMismatch);
                }
                crate::emitter::emit_values(builder, vals);
                Ok(())
            },
            ExprKind::Construct(c, args) => {
                proof {
                    assert(expr_size(*e) == 1 + args_size(e.kind->Construct_1, 0));
                }
                match c {
                    Constructor::Present => ClaritySome.traverse(self, builder, e, args),
                    Constructor::Success => ClarityOk.traverse(self, builder, e, args),
                    Constructor::Failure => ClarityErr.traverse(self, builder, e, args),
                }
            },
        }
    }
}

} // verus!
