//! Value types of the contract language and their machine shapes.
//!
//! A [`ValueType`] describes a contract-language type; its machine shape
//! is the ordered list of primitive stack-slot kinds the type occupies on
//! the target machine.  The shape depends only on the type, never on a
//! runtime value, which is what makes static arity matching across
//! branches possible.

use vstd::prelude::*;

verus! {

/// A primitive machine-value kind: one stack slot of the target machine.
#[derive(Clone, Copy, Debug, PartialEq, Eq, Structural)]
pub enum PrimitiveKind {
    /// A 32-bit integer slot.
    I32,
    /// A 64-bit integer slot.
    I64,
}

/// One concrete primitive machine value, as pushed by a constant
/// instruction of the target machine.
#[derive(Clone, Copy, Debug, PartialEq, Eq, Structural)]
pub enum MachineValue {
    /// A 32-bit integer constant.
    I32(i32),
    /// A 64-bit integer constant.
    I64(i64),
}

/// The primitive kind of a machine value.
pub open spec fn kind_of(v: MachineValue) -> PrimitiveKind {
    match v {
        MachineValue::I32(_) => PrimitiveKind::I32,
        MachineValue::I64(_) => PrimitiveKind::I64,
    }
}

/// The kinds of a sequence of machine values, in order.
pub open spec fn kinds_of(vs: Seq<MachineValue>) -> Seq<PrimitiveKind> {
    vs.map_values(|v: MachineValue| kind_of(v))
}

/// The primitive kind of a machine value.
pub fn value_kind(v: &MachineValue) -> (k: PrimitiveKind)
    ensures
        k == kind_of(*v),
{
    match v {
        MachineValue::I32(_) => PrimitiveKind::I32,
        MachineValue::I64(_) => PrimitiveKind::I64,
    }
}

/// Whether a run of machine values has exactly the given shape: the same
/// length and, slot for slot, the given primitive kind.
pub fn kinds_match(vals: &Vec<MachineValue>, ks: &Vec<PrimitiveKind>) -> (r: bool)
    ensures
        r == (kinds_of(vals@) == ks@),
{
    if vals.len() != ks.len() {
        assert(kinds_of(vals@).len() == vals@.len());
        return false;
    }
    let mut i: usize = 0;
    while i < vals.len()
        invariant
            i <= vals.len(),
            vals@.len() == ks@.len(),
            forall|j: int| 0 <= j < i ==> kind_of(vals@[j]) == ks@[j],
        decreases vals.len() - i,
    {
        if value_kind(&vals[i]) != ks[i] {
            assert(kinds_of(vals@)[i as int] != ks@[i as int]);
            return false;
        }
        i += 1;
    }
    assert(kinds_of(vals@) =~= ks@);
    true
}

/// The neutral placeholder value of a primitive kind: a zero constant of
/// that kind.  Placeholders fill the stack slots of the variant a branch
/// does not carry, so that both variants of a sum type push the same
/// shape.
pub open spec fn placeholder_for(k: PrimitiveKind) -> MachineValue {
    match k {
        PrimitiveKind::I32 => MachineValue::I32(0),
        PrimitiveKind::I64 => MachineValue::I64(0),
    }
}

/// One placeholder per kind, in order.
pub open spec fn placeholders_for(ks: Seq<PrimitiveKind>) -> Seq<MachineValue> {
    ks.map_values(|k: PrimitiveKind| placeholder_for(k))
}

/// Kinds distribute over concatenation of value runs.
pub proof fn lemma_kinds_of_concat(a: Seq<MachineValue>, b: Seq<MachineValue>)
    ensures
        kinds_of(a + b) == kinds_of(a) + kinds_of(b),
{
    assert(kinds_of(a + b) =~= kinds_of(a) + kinds_of(b));
}

/// A placeholder run has exactly the kinds it stands in for.
pub proof fn lemma_placeholder_kinds(ks: Seq<PrimitiveKind>)
    ensures
        kinds_of(placeholders_for(ks)) == ks,
{
    assert(kinds_of(placeholders_for(ks)) =~= ks);
}

/// A contract-language value type.
///
/// The two sum types, [`ValueType::Optional`] and [`ValueType::Response`],
/// are the ones whose constructors this crate encodes; the others occur
/// as payload types.  A response type always carries exactly two inner
/// types: the success payload type and the failure payload type.
#[derive(Debug, PartialEq, Eq)]
pub enum ValueType {
    /// A signed contract integer; one 64-bit slot.
    Int,
    /// An unsigned contract integer; one 64-bit slot.
    Uint,
    /// A boolean; one 32-bit slot.
    Bool,
    /// A byte buffer; offset and length slots.
    Buffer,
    /// A homogeneous sequence; offset and length slots.
    List(Box<ValueType>),
    /// Present-or-absent wrapping of an inner type.
    Optional(Box<ValueType>),
    /// Success payload type or failure payload type, mutually exclusive.
    Response(Box<ValueType>, Box<ValueType>),
}

/// The machine shape of a value type: the ordered sequence of primitive
/// kinds the type occupies on the stack.
///
/// A sum type leads with one 32-bit discriminant slot and then stacks the
/// shapes of all its payload regions, so that every variant can present
/// the same total shape.
pub open spec fn shape(t: ValueType) -> Seq<PrimitiveKind>
    decreases t,
{
    match t {
        ValueType::Int => seq![PrimitiveKind::I64],
        ValueType::Uint => seq![PrimitiveKind::I64],
        ValueType::Bool => seq![PrimitiveKind::I32],
        ValueType::Buffer => seq![PrimitiveKind::I32, PrimitiveKind::I32],
        ValueType::List(_) => seq![PrimitiveKind::I32, PrimitiveKind::I32],
        ValueType::Optional(inner) => seq![PrimitiveKind::I32] + shape(*inner),
        ValueType::Response(ok_ty, err_ty) => seq![PrimitiveKind::I32] + shape(*ok_ty) + shape(
            *err_ty,
        ),
    }
}

impl Clone for ValueType {
    /// A deep copy equal to the source.
    fn clone(&self) -> (r: Self)
        ensures
            r == *self,
        decreases self,
    {
        match self {
            ValueType::Int => ValueType::Int,
            ValueType::Uint => ValueType::Uint,
            ValueType::Bool => ValueType::Bool,
            ValueType::Buffer => ValueType::Buffer,
            ValueType::List(inner) => ValueType::List(Box::new((**inner).clone())),
            ValueType::Optional(inner) => ValueType::Optional(Box::new((**inner).clone())),
            ValueType::Response(ok_ty, err_ty) => ValueType::Response(
                Box::new((**ok_ty).clone()),
                Box::new((**err_ty).clone()),
            ),
        }
    }
}

/// Resolves the machine shape of a value type.
///
/// The result is a function of the type alone: any two calls on equal
/// types return equal shapes.
pub fn resolve_shape(t: &ValueType) -> (r: Vec<PrimitiveKind>)
    ensures
        r@ == shape(*t),
    decreases t,
{
    match t {
        ValueType::Int => vec![PrimitiveKind::I64],
        ValueType::Uint => vec![PrimitiveKind::I64],
        ValueType::Bool => vec![PrimitiveKind::I32],
        ValueType::Buffer => vec![PrimitiveKind::I32, PrimitiveKind::I32],
        ValueType::List(_) => vec![PrimitiveKind::I32, PrimitiveKind::I32],
        ValueType::Optional(inner) => {
            let mut r: Vec<PrimitiveKind> = vec![PrimitiveKind::I32];
            let mut inner_shape = resolve_shape(inner);
            r.append(&mut inner_shape);
            assert(r@ =~= shape(*t));
            r
        },
        ValueType::Response(ok_ty, err_ty) => {
            let mut r: Vec<PrimitiveKind> = vec![PrimitiveKind::I32];
            let mut ok_shape = resolve_shape(ok_ty);
            r.append(&mut ok_shape);
            let mut err_shape = resolve_shape(err_ty);
            r.append(&mut err_shape);
            assert(r@ =~= shape(*t));
            r
        },
    }
}

} // verus!
