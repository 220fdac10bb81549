//! Emission of primitive constants into the instruction stream.
//!
//! The instruction stream under construction is a `walrus`
//! [`walrus::InstrSeqBuilder`].  The builder itself is opaque here; the
//! sequence of primitive machine values it has been asked to push is
//! named by the abstract view [`emitted`], and the two constant-emission
//! entry points of `walrus` are wrapped with contracts over that view.

use vstd::prelude::*;

use crate::types::{placeholder_for, placeholders_for, MachineValue, PrimitiveKind};

verus! {

/// The `walrus` instruction-sequence builder, the sink for all emitted
/// machine values.
#[verifier::external_type_specification]
#[verifier::external_body]
pub struct ExInstrSeqBuilder<'a>(walrus::InstrSeqBuilder<'a>);

/// The sequence of primitive constants emitted so far into a builder's
/// instruction sequence, in emission order.
pub uninterp spec fn emitted(b: walrus::InstrSeqBuilder) -> Seq<MachineValue>;

/// Relies on `walrus::InstrSeqBuilder::i32_const`: appends one
/// `i32.const` instruction with the given value to the sequence under
/// construction and changes nothing else about it.
#[verifier::external_body]
pub(crate) fn emit_i32_const(builder: &mut walrus::InstrSeqBuilder, val: i32)
    ensures
        emitted(*final(builder)) == emitted(*old(builder)).push(MachineValue::I32(val)),
{
    builder.i32_const(val);
}

/// Relies on `walrus::InstrSeqBuilder::i64_const`: appends one
/// `i64.const` instruction with the given value to the sequence under
/// construction and changes nothing else about it.
#[verifier::external_body]
pub(crate) fn emit_i64_const(builder: &mut walrus::InstrSeqBuilder, val: i64)
    ensures
        emitted(*final(builder)) == emitted(*old(builder)).push(MachineValue::I64(val)),
{
    builder.i64_const(val);
}

/// Emits one machine value as a constant instruction of its kind.
pub fn emit_value(builder: &mut walrus::InstrSeqBuilder, v: MachineValue)
    ensures
        emitted(*final(builder)) == emitted(*old(builder)).push(v),
{
    match v {
        MachineValue::I32(val) => emit_i32_const(builder, val),
        MachineValue::I64(val) => emit_i64_const(builder, val),
    }
}

/// Emits a run of machine values, in order.
pub fn emit_values(builder: &mut walrus::InstrSeqBuilder, vs: &Vec<MachineValue>)
    ensures
        emitted(*final(builder)) == emitted(*old(builder)) + vs@,
{
    let ghost base = emitted(*builder);
    let mut i: usize = 0;
    while i < vs.len()
        invariant
            i <= vs.len(),
            emitted(*builder) == base + vs@.take(i as int),
        decreases vs.len() - i,
    {
        emit_value(builder, vs[i]);
        assert(base + vs@.take(i as int) + seq![vs@[i as int]] =~= base + vs@.take(i + 1));
        i += 1;
    }
    assert(base + vs@.take(vs@.len() as int) =~= base + vs@);
}

/// Emits the neutral placeholder value of one primitive kind: a zero
/// constant of that kind.
pub fn emit_placeholder(builder: &mut walrus::InstrSeqBuilder, k: PrimitiveKind)
    ensures
        emitted(*final(builder)) == emitted(*old(builder)).push(placeholder_for(k)),
{
    match k {
        PrimitiveKind::I32 => emit_i32_const(builder, 0),
        PrimitiveKind::I64 => emit_i64_const(builder, 0),
    }
}

/// Emits one placeholder per primitive kind, in order: the padding for a
/// payload region the current variant does not carry.
pub fn emit_placeholders(builder: &mut walrus::InstrSeqBuilder, ks: &Vec<PrimitiveKind>)
    ensures
        emitted(*final(builder)) == emitted(*old(builder)) + placeholders_for(ks@),
{
    let ghost base = emitted(*builder);
    let mut i: usize = 0;
    while i < ks.len()
        invariant
            i <= ks.len(),
            emitted(*builder) == base + placeholders_for(ks@.take(i as int)),
        decreases ks.len() - i,
    {
        emit_placeholder(builder, ks[i]);
        assert(base + placeholders_for(ks@.take(i as int)) + seq![placeholder_for(ks@[i as int])]
            =~= base + placeholders_for(ks@.take(i + 1)));
        i += 1;
    }
    assert(base + placeholders_for(ks@.take(ks@.len() as int)) =~= base + placeholders_for(ks@));
}

} // verus!
