//! Lowering of sum-type constructors to a flat stack encoding.
//!
//! This crate lowers the two algebraic sum types of a small contract
//! language — an optional type (present or absent) and a response type
//! (success or failure) — into a flat sequence of primitive machine
//! values for a stack machine with static, per-branch arity.  The two
//! variants of a sum type generally occupy payloads of different shapes,
//! yet every branch producing a value of one declared type must push the
//! same number and kinds of stack slots.  The encoders here compute the
//! placeholder padding that makes both variants present a uniform stack
//! signature, and propagate the payload's effective type through a shared
//! type-annotation table so that nested payloads resolve to the correct
//! shape.

pub mod emitter;
pub mod errors;
pub mod expr;
pub mod generator;
pub mod laws;
pub mod semantics;
pub mod types;
pub mod words;
