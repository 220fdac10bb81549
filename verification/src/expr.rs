//! Expression nodes and the three sum-type constructors.
//!
//! An [`ExprNode`] is the fragment of the surrounding expression tree
//! this crate needs: a node identity (the key into the type-annotation
//! table), and either a leaf that lowers to a known run of machine
//! values, or a construction site — a call to one of the three sum-type
//! constructors carrying its argument sub-expressions.

use vstd::prelude::*;

use crate::errors::LoweringError;
use crate::types::MachineValue;

verus! {

/// The three sum-type constructors this crate encodes, one per
/// registered word name.
#[derive(Clone, Copy, Debug, PartialEq, Eq, Structural)]
pub enum Constructor {
    /// The present branch of the optional type (word `some`).
    Present,
    /// The success branch of the response type (word `ok`).
    Success,
    /// The failure branch of the response type (word `err`).
    Failure,
}

/// What an expression node is, for the purposes of lowering.
#[derive(Debug)]
pub enum ExprKind {
    /// A sub-expression whose lowering pushes exactly these machine
    /// values; it stands for an arbitrary already-lowerable payload
    /// expression (a literal, a variable read, and so on).
    Leaf(Vec<MachineValue>),
    /// A call to a sum-type constructor with its argument
    /// sub-expressions; a well-formed call carries exactly one.
    Construct(Constructor, Vec<ExprNode>),
}

/// One node of the expression tree.
#[derive(Debug)]
pub struct ExprNode {
    /// The node's identity: the key binding it to its entry in the
    /// type-annotation table.
    pub id: u64,
    /// What the node is.
    pub kind: ExprKind,
}

/// A structural size of an expression node, used as the termination
/// measure of lowering: every node counts one, and a construction counts
/// its arguments.
pub open spec fn expr_size(e: ExprNode) -> nat
    decreases e, 0int,
{
    match e.kind {
        ExprKind::Leaf(_) => 1,
        ExprKind::Construct(_, args) => 1 + args_size(args, 0),
    }
}

/// The combined size of the argument nodes from index `i` on.
pub open spec fn args_size(args: Vec<ExprNode>, i: int) -> nat
    decreases args, args@.len() - i,
{
    if i < 0 || i >= args@.len() {
        0
    } else {
        1 + expr_size(args@[i]) + args_size(args, i + 1)
    }
}

/// The sole argument of a construction site is smaller than the
/// construction's argument list, and that list is smaller than the
/// construction itself; these bounds drive the termination of lowering.
pub proof fn lemma_first_arg_size(args: Vec<ExprNode>)
    requires
        args@.len() >= 1,
    ensures
        expr_size(args@[0]) < args_size(args, 0),
{
}

/// The set of node identities occurring in an expression subtree.
pub open spec fn expr_ids(e: ExprNode) -> Set<u64>
    decreases e, 0int,
{
    match e.kind {
        ExprKind::Leaf(_) => set![e.id],
        ExprKind::Construct(_, args) => set![e.id].union(args_ids(args, 0)),
    }
}

/// The node identities of the argument nodes from index `i` on.
pub open spec fn args_ids(args: Vec<ExprNode>, i: int) -> Set<u64>
    decreases args, args@.len() - i,
{
    if i < 0 || i >= args@.len() {
        Set::empty()
    } else {
        expr_ids(args@[i]).union(args_ids(args, i + 1))
    }
}

/// Every identity in the sole argument's subtree is an identity of the
/// construction's subtree.
pub proof fn lemma_first_arg_ids(args: Vec<ExprNode>)
    requires
        args@.len() >= 1,
    ensures
        expr_ids(args@[0]).subset_of(args_ids(args, 0)),
{
}

/// An expression's own identity is among its subtree's identities.
pub proof fn lemma_own_id(e: ExprNode)
    ensures
        expr_ids(e).contains(e.id),
{
}

/// The accessor enforcing the one-argument shape of the sum-type
/// constructors: the sole argument of the construction, or an arity
/// error if the construction carries no argument or more than one.
pub fn get_sole_argument<'a>(args: &'a Vec<ExprNode>) -> (r: Result<&'a ExprNode, LoweringError>)
    ensures
        args@.len() == 1 ==> (r matches Ok(v) && *v == args@[0]),
        args@.len() != 1 ==> r == Err::<&'a ExprNode, LoweringError>(LoweringError::ArityError),
{
    if args.len() == 1 {
        Ok(&args[0])
    } else {
        Err(LoweringError::ArityError)
    }
}

} // verus!
