//! Laws of the types expressions have.

use vstd::prelude::*;

use crate::ast::{BinOp, NodeKind, UnOp};
use crate::exprs::{infer_expr_spec, infer_expr_uncached_spec};
use crate::ids::NodeId;
use crate::list::List;
use crate::ty::Ty;
use crate::unify::{InferCx, InfererV};

verus! {

/// The type an expression is found to have is recorded for it.
pub proof fn an_expression_is_recorded_with_its_type(st: InfererV, env: &InferCx, node: NodeId, fuel: u64)
    requires
        fuel > 0,
    ensures
        ({
            let (after, ty) = infer_expr_spec(st, env, node, fuel);
            crate::unify::get_type_spec(after, node) == Some(ty)
        }),
{
}

/// A block ends with its last expression; one that has none, and whose last
/// statement leaves it, never ends.
pub proof fn a_block_ends_with_its_tail(
    st: InfererV,
    env: &InferCx,
    node: NodeId,
    stmts: List<NodeId>,
    tail: Option<NodeId>,
    fuel: u64,
)
    requires
        crate::def::kind_of_spec(env.tables, st.file, node) == Some(&NodeKind::Block { stmts, tail }),
        fuel > 1,
    ensures
        ({
            let before = crate::exprs::infer_stmts_spec(st, env, &stmts, (fuel - 1) as u64);
            let ty = infer_expr_uncached_spec(st, env, node, fuel).1;
            match tail {
                Some(t) => ty == infer_expr_spec(before, env, t, (fuel - 1) as u64).1,
                None => ty == match crate::exprs::last_node_spec(&stmts) {
                    Some(s) => if crate::exprs::diverges_spec(before, env, s) {
                        Ty::Never
                    } else {
                        Ty::Void
                    },
                    None => Ty::Void,
                },
            }
        }),
{
}

/// `return`, `break` and `continue` leave the block they stand in.
pub proof fn leaving_is_never_coming_back(st: InfererV, env: &InferCx, node: NodeId)
    requires
        match crate::def::kind_of_spec(env.tables, st.file, node) {
            Some(NodeKind::Return { .. }) => true,
            Some(NodeKind::Break { .. }) => true,
            Some(NodeKind::Continue) => true,
            _ => false,
        },
    ensures
        crate::exprs::diverges_spec(st, env, node),
{
}

/// An address is a pointer to what it is the address of, and writable only
/// where it was taken so.
pub proof fn an_address_points_at_its_operand(
    st: InfererV,
    env: &InferCx,
    node: NodeId,
    operand: NodeId,
    mutable: bool,
    fuel: u64,
)
    requires
        fuel > 1,
    ensures
        ({
            let op = if mutable {
                UnOp::RefMut
            } else {
                UnOp::Ref
            };
            let (after, inner) = infer_expr_spec(st, env, operand, (fuel - 1) as u64);
            crate::exprs::infer_unary_spec(st, env, node, op, operand, fuel) == (
                after,
                Ty::Ptr { mutable, inner: Box::new(inner) },
            )
        }),
{
}

/// A negated truth, a comparison and a connective are truths.
pub proof fn a_test_is_a_truth(
    st: InfererV,
    env: &InferCx,
    node: NodeId,
    op: BinOp,
    lhs: NodeId,
    rhs: NodeId,
    fuel: u64,
)
    requires
        fuel > 0,
    ensures
        crate::exprs::infer_unary_spec(st, env, node, UnOp::Not, rhs, fuel).1 == Ty::Bool,
        op == BinOp::And || op == BinOp::Or || crate::lower::is_comparison_spec(op)
            ==> crate::exprs::infer_binary_spec(st, env, node, op, lhs, rhs, fuel).1 == Ty::Bool,
{
}

/// A `while` yields nothing, and neither does an `if` without an `else`.
pub proof fn what_may_not_run_yields_nothing(
    st: InfererV,
    env: &InferCx,
    node: NodeId,
    cond: NodeId,
    body: NodeId,
    fuel: u64,
)
    requires
        fuel > 1,
    ensures
        crate::def::kind_of_spec(env.tables, st.file, node) == Some(&NodeKind::While { cond, body })
            ==> infer_expr_uncached_spec(st, env, node, fuel).1 == Ty::Void,
        crate::exprs::infer_branches_spec(st, env, body, None, fuel).1 == Ty::Void,
{
}

/// What never ends decides nothing where several values meet: the others' type is
/// the result, and nothing is complained about or solved.
pub proof fn never_is_the_identity_of_a_join(
    st: InfererV,
    env: &InferCx,
    so_far: Ty,
    node: NodeId,
    ty: Ty,
    fuel: u64,
)
    requires
        fuel > 0,
    ensures
        ({
            let joined = crate::exprs::join_spec(st, env, so_far, node, ty, fuel);
            &&& crate::unify::shallow_spec(st, &so_far, crate::list::DEPTH_LIMIT) == Ty::Never ==> joined == (st, ty)
            &&& crate::unify::shallow_spec(st, &so_far, crate::list::DEPTH_LIMIT) != Ty::Never && crate::unify::shallow_spec(
                st,
                &ty,
                crate::list::DEPTH_LIMIT,
            ) == Ty::Never ==> joined == (st, so_far)
        }),
{
}

/// An `if` one of whose branches never ends has the other branch's type, whichever
/// of the two it is, and nothing is said of the two meeting; one both of whose
/// branches never end never ends.
pub proof fn a_diverging_branch_leaves_the_other_to_decide(
    st: InfererV,
    env: &InferCx,
    then: NodeId,
    els: NodeId,
    fuel: u64,
)
    requires
        fuel > 1,
    ensures
        ({
            let less = (fuel - 1) as u64;
            let (first, then_ty) = infer_expr_spec(st, env, then, less);
            let (second, else_ty) = infer_expr_spec(first, env, els, less);
            let (after, ty) = crate::exprs::infer_branches_spec(st, env, then, Some(els), fuel);
            let then_never = crate::unify::shallow_spec(second, &then_ty, crate::list::DEPTH_LIMIT) == Ty::Never;
            let else_never = crate::unify::shallow_spec(second, &else_ty, crate::list::DEPTH_LIMIT) == Ty::Never;
            &&& then_never ==> after == second && ty == else_ty
            &&& else_never && !then_never ==> after == second && ty == then_ty
        }),
{
}

/// An arm of a match that never ends leaves what the arms before it come to as it
/// was, and says nothing.
pub proof fn a_diverging_arm_decides_nothing(
    st: InfererV,
    env: &InferCx,
    arm: NodeId,
    pattern: NodeId,
    body: NodeId,
    sty: Ty,
    so_far: Ty,
    fuel: u64,
)
    requires
        crate::def::kind_of_spec(env.tables, st.file, arm) == Some(
            &NodeKind::MatchArm { pattern, guard: None, body },
        ),
        fuel > 1,
    ensures
        ({
            let less = (fuel - 1) as u64;
            let bound = crate::coerce::bind_pattern_spec(st, env, pattern, &sty, less);
            let (typed, ty) = infer_expr_spec(bound, env, body, less);
            let (after, joined) = crate::exprs::infer_arm_spec(st, env, arm, &sty, Some(so_far), fuel);
            &&& crate::unify::shallow_spec(typed, &ty, crate::list::DEPTH_LIMIT) == Ty::Never
                && crate::unify::shallow_spec(typed, &so_far, crate::list::DEPTH_LIMIT) != Ty::Never ==> after == typed
                && joined == Some(so_far)
            &&& crate::unify::shallow_spec(typed, &so_far, crate::list::DEPTH_LIMIT) == Ty::Never ==> after == typed
                && joined == Some(ty)
        }),
{
}

/// A `loop` yields what its breaks carry, and one that nothing leaves never ends.
pub proof fn a_loop_nothing_leaves_never_ends(
    st: InfererV,
    env: &InferCx,
    node: NodeId,
    body: NodeId,
    fuel: u64,
)
    requires
        crate::def::kind_of_spec(env.tables, st.file, node) == Some(&NodeKind::Loop { body }),
        fuel > 1,
    ensures
        ({
            let (begun, carried) = crate::unify::fresh_spec(st);
            let left = crate::exprs::infer_loop_body_spec(begun, env, body, &carried, (fuel - 1) as u64).1;
            infer_expr_uncached_spec(st, env, node, fuel).1 == if left {
                carried
            } else {
                Ty::Never
            }
        }),
{
}

/// A sub-slice carries the permission of the slice it is part of, and one of an
/// array is read-only.
pub proof fn a_sub_slice_keeps_its_permission(
    st: InfererV,
    env: &InferCx,
    base: NodeId,
    range: NodeId,
    fuel: u64,
)
    requires
        fuel > 0,
    ensures
        ({
            let (after, ty) = crate::exprs::infer_slice_spec(st, env, base, range, fuel);
            let bty = infer_expr_spec(st, env, base, (fuel - 1) as u64).1;
            match crate::unify::autoderef_spec(after, &bty, crate::list::DEPTH_LIMIT) {
                Ty::Slice { mutable, inner } => ty == (Ty::Slice { mutable, inner }),
                Ty::Array { len: _, mutable: _, inner } => ty == (Ty::Slice { mutable: false, inner }),
                _ => ty == Ty::Error,
            }
        }),
{
}

} // verus!
