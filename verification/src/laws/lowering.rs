//! Laws of lowering: what each piece of written structure becomes.

use vstd::prelude::*;

use crate::ast::{BinOp, NodeKind, UnOp};
use crate::facts::{MethodRes, RecvAdjust};
use crate::ids::{DefId, FileSpan, IrId, NodeId};
use crate::ir::{Arm, Expr, ExprKind, PatternKind, StmtKind};
use crate::list::List;
use crate::lower::{LowerCx, LowererV};
use crate::ty::Ty;

verus! {

/// The place a node was written at.
pub open spec fn place_of(st: LowererV, cx: &LowerCx, node: NodeId) -> FileSpan {
    let (file, span) = crate::def::span_of_spec(cx.tables, st.file, node);
    FileSpan { file: file, span: span }
}

/// An expression lowered out of a node takes an id of its own, with the place of
/// the node and the type it was given recorded under it.
pub proof fn an_expression_carries_its_place_and_type(
    st: LowererV,
    cx: &LowerCx,
    node: NodeId,
    ty: Ty,
    kind: ExprKind,
)
    requires
        st.meta.next < u64::MAX,
    ensures
        ({
            let (after, e) = crate::lower::expr_spec(st, cx, node, ty, kind);
            &&& e.kind == kind
            &&& e.id.0 == st.meta.next
            &&& e.id.0 < after.meta.next
            &&& crate::lower::span_spec(after, e.id) == Some(place_of(st, cx, node))
            &&& crate::lower::ty_of_spec(after, &e) == ty
        }),
{
}

/// An expression nothing in the source wrote is at the place of the one it is
/// derived from.
pub proof fn a_derived_expression_is_where_its_source_is(st: LowererV, from: IrId, ty: Ty, kind: ExprKind)
    requires
        crate::lower::span_spec(st, from) is Some,
        st.meta.next < u64::MAX,
    ensures
        ({
            let (after, e) = crate::lower::derived_expr_spec(st, from, ty, kind);
            &&& e.kind == kind
            &&& e.id.0 == st.meta.next
            &&& crate::lower::span_spec(after, e.id) == crate::lower::span_spec(st, from)
            &&& crate::lower::ty_of_spec(after, &e) == ty
        }),
{
}

/// Whether a node lowers to one expression of its own: a literal, a tuple, a
/// branch, a match, a loop, a read through a pointer, a range or a variant.
pub open spec fn lowers_to_itself(k: Option<&NodeKind>) -> bool {
    match k {
        Some(NodeKind::Lit(_)) => true,
        Some(NodeKind::Tuple { .. }) => true,
        Some(NodeKind::If { .. }) => true,
        Some(NodeKind::MatchExpr { .. }) => true,
        Some(NodeKind::Loop { .. }) => true,
        Some(NodeKind::Deref { .. }) => true,
        Some(NodeKind::Range { .. }) => true,
        Some(NodeKind::VariantLit { .. }) => true,
        _ => false,
    }
}

/// Such a node lowers to an expression of the type recorded for it: nothing is
/// worked out again.
pub proof fn a_node_lowers_with_its_recorded_type(st: LowererV, cx: &LowerCx, node: NodeId, fuel: u64)
    requires
        fuel > 0,
        lowers_to_itself(crate::def::kind_of_spec(cx.tables, st.file, node)),
    ensures
        ({
            let (after, e) = crate::lower::lower_expr_inner_spec(st, cx, node, fuel);
            crate::lower::ty_of_spec(after, &e) == crate::lower::ty_spec(st, cx, node)
        }),
{
}

// Structure.

/// Whether a statement leaves the loop it is in when a condition fails.
pub open spec fn breaks_unless(s: crate::ir::Stmt) -> bool {
    match s.kind {
        StmtKind::Expr(e) => match e.kind {
            ExprKind::If { cond, then, els } => {
                &&& match cond.kind {
                    ExprKind::Unary { op, operand: _ } => op == UnOp::Not,
                    _ => false,
                }
                &&& then.tail is None
                &&& match *then.stmts {
                    List::Cons(b, rest) => b.kind == StmtKind::Break(None) && *rest == List::<crate::ir::Stmt>::Nil,
                    List::Nil => false,
                }
                &&& els is None
            },
            _ => false,
        },
        _ => false,
    }
}

/// `while cond { body }` becomes `loop { if !cond { break }; body }`.
pub proof fn a_while_becomes_a_guarded_loop(st: LowererV, cx: &LowerCx, node: NodeId, fuel: u64)
    requires
        fuel > 1,
        match crate::def::kind_of_spec(cx.tables, st.file, node) {
            Some(NodeKind::While { .. }) => true,
            _ => false,
        },
    ensures
        match crate::lower::lower_expr_inner_spec(st, cx, node, fuel).1.kind {
            ExprKind::Loop { body } => body.tail is None && match *body.stmts {
                List::Cons(guard, _) => breaks_unless(guard),
                List::Nil => false,
            },
            _ => false,
        },
{
}

/// `if match p := v { then } else { els }` becomes a match with two arms: the
/// pattern, and everything else.
pub proof fn an_if_match_becomes_a_match(st: LowererV, cx: &LowerCx, node: NodeId, fuel: u64)
    requires
        fuel > 1,
        match crate::def::kind_of_spec(cx.tables, st.file, node) {
            Some(NodeKind::IfMatch { .. }) => true,
            _ => false,
        },
    ensures
        match crate::lower::lower_expr_inner_spec(st, cx, node, fuel).1.kind {
            ExprKind::Match { scrutinee: _, arms } => match *arms {
                List::Cons(hit, more) => hit.guard is None && match *more {
                    List::Cons(miss, end) => {
                        &&& miss.pattern.kind == PatternKind::Wildcard
                        &&& miss.guard is None
                        &&& *end == List::<Arm>::Nil
                    },
                    List::Nil => false,
                },
                List::Nil => false,
            },
            _ => false,
        },
{
}

/// A `defer` stays where it was written.
pub proof fn a_defer_stays_where_it_is(st: LowererV, cx: &LowerCx, node: NodeId, fuel: u64)
    requires
        fuel > 0,
        match crate::def::kind_of_spec(cx.tables, st.file, node) {
            Some(NodeKind::Defer { .. }) => true,
            _ => false,
        },
    ensures
        match crate::lower::lower_stmt_spec(st, cx, node, fuel).1 {
            Some(s) => match s.kind {
                StmtKind::Defer(_) => true,
                _ => false,
            },
            None => false,
        },
{
}

/// Reading a member out of a pointer reads through the pointer first, and what
/// is no pointer is left alone.
pub proof fn a_pointer_is_read_through(st: LowererV, base: Expr)
    ensures
        ({
            let (after, e) = crate::lower::autoderef_spec(st, base);
            match crate::lower::ty_of_spec(st, &base) {
                Ty::Ptr { mutable: _, inner } => {
                    &&& e.kind == ExprKind::Deref { base: Box::new(base) }
                    &&& crate::lower::ty_of_spec(after, &e) == *inner
                },
                _ => e == base && after == st,
            }
        }),
{
}

// Coercions.

/// Whether nothing changes the type of a node on its way.
pub open spec fn uncoerced(st: LowererV, cx: &LowerCx, node: NodeId) -> bool {
    &&& crate::facts::fact_upcast_spec(cx.facts, st.file, node) is None
    &&& crate::facts::fact_coercion_spec(cx.facts, st.file, node) is None
    &&& crate::facts::fact_slice_coerce_spec(cx.facts, st.file, node) is None
    &&& crate::facts::fact_dyn_coerce_spec(cx.facts, st.file, node) is None
}

/// A node nothing was coerced at lowers to what it says itself.
pub proof fn an_uncoerced_node_lowers_as_written(st: LowererV, cx: &LowerCx, node: NodeId, fuel: u64)
    requires
        fuel > 0,
        uncoerced(st, cx, node),
    ensures
        crate::lower::lower_expr_spec(st, cx, node, fuel) == crate::lower::lower_expr_inner_spec(
            st,
            cx,
            node,
            (fuel - 1) as u64,
        ),
{
}

/// A recorded conversion becomes a cast to the type it converts to, marked as
/// one nothing in the source wrote.
pub proof fn a_conversion_becomes_a_cast(st: LowererV, cx: &LowerCx, node: NodeId, fuel: u64)
    requires
        fuel > 0,
        crate::facts::fact_upcast_spec(cx.facts, st.file, node) is None,
        crate::facts::fact_coercion_spec(cx.facts, st.file, node) is Some,
    ensures
        ({
            let to = crate::facts::fact_coercion_spec(cx.facts, st.file, node)->0.to;
            let value = crate::lower::lower_expr_inner_spec(st, cx, node, (fuel - 1) as u64).1;
            let (after, e) = crate::lower::lower_expr_spec(st, cx, node, fuel);
            &&& e.kind == ExprKind::Intrinsic {
                name: crate::symbol::sym_spec("cast"),
                args: Box::new(crate::list::single_spec(value)),
            }
            &&& crate::lower::ty_of_spec(after, &e) == to
            &&& after.meta.implicit_casts.dom().contains(e.id.0)
        }),
{
}

/// Unsizing to a trait object keeps the pointee it erases.
pub proof fn an_unsizing_keeps_what_it_erases(st: LowererV, cx: &LowerCx, node: NodeId, fuel: u64)
    requires
        fuel > 0,
        crate::facts::fact_upcast_spec(cx.facts, st.file, node) is None,
        crate::facts::fact_coercion_spec(cx.facts, st.file, node) is None,
        crate::facts::fact_slice_coerce_spec(cx.facts, st.file, node) is None,
        crate::facts::fact_dyn_coerce_spec(cx.facts, st.file, node) is Some,
    ensures
        ({
            let dc = crate::facts::fact_dyn_coerce_spec(cx.facts, st.file, node)->0;
            let value = crate::lower::lower_expr_inner_spec(st, cx, node, (fuel - 1) as u64).1;
            crate::lower::lower_expr_spec(st, cx, node, fuel).1.kind == ExprKind::DynCast {
                value: Box::new(value),
                concrete: dc.concrete,
            }
        }),
{
}

/// An `@using` coercion becomes the field access it stands for: the field itself
/// of a value, and the field's address of a pointer.
pub proof fn an_upcast_becomes_a_field_access(st: LowererV, cx: &LowerCx, node: NodeId, fuel: u64)
    requires
        fuel > 1,
        crate::facts::fact_upcast_spec(cx.facts, st.file, node) is Some,
    ensures
        ({
            let up = *crate::facts::fact_upcast_spec(cx.facts, st.file, node)->0;
            let (after, e) = crate::lower::lower_expr_spec(st, cx, node, fuel);
            &&& crate::lower::ty_of_spec(after, &e) == up.target
            &&& if up.through_ptr {
                match e.kind {
                    ExprKind::Ref { mutable: _, place } => reads_field(*place, up.field),
                    _ => false,
                }
            } else {
                reads_field(e, up.field)
            }
        }),
{
}

/// Whether an expression reads a field.
pub open spec fn reads_field(e: Expr, field: DefId) -> bool {
    match e.kind {
        ExprKind::Field { base: _, name: _, def } => def == Some(field),
        _ => false,
    }
}

// Calls.

/// What the `self` parameter asked of a receiver is written out around it.
pub proof fn a_receiver_is_adjusted(st: LowererV, recv: Expr, adjust: RecvAdjust, self_ty: Ty)
    ensures
        ({
            let (after, e) = crate::lower::adjust_recv_spec(st, recv, adjust, &self_ty);
            match adjust {
                RecvAdjust::Keep => e == recv && after == st,
                RecvAdjust::Ref { mutable } => {
                    &&& e.kind == ExprKind::Ref { mutable: mutable, place: Box::new(recv) }
                    &&& crate::lower::ty_of_spec(after, &e) == self_ty
                },
                RecvAdjust::Deref => {
                    &&& e.kind == ExprKind::Deref { base: Box::new(recv) }
                    &&& crate::lower::ty_of_spec(after, &e) == self_ty
                },
            }
        }),
{
}

/// A method call becomes a call of the method, with the receiver in front of the
/// arguments and the dispatch that was recorded.
pub proof fn a_method_call_becomes_a_call(
    st: LowererV,
    cx: &LowerCx,
    node: NodeId,
    callee: NodeId,
    res: MethodRes,
    args: List<NodeId>,
    ty: Ty,
    fuel: u64,
)
    requires
        fuel > 0,
        crate::def::intrinsic_of_spec(cx.tables, res.method) is None,
        match crate::def::kind_of_spec(cx.tables, st.file, callee) {
            Some(NodeKind::FieldAccess { .. }) => true,
            _ => false,
        },
    ensures
        match crate::lower::lower_method_call_spec(st, cx, node, callee, &res, &args, ty, fuel).1.kind {
            ExprKind::Call { callee: target, args: given, builtin, dispatch } => {
                &&& target.kind == ExprKind::Global(res.method)
                &&& dispatch == crate::lower::method_dispatch_spec(&res)
                &&& builtin is None
                &&& match (*given, res.adjust) {
                    (List::Cons(first, _), RecvAdjust::Ref { mutable }) => match first.kind {
                        ExprKind::Ref { mutable: m, place: _ } => m == mutable,
                        _ => false,
                    },
                    (List::Cons(first, _), RecvAdjust::Deref) => match first.kind {
                        ExprKind::Deref { base: _ } => true,
                        _ => false,
                    },
                    (List::Cons(_, _), RecvAdjust::Keep) => true,
                    _ => false,
                }
            },
            _ => false,
        },
{
}

/// The relations answer as one ordering does: landing on what is tested means
/// what the relation says of it.
pub proof fn relations_test_the_ordering(op: BinOp)
    requires
        op == BinOp::Lt || op == BinOp::Le || op == BinOp::Gt || op == BinOp::Ge,
    ensures
        op == BinOp::Lt ==> crate::lower::relation_test_spec(op) == (crate::symbol::sym_spec("less"), true),
        op == BinOp::Ge ==> crate::lower::relation_test_spec(op) == (crate::symbol::sym_spec("less"), false),
        op == BinOp::Gt ==> crate::lower::relation_test_spec(op) == (crate::symbol::sym_spec("greater"), true),
        op == BinOp::Le ==> crate::lower::relation_test_spec(op) == (crate::symbol::sym_spec("greater"), false),
{
}

/// An inequality is its equality, negated.
pub proof fn an_inequality_is_a_negated_equality(
    st: LowererV,
    cx: &LowerCx,
    node: NodeId,
    res: crate::facts::OpResolution,
    lhs: NodeId,
    rhs: NodeId,
    fuel: u64,
)
    requires
        fuel > 0,
    ensures
        match crate::lower::lower_comparison_spec(st, cx, node, res, BinOp::Ne, lhs, rhs, fuel).1.kind {
            ExprKind::Unary { op, operand } => {
                &&& op == UnOp::Not
                &&& *operand == crate::lower::lower_comparison_spec(st, cx, node, res, BinOp::Eq, lhs, rhs, fuel).1
            },
            _ => false,
        },
{
}

/// A default is lowered once: asking for it again answers the same, and changes
/// nothing.
pub proof fn a_default_is_lowered_once(st: LowererV, cx: &LowerCx, def: DefId, i: u64, fuel: u64)
    requires
        fuel > 0,
    ensures
        ({
            let (after, e) = crate::lower::param_default_spec(st, cx, def, i, fuel);
            crate::lower::param_default_spec(after, cx, def, i, fuel) == (after, e)
        }),
{
}

// Closures.

/// A closure becomes the struct of what it captured, and a function of its own
/// that takes the struct first.
pub proof fn a_closure_becomes_a_struct_and_a_function(st: LowererV, cx: &LowerCx, node: NodeId, ty: Ty, fuel: u64)
    requires
        fuel > 0,
        match crate::def::kind_of_spec(cx.tables, st.file, node) {
            Some(NodeKind::Closure { .. }) => true,
            _ => false,
        },
        crate::facts::fact_closure_defs_spec(cx.facts, st.file, node) is Some,
        crate::facts::fact_closure_sig_spec(cx.facts, st.file, node) is Some,
    ensures
        ({
            let defs = *crate::facts::fact_closure_defs_spec(cx.facts, st.file, node)->0;
            let (after, e) = crate::lower::lower_closure_spec(st, cx, node, ty, fuel);
            &&& match e.kind {
                ExprKind::Construct { def, fields: _ } => def == Some(defs.ty),
                _ => false,
            }
            &&& after.lifted@.len() > 0
            &&& after.lifted@.last().def == defs.call
            &&& match after.lifted@.last().params {
                List::Cons(first, _) => first.def == defs.this,
                List::Nil => false,
            }
        }),
{
    let defs = *crate::facts::fact_closure_defs_spec(cx.facts, st.file, node)->0;
    let after = crate::lower::lower_closure_spec(st, cx, node, ty, fuel).0;
    assert(exists|before: List<crate::ir::Function>, f: crate::ir::Function|
        after.lifted == crate::list::append_spec(before, crate::list::single_spec(f)) && f.def == defs.call && (
        match f.params {
            List::Cons(first, _) => first.def == defs.this,
            List::Nil => false,
        }));
    let (before, f) = choose|before: List<crate::ir::Function>, f: crate::ir::Function|
        after.lifted == crate::list::append_spec(before, crate::list::single_spec(f)) && f.def == defs.call && (
        match f.params {
            List::Cons(first, _) => first.def == defs.this,
            List::Nil => false,
        });
    crate::laws::generics::appending_keeps_both(before, crate::list::single_spec(f));
    reveal_with_fuel(crate::list::list_seq, 2);
    assert(crate::list::single_spec(f)@ =~= seq![f]);
    assert(after.lifted@.last() == f);
}

} // verus!
