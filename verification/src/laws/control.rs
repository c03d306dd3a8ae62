//! Laws of lowering blocks, statements and control flow: each part of what is
//! written comes out in its place.

use vstd::prelude::*;

use crate::ast::{NodeKind, UnOp};
use crate::ids::NodeId;
use crate::ir::{Arm, Block, Expr, ExprKind, PatternKind, Stmt, StmtKind};
use crate::list::List;
use crate::lower::{
    expr_spec, lower_block_spec, lower_expr_inner_spec, lower_expr_spec, lower_pattern_spec, lower_stmt_spec,
    ty_of_spec, LowerCx, LowererV,
};
use crate::ty::Ty;

verus! {

/// The shape of a node of the file being lowered.
pub open spec fn shape(st: LowererV, cx: &LowerCx, node: NodeId) -> Option<NodeKind> {
    match crate::def::kind_of_spec(cx.tables, st.file, node) {
        Some(k) => Some(*k),
        None => None,
    }
}

// Lists, each element lowered where the ones before it left off.

/// Where lowering the first `k` of some expressions leaves off.
pub open spec fn after_exprs(st: LowererV, cx: &LowerCx, l: Seq<NodeId>, k: int, fuel: u64) -> LowererV
    decreases k,
{
    if k <= 0 {
        st
    } else {
        lower_expr_spec(after_exprs(st, cx, l, k - 1, fuel), cx, l[k - 1], fuel).0
    }
}

proof fn going_on_after_one(st: LowererV, cx: &LowerCx, l: Seq<NodeId>, k: int, fuel: u64)
    requires
        0 <= k < l.len(),
    ensures
        after_exprs(lower_expr_spec(st, cx, l[0], fuel).0, cx, l.subrange(1, l.len() as int), k, fuel)
            == after_exprs(st, cx, l, k + 1, fuel),
    decreases k,
{
    if k > 0 {
        going_on_after_one(st, cx, l, k - 1, fuel);
    } else {
        assert(after_exprs(st, cx, l, 0, fuel) == st);
    }
}

/// Expressions lower one by one, in order, none left out.
pub proof fn expressions_lower_in_order(st: LowererV, cx: &LowerCx, l: List<NodeId>, fuel: u64)
    requires
        fuel > 0,
    ensures
        ({
            let (after, out) = crate::lower::lower_exprs_spec(st, cx, &l, fuel);
            let less = (fuel - 1) as u64;
            &&& out@.len() == l@.len()
            &&& after == after_exprs(st, cx, l@, l@.len() as int, less)
            &&& forall|i: int|
                0 <= i < out@.len() ==> #[trigger] out@[i] == lower_expr_spec(
                    after_exprs(st, cx, l@, i, less),
                    cx,
                    l@[i],
                    less,
                ).1
        }),
    decreases l,
{
    let less = (fuel - 1) as u64;
    match l {
        List::Nil => {},
        List::Cons(h, t) => {
            let (mid, first) = lower_expr_spec(st, cx, h, less);
            expressions_lower_in_order(mid, cx, *t, fuel);
            let rest = crate::lower::lower_exprs_spec(mid, cx, &*t, fuel).1;
            let out = crate::lower::lower_exprs_spec(st, cx, &l, fuel).1;
            assert(l@ =~= seq![h] + t@);
            assert(out@ =~= seq![first] + rest@);
            assert(l@.subrange(1, l@.len() as int) =~= t@);
            assert forall|i: int| 0 <= i < out@.len() implies #[trigger] out@[i] == lower_expr_spec(
                after_exprs(st, cx, l@, i, less),
                cx,
                l@[i],
                less,
            ).1 by {
                if i > 0 {
                    assert(out@[i] == rest@[i - 1]);
                    going_on_after_one(st, cx, l@, i - 1, less);
                } else {
                    assert(after_exprs(st, cx, l@, 0, less) == st);
                }
            }
            assert(after_exprs(st, cx, l@, 1, less) == mid) by {
                assert(after_exprs(st, cx, l@, 0, less) == st);
            }
            if t@.len() > 0 {
                let k = t@.len() as int;
                going_on_after_one(st, cx, l@, k - 1, less);
                assert(after_exprs(mid, cx, t@, k, less) == lower_expr_spec(
                    after_exprs(mid, cx, t@, k - 1, less),
                    cx,
                    t@[k - 1],
                    less,
                ).0);
                assert(l@[k] == t@[k - 1]);
            }
        },
    }
}

// Blocks.

/// A block lowers to its statements and its tail, its tail behind its statements,
/// and has the type of its tail; with no tail it yields nothing. Anything else where
/// a block stands is a tail alone.
pub proof fn a_block_keeps_its_statements_and_its_tail(st: LowererV, cx: &LowerCx, node: NodeId, fuel: u64)
    requires
        fuel > 0,
    ensures
        ({
            let (after, b) = lower_block_spec(st, cx, node, fuel);
            let less = (fuel - 1) as u64;
            match shape(st, cx, node) {
                Some(NodeKind::Block { stmts, tail }) => {
                    let (mid, steps) = crate::lower::lower_stmts_spec(st, cx, &stmts, less);
                    &&& *b.stmts == steps
                    &&& match tail {
                        Some(t) => {
                            &&& b.tail == Some(Box::new(lower_expr_spec(mid, cx, t, less).1))
                            &&& crate::lower::ty_or_error_spec(after, b.id) == ty_of_spec(
                                lower_expr_spec(mid, cx, t, less).0,
                                &lower_expr_spec(mid, cx, t, less).1,
                            )
                        },
                        None => b.tail is None && crate::lower::ty_or_error_spec(after, b.id) == Ty::Void,
                    }
                },
                _ => {
                    &&& *b.stmts == List::<Stmt>::Nil
                    &&& b.tail == Some(Box::new(lower_expr_spec(st, cx, node, less).1))
                },
            }
        }),
{
}

/// A step of a block goes in front of those behind it; a local item is no step.
pub proof fn steps_lower_in_order(st: LowererV, cx: &LowerCx, first: NodeId, rest: List<NodeId>, fuel: u64)
    requires
        fuel > 0,
    ensures
        ({
            let (mid, s) = lower_stmt_spec(st, cx, first, (fuel - 1) as u64);
            let all = crate::lower::lower_stmts_spec(st, cx, &List::Cons(first, Box::new(rest)), fuel);
            let others = crate::lower::lower_stmts_spec(mid, cx, &rest, fuel);
            &&& all.0 == others.0
            &&& all.1@ == match s {
                Some(s) => seq![s] + others.1@,
                None => others.1@,
            }
            &&& crate::lower::lower_stmts_spec(st, cx, &List::Nil, fuel).1@ == Seq::<Stmt>::empty()
        }),
{
}

/// A local declaration, an assignment, a jump, a `defer` and an expression are steps
/// of the block they stand in, and a constant bound to a value is one too.
pub proof fn only_items_are_left_out(st: LowererV, cx: &LowerCx, node: NodeId)
    ensures
        match shape(st, cx, node) {
            Some(NodeKind::ConstBind { pattern: _, rhs }) => match shape(st, cx, rhs) {
                Some(NodeKind::FuncExpr { .. }) => true,
                Some(NodeKind::StructType { .. }) => true,
                Some(NodeKind::EnumType { .. }) => true,
                Some(NodeKind::TraitType { .. }) => true,
                Some(NodeKind::DistinctType { .. }) => true,
                Some(NodeKind::NamespaceExpr { .. }) => true,
                Some(NodeKind::Overload { .. }) => true,
                Some(NodeKind::Import) => true,
                _ => !crate::lower::is_local_item_spec(cx.tables, st.file, node),
            },
            Some(NodeKind::Decl { .. }) => true,
            Some(NodeKind::ImplBlock { .. }) => true,
            Some(NodeKind::Import) => true,
            _ => !crate::lower::is_local_item_spec(cx.tables, st.file, node),
        },
{
}

// Statements.

/// Every statement that is no local item becomes one of its own kind, with its parts
/// lowered in the order they are written.
pub proof fn a_statement_keeps_its_kind_and_its_parts(st: LowererV, cx: &LowerCx, node: NodeId, fuel: u64)
    requires
        fuel > 1,
        !crate::lower::is_local_item_spec(cx.tables, st.file, node),
    ensures
        ({
            let less = (fuel - 1) as u64;
            match lower_stmt_spec(st, cx, node, fuel).1 {
                Some(s) => match shape(st, cx, node) {
                    Some(NodeKind::LocalDecl { pattern, ty: _, value }) => binds(st, cx, s, pattern, value, (less - 1) as u64),
                    Some(NodeKind::ConstBind { pattern, rhs }) => binds(st, cx, s, pattern, rhs, (less - 1) as u64),
                    Some(NodeKind::Assign { place, value }) => {
                        let (mid, p) = lower_expr_spec(st, cx, place, less);
                        s.kind == StmtKind::Assign { place: p, value: lower_expr_spec(mid, cx, value, less).1 }
                    },
                    Some(NodeKind::Return { value: Some(v) }) => s.kind == StmtKind::Return(
                        Some(lower_expr_spec(st, cx, v, (less - 1) as u64).1),
                    ),
                    Some(NodeKind::Return { value: None }) => s.kind == StmtKind::Return(None),
                    Some(NodeKind::Break { value: Some(v) }) => s.kind == StmtKind::Break(
                        Some(lower_expr_spec(st, cx, v, (less - 1) as u64).1),
                    ),
                    Some(NodeKind::Break { value: None }) => s.kind == StmtKind::Break(None),
                    Some(NodeKind::Continue) => s.kind == StmtKind::Continue,
                    Some(NodeKind::Defer { body }) => s.kind == StmtKind::Defer(
                        lower_expr_spec(st, cx, body, less).1,
                    ),
                    _ => s.kind == StmtKind::Expr(lower_expr_spec(st, cx, node, less).1),
                },
                None => false,
            }
        }),
{
}

/// Whether a statement binds a pattern to a value, the value worked out first.
pub open spec fn binds(st: LowererV, cx: &LowerCx, s: Stmt, pattern: NodeId, value: NodeId, fuel: u64) -> bool {
    let (mid, init) = lower_expr_spec(st, cx, value, fuel);
    s.kind == StmtKind::Let { pattern: lower_pattern_spec(mid, cx, pattern, fuel).1, init: init }
}

// Branches.

/// An `if` keeps its condition, its branch and its other branch each in its place,
/// and has no other branch where none is written.
pub proof fn an_if_keeps_its_branches(
    st: LowererV,
    cx: &LowerCx,
    node: NodeId,
    cond: NodeId,
    then: NodeId,
    els: Option<NodeId>,
    fuel: u64,
)
    requires
        fuel > 2,
        shape(st, cx, node) == Some(NodeKind::If { cond, then, els }),
    ensures
        ({
            let less = (fuel - 1) as u64;
            let (one, c) = lower_expr_spec(st, cx, cond, less);
            let (two, t) = lower_block_spec(one, cx, then, less);
            match lower_expr_inner_spec(st, cx, node, fuel).1.kind {
                ExprKind::If { cond: c1, then: t1, els: e1 } => {
                    &&& *c1 == c
                    &&& *t1 == t
                    &&& match els {
                        Some(e) => e1 == Some(Box::new(lower_block_spec(two, cx, e, (less - 1) as u64).1)),
                        None => e1 is None,
                    }
                },
                _ => false,
            }
        }),
{
}

/// A `loop` keeps its body, and a read through a pointer and a group keep theirs.
pub proof fn a_loop_keeps_its_body(st: LowererV, cx: &LowerCx, node: NodeId, fuel: u64)
    requires
        fuel > 0,
    ensures
        ({
            let less = (fuel - 1) as u64;
            let e = lower_expr_inner_spec(st, cx, node, fuel).1;
            match shape(st, cx, node) {
                Some(NodeKind::Loop { body }) => e.kind == ExprKind::Loop {
                    body: Box::new(lower_block_spec(st, cx, body, less).1),
                },
                Some(NodeKind::Deref { base }) => e.kind == ExprKind::Deref {
                    base: Box::new(lower_expr_spec(st, cx, base, less).1),
                },
                Some(NodeKind::Block { .. }) => e.kind == ExprKind::Block(
                    Box::new(lower_block_spec(st, cx, node, less).1),
                ),
                Some(NodeKind::Lit(lit)) => e.kind == ExprKind::Lit(lit),
                Some(NodeKind::Arg { name: _, value }) => e == lower_expr_spec(st, cx, value, less).1,
                Some(NodeKind::GenericApply { base, args: _ }) => e == lower_expr_spec(st, cx, base, less).1,
                _ => true,
            }
        }),
{
}

/// What a loop body's statements are once its tail is one of them.
pub open spec fn with_tail(b: Block, stmts: List<Stmt>) -> bool {
    match b.tail {
        Some(tail) => stmts@.len() == b.stmts@.len() + 1 && stmts@.subrange(0, b.stmts@.len() as int) == b.stmts@
            && stmts@.last().kind == StmtKind::Expr(*tail),
        None => stmts == *b.stmts,
    }
}

/// A `while` is a loop that leaves where its own condition fails, and otherwise runs
/// its own body, every step of it.
pub proof fn a_while_tests_and_then_runs_its_body(
    st: LowererV,
    cx: &LowerCx,
    node: NodeId,
    cond: NodeId,
    body: NodeId,
    ty: Ty,
    fuel: u64,
)
    requires
        fuel > 0,
    ensures
        ({
            let less = (fuel - 1) as u64;
            let c = lower_expr_spec(st, cx, cond, less).1;
            match crate::lower::lower_while_spec(st, cx, node, cond, body, ty, fuel).1.kind {
                ExprKind::Loop { body: b } => match *b.stmts {
                    List::Cons(guard, rest) => {
                        &&& leaves_unless(guard, c)
                        &&& b.tail is None
                        &&& exists|mid: LowererV|
                            with_tail((#[trigger] lower_block_spec(mid, cx, body, less)).1, *rest)
                    },
                    List::Nil => false,
                },
                _ => false,
            }
        }),
{
    let less = (fuel - 1) as u64;
    let (s1, c) = lower_expr_spec(st, cx, cond, less);
    let (s2, n) = expr_spec(s1, cx, cond, Ty::Bool, ExprKind::Unary { op: UnOp::Not, operand: Box::new(c) });
    let (s3, break_id) = crate::lower::id_spec(s2, cx, cond);
    let s4 = crate::lower::set_ty_spec(s3, break_id, Ty::Void);
    let (s5, brk) = crate::lower::stmt_spec(s4, cx, cond, StmtKind::Break(None));
    let block = Block { id: break_id, stmts: Box::new(crate::list::single_spec(brk)), tail: None };
    let (s6, g) = expr_spec(
        s5,
        cx,
        cond,
        Ty::Void,
        ExprKind::If { cond: Box::new(n), then: Box::new(block), els: None },
    );
    let (s7, guard) = crate::lower::stmt_spec(s6, cx, cond, StmtKind::Expr(g));
    let b = lower_block_spec(s7, cx, body, less).1;
    match crate::lower::lower_while_spec(st, cx, node, cond, body, ty, fuel).1.kind {
        ExprKind::Loop { body: out } => match *out.stmts {
            List::Cons(first, rest) => {
                assert(first == guard);
                match b.tail {
                    Some(tail) => {
                        let s8 = lower_block_spec(s7, cx, body, less).0;
                        let id = crate::lower::derived_spec(s8, tail.id).1;
                        let last = Stmt { id: id, kind: StmtKind::Expr(*tail) };
                        assert(*rest == crate::list::append_spec(*b.stmts, crate::list::single_spec(last)));
                        crate::laws::generics::appending_keeps_both(*b.stmts, crate::list::single_spec(last));
                        reveal_with_fuel(crate::list::list_seq, 2);
                        assert(crate::list::single_spec(last)@ =~= seq![last]);
                        assert(rest@.subrange(0, b.stmts@.len() as int) =~= b.stmts@);
                    },
                    None => {},
                }
                assert(with_tail(b, *rest));
            },
            List::Nil => {},
        },
        _ => {},
    }
}

/// Whether a statement leaves the loop it is in where a condition fails.
pub open spec fn leaves_unless(s: Stmt, c: Expr) -> bool {
    match s.kind {
        StmtKind::Expr(e) => match e.kind {
            ExprKind::If { cond, then, els } => {
                &&& cond.kind == ExprKind::Unary { op: UnOp::Not, operand: Box::new(c) }
                &&& then.tail is None
                &&& match *then.stmts {
                    List::Cons(b, rest) => b.kind == StmtKind::Break(None) && *rest == List::<Stmt>::Nil,
                    List::Nil => false,
                }
                &&& els is None
            },
            _ => false,
        },
        _ => false,
    }
}

/// `if match p := v { then } else { els }` tests its own value: where its pattern
/// fits its branch runs, and otherwise its other branch, or nothing.
pub proof fn an_if_match_keeps_its_parts(
    st: LowererV,
    cx: &LowerCx,
    node: NodeId,
    pattern: NodeId,
    value: NodeId,
    then: NodeId,
    els: Option<NodeId>,
    ty: Ty,
    fuel: u64,
)
    requires
        fuel > 0,
    ensures
        ({
            let less = (fuel - 1) as u64;
            let (one, v) = lower_expr_spec(st, cx, value, less);
            let (two, t) = lower_block_spec(one, cx, then, less);
            let p = lower_pattern_spec(two, cx, pattern, less).1;
            match crate::lower::lower_if_match_spec(st, cx, node, pattern, value, then, els, ty, fuel).1.kind {
                ExprKind::Match { scrutinee, arms } => {
                    &&& *scrutinee == v
                    &&& match *arms {
                        List::Cons(hit, more) => {
                            &&& hit.pattern == p
                            &&& hit.guard is None
                            &&& hit.body.kind == ExprKind::Block(Box::new(t))
                            &&& match *more {
                                List::Cons(miss, end) => {
                                    &&& miss.pattern.kind == PatternKind::Wildcard
                                    &&& miss.guard is None
                                    &&& *end == List::<Arm>::Nil
                                    &&& match els {
                                        Some(e) => exists|mid: LowererV|
                                            miss.body.kind == ExprKind::Block(
                                                Box::new((#[trigger] lower_block_spec(mid, cx, e, less)).1),
                                            ),
                                        None => miss.body.kind == ExprKind::Tuple {
                                            elems: Box::new(List::Nil),
                                        },
                                    }
                                },
                                List::Nil => false,
                            }
                        },
                        List::Nil => false,
                    }
                },
                _ => false,
            }
        }),
{
    let less = (fuel - 1) as u64;
    let (one, v) = lower_expr_spec(st, cx, value, less);
    let (two, t) = lower_block_spec(one, cx, then, less);
    let (three, p) = lower_pattern_spec(two, cx, pattern, less);
    let then_ty = crate::lower::ty_or_error_spec(two, t.id);
    let (four, body) = expr_spec(three, cx, then, then_ty, ExprKind::Block(Box::new(t)));
    let (five, then_id) = crate::lower::id_spec(four, cx, then);
    match els {
        Some(e) => {
            let b = lower_block_spec(five, cx, e, less);
        },
        None => {},
    }
}

/// A match tests its own value against its own arms.
pub proof fn a_match_keeps_its_arms(
    st: LowererV,
    cx: &LowerCx,
    node: NodeId,
    scrutinee: NodeId,
    arms: List<NodeId>,
    fuel: u64,
)
    requires
        fuel > 0,
        shape(st, cx, node) == Some(NodeKind::MatchExpr { scrutinee, arms }),
    ensures
        ({
            let less = (fuel - 1) as u64;
            let (mid, s) = lower_expr_spec(st, cx, scrutinee, less);
            lower_expr_inner_spec(st, cx, node, fuel).1.kind == ExprKind::Match {
                scrutinee: Box::new(s),
                arms: Box::new(crate::lower::lower_match_arms_spec(mid, cx, &arms, less).1),
            }
        }),
{
}

/// Arms are tried in the order they are written.
pub proof fn arms_lower_in_order(st: LowererV, cx: &LowerCx, first: NodeId, rest: List<NodeId>, fuel: u64)
    requires
        fuel > 0,
    ensures
        ({
            let (mid, a) = crate::lower::lower_match_arm_spec(st, cx, first, (fuel - 1) as u64);
            let all = crate::lower::lower_match_arms_spec(st, cx, &List::Cons(first, Box::new(rest)), fuel);
            let others = crate::lower::lower_match_arms_spec(mid, cx, &rest, fuel);
            &&& all.0 == others.0
            &&& all.1@ == match a {
                Some(a) => seq![a] + others.1@,
                None => others.1@,
            }
            &&& crate::lower::lower_match_arms_spec(st, cx, &List::Nil, fuel).1@ == Seq::<Arm>::empty()
        }),
{
}

/// An arm keeps its pattern, its guard and its body, worked out in that order.
pub proof fn an_arm_keeps_its_parts(
    st: LowererV,
    cx: &LowerCx,
    node: NodeId,
    pattern: NodeId,
    guard: Option<NodeId>,
    body: NodeId,
    fuel: u64,
)
    requires
        fuel > 1,
        shape(st, cx, node) == Some(NodeKind::MatchArm { pattern, guard, body }),
    ensures
        ({
            let less = (fuel - 1) as u64;
            let begun = crate::lower::id_spec(st, cx, node).0;
            let (one, p) = lower_pattern_spec(begun, cx, pattern, less);
            match crate::lower::lower_match_arm_spec(st, cx, node, fuel).1 {
                Some(arm) => {
                    &&& arm.pattern == p
                    &&& match guard {
                        Some(g) => {
                            let (two, t) = lower_expr_spec(one, cx, g, (less - 1) as u64);
                            arm.guard == Some(t) && arm.body == lower_expr_spec(two, cx, body, less).1
                        },
                        None => arm.guard is None && arm.body == lower_expr_spec(one, cx, body, less).1,
                    }
                },
                None => false,
            }
        }),
{
}

} // verus!
