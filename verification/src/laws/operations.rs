//! Laws of lowering operations, calls, literals, names and patterns.

use vstd::prelude::*;

use crate::ast::{BinOp, CompositeBody, Lit, NodeKind, RangeKind, UnOp, VariantArgs, VariantPatArgs};
use crate::def::DefKind;
use crate::facts::{MethodDispatch, MethodRes, OpResolution, RecvAdjust};
use crate::ids::{DefId, NodeId};
use crate::ir::{Arm, Dispatch, Expr, ExprKind, Pattern, PatternKind};
use crate::laws::control::shape;
use crate::list::List;
use crate::lower::{lower_expr_inner_spec, lower_expr_spec, lower_pattern_spec, ty_of_spec, LowerCx, LowererV};
use crate::symbol::Symbol;
use crate::ty::Ty;

verus! {

// Operators.

/// An operator that dispatches on nothing keeps its operator and its operands, the
/// left one worked out first.
pub proof fn a_binary_keeps_its_operands(
    st: LowererV,
    cx: &LowerCx,
    node: NodeId,
    op: BinOp,
    lhs: NodeId,
    rhs: NodeId,
    fuel: u64,
)
    requires
        fuel > 0,
        shape(st, cx, node) == Some(NodeKind::Binary { op, lhs, rhs }),
        crate::facts::fact_op_resolution_spec(cx.facts, st.file, node) is None,
    ensures
        ({
            let less = (fuel - 1) as u64;
            let (mid, l) = lower_expr_spec(st, cx, lhs, less);
            let r = lower_expr_spec(mid, cx, rhs, less).1;
            lower_expr_inner_spec(st, cx, node, fuel).1.kind == ExprKind::Binary {
                op: op,
                lhs: Box::new(l),
                rhs: Box::new(r),
            }
        }),
{
}

/// Whether an expression calls a definition with some arguments, reaching it
/// directly.
pub open spec fn calls(e: Expr, def: DefId, args: Seq<Expr>, builtin: Option<crate::facts::BuiltinOp>) -> bool {
    match e.kind {
        ExprKind::Call { callee, args: given, builtin: b, dispatch } => {
            &&& callee.kind == ExprKind::Global(def)
            &&& given@ == args
            &&& b == builtin
            &&& dispatch == Dispatch::Static
        },
        _ => false,
    }
}

/// An operator that resolved to a method is a call of that method with its operands
/// in order.
pub proof fn an_operator_calls_its_method(
    st: LowererV,
    cx: &LowerCx,
    node: NodeId,
    op: BinOp,
    lhs: NodeId,
    rhs: NodeId,
    fuel: u64,
)
    requires
        fuel > 0,
        shape(st, cx, node) == Some(NodeKind::Binary { op, lhs, rhs }),
        crate::facts::fact_op_resolution_spec(cx.facts, st.file, node) is Some,
        op != BinOp::Eq && op != BinOp::Ne && op != BinOp::Lt && op != BinOp::Le && op != BinOp::Gt && op != BinOp::Ge,
        crate::def::intrinsic_of_spec(
            cx.tables,
            crate::facts::fact_op_resolution_spec(cx.facts, st.file, node)->0.method,
        ) is None,
    ensures
        ({
            let less = (fuel - 1) as u64;
            let res = *crate::facts::fact_op_resolution_spec(cx.facts, st.file, node)->0;
            let (mid, l) = lower_expr_spec(st, cx, lhs, less);
            let r = lower_expr_spec(mid, cx, rhs, less).1;
            let (after, e) = lower_expr_inner_spec(st, cx, node, fuel);
            &&& calls(e, res.method, seq![l, r], res.builtin)
            &&& ty_of_spec(after, &e) == crate::lower::ty_spec(st, cx, node)
        }),
{
    reveal_with_fuel(crate::list::list_seq, 3);
    let less = (fuel - 1) as u64;
    let (mid, l) = lower_expr_spec(st, cx, lhs, less);
    let r = lower_expr_spec(mid, cx, rhs, less).1;
    assert(crate::list::list2_spec(l, r)@ =~= seq![l, r]);
}

/// Taking an address keeps the place and whether it may be written through; a
/// negated literal is one literal; any other prefix operator keeps its operand.
pub proof fn a_prefix_operator_keeps_its_operand(
    st: LowererV,
    cx: &LowerCx,
    node: NodeId,
    op: UnOp,
    operand: NodeId,
    ty: Ty,
    fuel: u64,
)
    requires
        fuel > 1,
        crate::facts::fact_op_resolution_spec(cx.facts, st.file, node) is None,
    ensures
        ({
            let (after, e) = crate::lower::lower_unary_spec(st, cx, node, op, operand, ty, fuel);
            let less = (fuel - 1) as u64;
            &&& ty_of_spec(after, &e) == ty
            &&& match op {
                UnOp::Ref => e.kind == ExprKind::Ref {
                    mutable: false,
                    place: Box::new(lower_expr_spec(st, cx, operand, less).1),
                },
                UnOp::RefMut => e.kind == ExprKind::Ref {
                    mutable: true,
                    place: Box::new(lower_expr_spec(st, cx, operand, less).1),
                },
                UnOp::Neg => match (shape(st, cx, operand), ty) {
                    (Some(NodeKind::Lit(Lit::Int(n))), Ty::Int { .. }) => match e.kind {
                        ExprKind::Lit(Lit::Int(m)) => m.value() == -n.value(),
                        _ => false,
                    },
                    (Some(NodeKind::Lit(_)), Ty::Int { .. }) => true,
                    (Some(NodeKind::Lit(_)), Ty::Float(_)) => true,
                    _ => e.kind == ExprKind::Unary {
                        op: op,
                        operand: Box::new(lower_expr_spec(st, cx, operand, (less - 1) as u64).1),
                    },
                },
                _ => e.kind == ExprKind::Unary {
                    op: op,
                    operand: Box::new(lower_expr_spec(st, cx, operand, (less - 1) as u64).1),
                },
            }
        }),
{
    match shape(st, cx, operand) {
        Some(NodeKind::Lit(Lit::Int(n))) => {
            assert(crate::bigint::int_neg_spec(&n).value() == -n.value()) by {
                reveal_with_fuel(crate::list::list_seq, 2);
            }
        },
        _ => {},
    }
}

/// Whether an arm answers a truth where an ordering is the one named.
pub open spec fn answers(a: Arm, pattern: PatternKind, truth: bool) -> bool {
    &&& a.pattern.kind == pattern
    &&& a.guard is None
    &&& a.body.kind == ExprKind::Lit(Lit::Bool(truth))
}

/// The pattern of an ordering.
pub open spec fn ordering(name: &str) -> PatternKind {
    PatternKind::Variant { name: crate::symbol::sym_spec(name), sub: Box::new(List::Nil) }
}

/// A comparison of a user type asks its method about its operands in order. Equality
/// is the answer, and inequality its negation. A relation is true of exactly the
/// orderings it means: `<` of less, `>` of greater, `<=` of all but greater, `>=` of
/// all but less.
pub proof fn a_comparison_asks_its_method(
    st: LowererV,
    cx: &LowerCx,
    node: NodeId,
    res: OpResolution,
    op: BinOp,
    lhs: NodeId,
    rhs: NodeId,
    fuel: u64,
)
    requires
        fuel > 0,
        crate::def::intrinsic_of_spec(cx.tables, res.method) is None,
        op == BinOp::Eq || op == BinOp::Ne || op == BinOp::Lt || op == BinOp::Le || op == BinOp::Gt || op == BinOp::Ge,
    ensures
        ({
            let less = (fuel - 1) as u64;
            let (mid, l) = lower_expr_spec(st, cx, lhs, less);
            let r = lower_expr_spec(mid, cx, rhs, less).1;
            let e = crate::lower::lower_comparison_spec(st, cx, node, res, op, lhs, rhs, fuel).1;
            match op {
                BinOp::Eq => calls(e, res.method, seq![l, r], res.builtin),
                BinOp::Ne => match e.kind {
                    ExprKind::Unary { op: o, operand } => o == UnOp::Not && calls(
                        *operand,
                        res.method,
                        seq![l, r],
                        res.builtin,
                    ),
                    _ => false,
                },
                _ => match e.kind {
                    ExprKind::Match { scrutinee, arms } => {
                        &&& calls(*scrutinee, res.method, seq![l, r], res.builtin)
                        &&& match *arms {
                            List::Cons(a, more) => match *more {
                                List::Cons(b, end) => {
                                    &&& *end == List::<Arm>::Nil
                                    &&& match op {
                                        BinOp::Lt => answers(a, ordering("less"), true) && answers(
                                            b,
                                            PatternKind::Wildcard,
                                            false,
                                        ),
                                        BinOp::Ge => answers(a, ordering("less"), false) && answers(
                                            b,
                                            PatternKind::Wildcard,
                                            true,
                                        ),
                                        BinOp::Gt => answers(a, ordering("greater"), true) && answers(
                                            b,
                                            PatternKind::Wildcard,
                                            false,
                                        ),
                                        _ => answers(a, ordering("greater"), false) && answers(
                                            b,
                                            PatternKind::Wildcard,
                                            true,
                                        ),
                                    }
                                },
                                List::Nil => false,
                            },
                            List::Nil => false,
                        }
                    },
                    _ => false,
                },
            }
        }),
{
    reveal_with_fuel(crate::list::list_seq, 3);
    let less = (fuel - 1) as u64;
    let (mid, l) = lower_expr_spec(st, cx, lhs, less);
    let r = lower_expr_spec(mid, cx, rhs, less).1;
    assert(crate::list::list2_spec(l, r)@ =~= seq![l, r]);
}

// Calls.

/// The dispatch a call has where a method was resolved.
pub open spec fn reached(res: MethodRes, dispatch: Dispatch) -> bool {
    match res.dispatch {
        MethodDispatch::Static => dispatch == Dispatch::Static,
        MethodDispatch::Virtual(t) => dispatch == Dispatch::Virtual { trait_def: t, method: res.method },
        MethodDispatch::Generic { trait_def, args } => dispatch == Dispatch::Generic {
            trait_def: trait_def,
            method: res.method,
            self_ty: res.self_ty,
            trait_args: args,
        },
    }
}

/// Whether an expression is a receiver with what the method asks of it written out.
pub open spec fn receives(first: Expr, adjust: RecvAdjust, recv: Expr) -> bool {
    match adjust {
        RecvAdjust::Keep => first == recv,
        RecvAdjust::Ref { mutable } => first.kind == ExprKind::Ref { mutable: mutable, place: Box::new(recv) },
        RecvAdjust::Deref => first.kind == ExprKind::Deref { base: Box::new(recv) },
    }
}

/// A method call keeps how it is reached: a known function directly, a trait object
/// through the slot of its trait, and a bound through the trait, with the type and
/// the arguments it was resolved at. What it calls is the method that was found, and
/// the receiver comes first.
pub proof fn a_method_call_is_reached_as_it_was_resolved(
    st: LowererV,
    cx: &LowerCx,
    node: NodeId,
    callee: NodeId,
    base: NodeId,
    name: Symbol,
    res: MethodRes,
    args: List<NodeId>,
    ty: Ty,
    fuel: u64,
)
    requires
        fuel > 0,
        crate::def::intrinsic_of_spec(cx.tables, res.method) is None,
        shape(st, cx, callee) == Some(NodeKind::FieldAccess { base, name }),
        crate::facts::fact_distinct_recv_spec(cx.facts, st.file, base) is None,
    ensures
        ({
            let less = (fuel - 1) as u64;
            let (mid, recv) = lower_expr_spec(st, cx, base, less);
            match crate::lower::lower_method_call_spec(st, cx, node, callee, &res, &args, ty, fuel).1.kind {
                ExprKind::Call { callee: target, args: given, builtin, dispatch } => {
                    &&& target.kind == ExprKind::Global(res.method)
                    &&& builtin is None
                    &&& reached(res, dispatch)
                    &&& match *given {
                        List::Cons(first, others) => {
                            &&& receives(first, res.adjust, recv)
                            &&& *others == crate::lower::lower_args_spec(
                                crate::lower::adjust_recv_spec(mid, recv, res.adjust, &res.self_ty).0,
                                cx,
                                Some(res.method),
                                &crate::lower::call_slots_spec(st, cx, callee, &args),
                                0,
                                node,
                                less,
                            ).1
                        },
                        List::Nil => false,
                    }
                },
                _ => false,
            }
        }),
{
    let less = (fuel - 1) as u64;
    let (mid, recv) = lower_expr_spec(st, cx, base, less);
    let (next, first) = crate::lower::adjust_recv_spec(mid, recv, res.adjust, &res.self_ty);
    assert(receives(first, res.adjust, recv));
    assert(reached(res, crate::lower::method_dispatch_spec(&res)));
}

/// What fills one slot of a call: a written argument is itself, and one left out is
/// the place of the call where that is its default, the default of its position, or
/// an error where there is none.
pub open spec fn fills(
    st: LowererV,
    cx: &LowerCx,
    callee: Option<DefId>,
    slot: Option<NodeId>,
    i: u64,
    at: NodeId,
    fuel: u64,
    e: Expr,
) -> bool {
    match (slot, callee) {
        (Some(a), _) => e == lower_expr_spec(st, cx, a, fuel).1,
        (None, None) => e.kind == ExprKind::Error,
        (None, Some(c)) => if crate::lower::default_is_caller_location_spec(cx.tables, callee, i) {
            e == crate::lower::caller_location_spec(st, cx, at).1
        } else {
            match crate::lower::param_default_spec(st, cx, c, i, fuel).1 {
                Some(d) => e == d,
                None => e.kind == ExprKind::Error,
            }
        },
    }
}

proof fn a_slot_is_filled_first(
    st: LowererV,
    cx: &LowerCx,
    callee: Option<DefId>,
    slot: Option<NodeId>,
    rest: List<Option<NodeId>>,
    i: u64,
    at: NodeId,
    fuel: u64,
) -> (r: (LowererV, Expr))
    requires
        fuel > 0,
    ensures
        crate::lower::lower_args_spec(st, cx, callee, &List::Cons(slot, Box::new(rest)), i, at, fuel).1 == List::Cons(
            r.1,
            Box::new(crate::lower::lower_args_spec(r.0, cx, callee, &rest, crate::list::succ_spec(i), at, fuel).1),
        ),
        fills(st, cx, callee, slot, i, at, (fuel - 1) as u64, r.1),
{
    let less = (fuel - 1) as u64;
    match slot {
        Some(a) => lower_expr_spec(st, cx, a, less),
        None => if crate::lower::default_is_caller_location_spec(cx.tables, callee, i) {
            crate::lower::caller_location_spec(st, cx, at)
        } else {
            let (next, d) = match callee {
                Some(c) => crate::lower::param_default_spec(st, cx, c, i, less),
                None => (st, None),
            };
            match d {
                Some(e) => (crate::lower::note_default_spec(next, e.id), e),
                None => crate::lower::missing_arg_spec(next),
            }
        },
    }
}

/// The arguments of a call are its slots in order, one for one.
pub proof fn arguments_fill_their_slots(
    st: LowererV,
    cx: &LowerCx,
    callee: Option<DefId>,
    slots: List<Option<NodeId>>,
    i: u64,
    at: NodeId,
    fuel: u64,
)
    requires
        fuel > 0,
    ensures
        ({
            let all = crate::lower::lower_args_spec(st, cx, callee, &slots, i, at, fuel).1;
            &&& all@.len() == slots@.len()
            &&& i + slots@.len() < u64::MAX ==> forall|k: int|
                0 <= k < slots@.len() ==> filled(cx, callee, slots@[k], (i + k) as u64, at, (fuel - 1) as u64, #[trigger] all@[k])
        }),
    decreases slots,
{
    let less = (fuel - 1) as u64;
    match slots {
        List::Nil => {},
        List::Cons(slot, rest) => {
            let (after, h) = a_slot_is_filled_first(st, cx, callee, slot, *rest, i, at, fuel);
            arguments_fill_their_slots(after, cx, callee, *rest, crate::list::succ_spec(i), at, fuel);
            let all = crate::lower::lower_args_spec(st, cx, callee, &slots, i, at, fuel).1;
            let others = crate::lower::lower_args_spec(after, cx, callee, &*rest, crate::list::succ_spec(i), at, fuel).1;
            in_front(slot, *rest);
            in_front(h, others);
            assert(slots == List::Cons(slot, rest));
            assert(all == List::Cons(h, Box::new(others)));
            if i + slots@.len() < u64::MAX {
                assert forall|k: int| 0 <= k < slots@.len() implies filled(
                    cx,
                    callee,
                    slots@[k],
                    (i + k) as u64,
                    at,
                    less,
                    #[trigger] all@[k],
                ) by {
                    if k > 0 {
                        assert(all@[k] == others@[k - 1]);
                        assert(slots@[k] == rest@[k - 1]);
                    }
                }
            }
        },
    }
}

proof fn in_front<T>(h: T, t: List<T>)
    ensures
        List::Cons(h, Box::new(t))@ == seq![h] + t@,
{
}

/// Whether an expression fills a slot, wherever lowering had got to.
pub open spec fn filled(
    cx: &LowerCx,
    callee: Option<DefId>,
    slot: Option<NodeId>,
    i: u64,
    at: NodeId,
    fuel: u64,
    e: Expr,
) -> bool {
    exists|st: LowererV| #[trigger] fills(st, cx, callee, slot, i, at, fuel, e)
}

/// A call's slots are those recorded for it, and otherwise its arguments as written,
/// none left out.
pub proof fn slots_are_recorded_or_written(st: LowererV, cx: &LowerCx, head: NodeId, args: List<NodeId>)
    ensures
        ({
            let slots = crate::lower::call_slots_spec(st, cx, head, &args);
            match crate::facts::fact_arg_order_spec(cx.facts, st.file, head) {
                Some(o) => slots == o.args,
                None => slots@ == Seq::new(args@.len(), |i: int| Some(args@[i])),
            }
        }),
{
    written_slots_hold_each(args);
}

proof fn written_slots_hold_each(args: List<NodeId>)
    ensures
        crate::lower::written_slots_spec(&args)@ == Seq::new(args@.len(), |i: int| Some(args@[i])),
    decreases args,
{
    match args {
        List::Nil => {
            assert(crate::lower::written_slots_spec(&args)@ =~= Seq::new(args@.len(), |i: int| Some(args@[i])));
        },
        List::Cons(h, t) => {
            written_slots_hold_each(*t);
            assert(args@ =~= seq![h] + t@);
            let out = crate::lower::written_slots_spec(&args);
            assert(out@ =~= seq![Some(h)] + crate::lower::written_slots_spec(&*t)@);
            assert(out@ =~= Seq::new(args@.len(), |i: int| Some(args@[i])));
        },
    }
}

/// Whether nothing but its name says what a callee is.
pub open spec fn plain_call(st: LowererV, cx: &LowerCx, callee: NodeId, ty: Ty) -> bool {
    &&& match shape(st, cx, callee) {
        Some(NodeKind::GenericApply { .. }) => false,
        _ => true,
    }
    &&& crate::facts::fact_func_call_method_spec(cx.facts, st.file, callee) is None
    &&& crate::facts::fact_method_res_spec(cx.facts, st.file, callee) is None
    &&& crate::lower::construct_target_spec(st, cx, callee, &ty) is None
    &&& match crate::lower::resolved_def_spec(st, cx, callee) {
        Some(d) => crate::def::intrinsic_of_spec(cx.tables, d) is None,
        None => true,
    }
}

/// A call of what a name says is a call of that, with its arguments. It is reached
/// directly, unless it is a trait's own member or a value that can be called.
pub proof fn a_call_keeps_its_callee_and_its_arguments(
    st: LowererV,
    cx: &LowerCx,
    node: NodeId,
    callee: NodeId,
    args: List<NodeId>,
    ty: Ty,
    fuel: u64,
)
    requires
        fuel > 0,
        plain_call(st, cx, callee, ty),
    ensures
        ({
            let less = (fuel - 1) as u64;
            let target = crate::lower::resolved_def_spec(st, cx, callee);
            let (mid, f) = lower_expr_spec(st, cx, callee, less);
            let slots = crate::lower::call_slots_spec(st, cx, callee, &args);
            let (after, e) = crate::lower::lower_call_spec(st, cx, node, callee, &args, ty, fuel);
            match e.kind {
                ExprKind::Call { callee: c, args: given, builtin, dispatch } => {
                    &&& *c == f
                    &&& *given == crate::lower::lower_args_spec(mid, cx, target, &slots, 0, node, less).1
                    &&& builtin is None
                    &&& match (crate::facts::fact_static_trait_self_spec(cx.facts, st.file, callee), target) {
                        (Some(s), Some(m)) => dispatch == Dispatch::Generic {
                            trait_def: s.trait_def,
                            method: m,
                            self_ty: s.self_ty,
                            trait_args: s.trait_args,
                        },
                        _ => if crate::facts::fact_func_call_spec(cx.facts, st.file, callee) is Some {
                            dispatch == Dispatch::Func { self_ty: crate::lower::ty_spec(st, cx, callee) }
                        } else {
                            dispatch == Dispatch::Static
                        },
                    }
                },
                _ => false,
            }
        }),
{
}

/// An index is a call that takes the container by its address and the index, and
/// hands back the address of the element, which is read through.
pub proof fn an_index_reads_through_what_its_method_hands_back(
    st: LowererV,
    cx: &LowerCx,
    node: NodeId,
    res: OpResolution,
    base: NodeId,
    index: NodeId,
    ty: Ty,
    fuel: u64,
)
    requires
        fuel > 0,
        crate::def::intrinsic_of_spec(cx.tables, res.method) is None,
    ensures
        ({
            let less = (fuel - 1) as u64;
            let (mid, b) = lower_expr_spec(st, cx, base, less);
            let (after, e) = crate::lower::lower_index_call_spec(st, cx, node, res, base, index, ty, fuel);
            &&& ty_of_spec(after, &e) == ty
            &&& match e.kind {
                ExprKind::Deref { base: call } => match call.kind {
                    ExprKind::Call { callee, args, builtin, dispatch } => {
                        &&& callee.kind == ExprKind::Global(res.method)
                        &&& builtin == res.builtin
                        &&& dispatch == Dispatch::Static
                        &&& args@.len() == 2
                        &&& match ty_of_spec(mid, &b) {
                            Ty::Ptr { .. } => args@[0] == b && args@[1] == lower_expr_spec(mid, cx, index, less).1,
                            _ => match args@[0].kind {
                                ExprKind::Ref { mutable: _, place } => *place == b,
                                _ => false,
                            },
                        }
                    },
                    _ => false,
                },
                _ => false,
            }
        }),
{
    reveal_with_fuel(crate::list::list_seq, 3);
    let less = (fuel - 1) as u64;
    match crate::lower::lower_index_call_spec(st, cx, node, res, base, index, ty, fuel).1.kind {
        ExprKind::Deref { base: call } => match call.kind {
            ExprKind::Call { callee: _, args, builtin: _, dispatch: _ } => match *args {
                List::Cons(x, more) => match *more {
                    List::Cons(y, _) => {
                        assert(args@ =~= seq![x, y]);
                    },
                    _ => {},
                },
                _ => {},
            },
            _ => {},
        },
        _ => {},
    }
}

/// An element may be written through where a slice says so, where an array's element
/// is being written, and elsewhere where the index is one that writes.
pub proof fn an_element_is_written_where_it_may_be(mutable: bool, inner: Ty, len: crate::ty::Const, written: bool, by_trait: bool)
    ensures
        crate::lower::index_mutable_spec(&Ty::Slice { mutable: mutable, inner: Box::new(inner) }, written, by_trait)
            == mutable,
        crate::lower::index_mutable_spec(
            &Ty::Array { len: len, mutable: mutable, inner: Box::new(inner) },
            written,
            by_trait,
        ) == written,
{
}

// Members.

/// Whether an expression is another, read through where that is a pointer.
pub open spec fn out_of(st: LowererV, b: Expr, from: Expr) -> bool {
    match ty_of_spec(st, &b) {
        Ty::Ptr { .. } => from.kind == ExprKind::Deref { base: Box::new(b) },
        _ => from == b,
    }
}

/// A field access that names no namespace's member reads that field out of its base,
/// through a pointer where the base is one.
pub proof fn a_field_access_reads_its_field(
    st: LowererV,
    cx: &LowerCx,
    node: NodeId,
    base: NodeId,
    name: Symbol,
    fuel: u64,
)
    requires
        fuel > 0,
        shape(st, cx, node) == Some(NodeKind::FieldAccess { base, name }),
        match crate::lower::resolved_def_spec(st, cx, node) {
            Some(d) => crate::def::def_kind_spec(cx.tables, d) == DefKind::Field,
            None => true,
        },
    ensures
        ({
            let (mid, b) = lower_expr_spec(st, cx, base, (fuel - 1) as u64);
            let (after, e) = lower_expr_inner_spec(st, cx, node, fuel);
            &&& ty_of_spec(after, &e) == crate::lower::ty_spec(st, cx, node)
            &&& match e.kind {
                ExprKind::Field { base: from, name: n, def } => {
                    &&& n == name
                    &&& def == crate::lower::resolved_def_spec(st, cx, node)
                    &&& out_of(mid, b, *from)
                },
                _ => false,
            }
        }),
{
}

/// A position of a tuple is read out of its base, through a pointer where the base is
/// one; of a tuple struct it is the field of that name.
pub proof fn a_position_is_read(st: LowererV, cx: &LowerCx, node: NodeId, base: NodeId, index: u64, fuel: u64)
    requires
        fuel > 0,
        shape(st, cx, node) == Some(NodeKind::TupleIndex { base, index }),
    ensures
        ({
            let (mid, b) = lower_expr_spec(st, cx, base, (fuel - 1) as u64);
            let e = lower_expr_inner_spec(st, cx, node, fuel).1;
            match (e.kind, crate::lower::resolved_def_spec(st, cx, node)) {
                (ExprKind::TupleIndex { base: from, index: i }, None) => i == index && out_of(mid, b, *from),
                (ExprKind::Field { base: from, name, def }, Some(d)) => {
                    def == Some(d) && name == crate::symbol::index_sym_spec(index) && out_of(mid, b, *from)
                },
                _ => false,
            }
        }),
{
}

// Names.

/// A name that no closure holds is a local where it is a local or a parameter, a
/// `const` parameter where it is one, and otherwise a global; of the type it is used
/// at.
pub proof fn a_name_is_what_it_resolved_to(st: LowererV, cx: &LowerCx, node: NodeId, def: DefId, ty: Ty)
    requires
        crate::lower::resolved_def_spec(st, cx, node) == Some(def),
        crate::lower::capture_of_spec(st, def) is None,
        crate::facts::fact_op_resolution_spec(cx.facts, st.file, node) is None,
    ensures
        ({
            let (after, e) = crate::lower::lower_name_spec(st, cx, node, ty);
            &&& ty_of_spec(after, &e) == ty
            &&& match crate::def::def_kind_spec(cx.tables, def) {
                DefKind::Local => e.kind == ExprKind::Local(def),
                DefKind::Param => e.kind == ExprKind::Local(def),
                DefKind::ConstParam => e.kind == ExprKind::ConstParam(def),
                _ => e.kind == ExprKind::Global(def),
            }
        }),
{
}

// Literals.

/// A tuple keeps its elements, a variant its name and what it carries.
pub proof fn a_tuple_and_a_variant_keep_their_parts(st: LowererV, cx: &LowerCx, node: NodeId, fuel: u64)
    requires
        fuel > 1,
    ensures
        ({
            let less = (fuel - 1) as u64;
            let e = lower_expr_inner_spec(st, cx, node, fuel).1;
            match shape(st, cx, node) {
                Some(NodeKind::Tuple { elems }) => e.kind == ExprKind::Tuple {
                    elems: Box::new(crate::lower::lower_exprs_spec(st, cx, &elems, less).1),
                },
                Some(NodeKind::VariantLit { name, args: VariantArgs::Unit }) => e.kind == ExprKind::Variant {
                    name: name,
                    args: Box::new(List::Nil),
                },
                Some(NodeKind::VariantLit { name, args: VariantArgs::Tuple(ids) }) => e.kind == ExprKind::Variant {
                    name: name,
                    args: Box::new(crate::lower::lower_exprs_spec(st, cx, &ids, (less - 1) as u64).1),
                },
                _ => true,
            }
        }),
{
}

/// A range names its form, and keeps the bounds it has: the lower one first.
pub proof fn a_range_keeps_its_bounds(
    st: LowererV,
    cx: &LowerCx,
    start: Option<NodeId>,
    end: Option<NodeId>,
    closed: bool,
    fuel: u64,
)
    requires
        fuel > 0,
    ensures
        ({
            let less = (fuel - 1) as u64;
            let (name, args) = crate::lower::lower_range_spec(st, cx, start, end, closed, fuel).1;
            match (start, end) {
                (None, None) => name == crate::symbol::sym_spec("full") && args == List::<Expr>::Nil,
                (Some(s), None) => {
                    &&& name == crate::symbol::sym_spec("from")
                    &&& args == crate::list::single_spec(lower_expr_spec(st, cx, s, less).1)
                },
                (None, Some(e)) => {
                    &&& closed ==> name == crate::symbol::sym_spec("to_inclusive")
                    &&& !closed ==> name == crate::symbol::sym_spec("to")
                    &&& args == crate::list::single_spec(lower_expr_spec(st, cx, e, less).1)
                },
                (Some(s), Some(e)) => {
                    let (mid, a) = lower_expr_spec(st, cx, s, less);
                    &&& closed ==> name == crate::symbol::sym_spec("inclusive")
                    &&& !closed ==> name == crate::symbol::sym_spec("exclusive")
                    &&& args == crate::list::list2_spec(a, lower_expr_spec(mid, cx, e, less).1)
                },
            }
        }),
{
}

/// A range expression is the variant its form and its bounds say, closed exactly
/// where it is written so.
pub proof fn a_range_is_a_variant(
    st: LowererV,
    cx: &LowerCx,
    node: NodeId,
    start: Option<NodeId>,
    end: Option<NodeId>,
    kind: RangeKind,
    fuel: u64,
)
    requires
        fuel > 0,
        shape(st, cx, node) == Some(NodeKind::Range { start, end, kind }),
    ensures
        ({
            let made = crate::lower::lower_range_spec(st, cx, start, end, kind == RangeKind::Closed, (fuel - 1) as u64).1;
            lower_expr_inner_spec(st, cx, node, fuel).1.kind == ExprKind::Variant {
                name: made.0,
                args: Box::new(made.1),
            }
        }),
{
}

/// A literal with named fields builds the struct it is of, from its fields; one with
/// positions builds the tuple, the tuple struct or the array it is of; a repeated one
/// keeps its value and its count.
pub proof fn a_composite_builds_what_it_is_of(
    st: LowererV,
    cx: &LowerCx,
    node: NodeId,
    body: CompositeBody,
    ty: Ty,
    fuel: u64,
)
    requires
        fuel > 0,
    ensures
        ({
            let less = (fuel - 1) as u64;
            let (after, e) = crate::lower::lower_composite_spec(st, cx, node, &body, ty, fuel);
            &&& ty_of_spec(after, &e) == ty
            &&& match body {
                CompositeBody::Named { fields, spread: None } => {
                    let written = crate::lower::lower_field_inits_spec(st, cx, &fields, less).1;
                    match (ty, e.kind) {
                        (Ty::Nominal { def, args: _ }, ExprKind::Construct { def: d, fields: f }) => d == Some(def)
                            && f@ == written@,
                        (Ty::Struct(_), ExprKind::Construct { def: d, fields: f }) => d is None && *f == written,
                        (Ty::Nominal { .. }, _) => false,
                        (Ty::Struct(_), _) => false,
                        _ => e.kind == ExprKind::Error,
                    }
                },
                CompositeBody::Named { .. } => true,
                CompositeBody::Positional(elems) => {
                    let es = crate::lower::lower_exprs_spec(st, cx, &elems, less).1;
                    match ty {
                        Ty::Tuple(_) => e.kind == ExprKind::Tuple { elems: Box::new(es) },
                        Ty::Nominal { def, args: _ } => match e.kind {
                            ExprKind::Construct { def: d, fields } => {
                                &&& d == Some(def)
                                &&& fields@.len() == es@.len()
                                &&& es@.len() < u64::MAX ==> forall|i: int|
                                    0 <= i < es@.len() ==> #[trigger] fields@[i] == (
                                        crate::symbol::index_sym_spec(i as u64),
                                        es@[i],
                                    )
                            },
                            _ => false,
                        },
                        Ty::Array { .. } => e.kind == ExprKind::Intrinsic {
                            name: crate::symbol::sym_spec("array"),
                            args: Box::new(es),
                        },
                        Ty::Slice { .. } => e.kind == ExprKind::Intrinsic {
                            name: crate::symbol::sym_spec("array"),
                            args: Box::new(es),
                        },
                        _ => e.kind == ExprKind::Error,
                    }
                },
                CompositeBody::Repeat { value, count } => {
                    let (mid, v) = lower_expr_spec(st, cx, value, less);
                    let c = lower_expr_spec(mid, cx, count, less).1;
                    match e.kind {
                        ExprKind::Intrinsic { name, args } => name == crate::symbol::sym_spec("repeat") && args@
                            =~= seq![v, c],
                        _ => false,
                    }
                },
            }
        }),
{
    reveal_with_fuel(crate::list::list_seq, 3);
    let less = (fuel - 1) as u64;
    match body {
        CompositeBody::Named { fields, spread: _ } => {
            let written = crate::lower::lower_field_inits_spec(st, cx, &fields, less).1;
            crate::laws::generics::appending_keeps_both(written, List::<(Symbol, Expr)>::Nil);
            assert(written@ + List::<(Symbol, Expr)>::Nil@ =~= written@);
        },
        CompositeBody::Positional(elems) => {
            fields_are_named_by_position(crate::lower::lower_exprs_spec(st, cx, &elems, less).1, 0);
        },
        _ => {},
    }
}

proof fn fields_are_named_by_position(l: List<Expr>, i: u64)
    ensures
        crate::lower::indexed_fields_spec(l, i)@.len() == l@.len(),
        i + l@.len() < u64::MAX ==> forall|k: int|
            0 <= k < l@.len() ==> #[trigger] crate::lower::indexed_fields_spec(l, i)@[k] == (
                crate::symbol::index_sym_spec((i + k) as u64),
                l@[k],
            ),
    decreases l,
{
    match l {
        List::Nil => {},
        List::Cons(h, t) => {
            fields_are_named_by_position(*t, crate::list::succ_spec(i));
            let out = crate::lower::indexed_fields_spec(l, i);
            let rest = crate::lower::indexed_fields_spec(*t, crate::list::succ_spec(i));
            assert(l@ =~= seq![h] + t@);
            assert(out@ =~= seq![(crate::symbol::index_sym_spec(i), h)] + rest@);
        },
    }
}

/// A named field keeps its name and its value, and fields come in the order they are
/// written.
pub proof fn fields_keep_their_names(
    st: LowererV,
    cx: &LowerCx,
    first: NodeId,
    rest: List<NodeId>,
    name: Symbol,
    value: NodeId,
    fuel: u64,
)
    requires
        fuel > 1,
        shape(st, cx, first) == Some(NodeKind::FieldInit { name, value }),
    ensures
        ({
            let (mid, e) = lower_expr_spec(st, cx, value, (fuel - 2) as u64);
            let all = crate::lower::lower_field_inits_spec(st, cx, &List::Cons(first, Box::new(rest)), fuel).1;
            all@ == seq![(name, e)] + crate::lower::lower_field_inits_spec(mid, cx, &rest, fuel).1@
        }),
{
    let (mid, e) = lower_expr_spec(st, cx, value, (fuel - 2) as u64);
    assert(crate::lower::lower_field_init_spec(st, cx, first, (fuel - 1) as u64) == (mid, Some((name, e))));
    let others = crate::lower::lower_field_inits_spec(mid, cx, &rest, fuel).1;
    let all = crate::lower::lower_field_inits_spec(st, cx, &List::Cons(first, Box::new(rest)), fuel).1;
    assert(all == List::Cons((name, e), Box::new(others)));
}

// Patterns.

/// A name binds what it declares, or anything where it declares nothing; a literal and a
/// wildcard stay what they are.
pub proof fn a_plain_pattern_keeps_its_kind(st: LowererV, cx: &LowerCx, node: NodeId, fuel: u64)
    requires
        fuel > 1,
    ensures
        ({
            let less = (fuel - 1) as u64;
            let p = lower_pattern_spec(st, cx, node, fuel).1;
            let def = crate::lower::def_of_spec(st, cx, node);
            match shape(st, cx, node) {
                Some(NodeKind::BindingPat { name }) => match def {
                    Some(d) => p.kind == PatternKind::Binding { def: d, name: name },
                    None => p.kind == PatternKind::Wildcard,
                },
                Some(NodeKind::WildcardPat) => p.kind == PatternKind::Wildcard,
                Some(NodeKind::LitPat(lit)) => p.kind == PatternKind::Lit(lit),
                _ => true,
            }
        }),
{
}

/// A variant pattern keeps its name and the patterns of what it carries.
pub proof fn a_variant_pattern_keeps_its_name_and_its_parts(st: LowererV, cx: &LowerCx, node: NodeId, fuel: u64)
    requires
        fuel > 1,
    ensures
        ({
            let less = (fuel - 1) as u64;
            let p = lower_pattern_spec(st, cx, node, fuel).1;
            let def = crate::lower::def_of_spec(st, cx, node);
            match shape(st, cx, node) {
                Some(NodeKind::VariantPat { name, args: VariantPatArgs::Unit }) => p.kind == PatternKind::Variant {
                    name: name,
                    sub: Box::new(List::Nil),
                },
                Some(NodeKind::VariantPat { name, args: VariantPatArgs::Tuple(ids) }) => p.kind
                    == PatternKind::Variant {
                    name: name,
                    sub: Box::new(crate::lower::lower_patterns_spec(st, cx, &ids, (less - 1) as u64).1),
                },
                _ => true,
            }
        }),
{
    match shape(st, cx, node) {
        Some(NodeKind::VariantPat { name, args }) => {
            let sub = crate::lower::lower_variant_pat_args_spec(st, cx, &args, (fuel - 1) as u64).1;
            assert(lower_pattern_spec(st, cx, node, fuel).1.kind == PatternKind::Variant {
                name: name,
                sub: Box::new(sub),
            });
            assert(match args {
                VariantPatArgs::Unit => sub == List::<Pattern>::Nil,
                VariantPatArgs::Tuple(ids) => sub == crate::lower::lower_patterns_spec(st, cx, &ids, (fuel - 2) as u64).1,
                _ => true,
            });
        },
        _ => {},
    }
}

/// A tuple, a choice and a pattern under a pointer keep their parts.
pub proof fn a_compound_pattern_keeps_its_parts(st: LowererV, cx: &LowerCx, node: NodeId, fuel: u64)
    requires
        fuel > 1,
    ensures
        ({
            let less = (fuel - 1) as u64;
            let p = lower_pattern_spec(st, cx, node, fuel).1;
            let def = crate::lower::def_of_spec(st, cx, node);
            match shape(st, cx, node) {
                Some(NodeKind::TuplePat { elems }) => p.kind == PatternKind::Tuple(
                    Box::new(crate::lower::lower_patterns_spec(st, cx, &elems, less).1),
                ),
                Some(NodeKind::OrPat { alternatives }) => p.kind == PatternKind::Or(
                    Box::new(crate::lower::lower_patterns_spec(st, cx, &alternatives, less).1),
                ),
                Some(NodeKind::RefPat { pattern }) => p.kind == PatternKind::Deref(
                    Box::new(lower_pattern_spec(st, cx, pattern, less).1),
                ),
                _ => true,
            }
        }),
{
}

/// A name put on a pattern binds what it declares around that pattern, and where it
/// declares nothing leaves the pattern alone.
pub proof fn a_named_pattern_keeps_its_name_and_its_pattern(st: LowererV, cx: &LowerCx, node: NodeId, fuel: u64)
    requires
        fuel > 1,
    ensures
        ({
            let less = (fuel - 1) as u64;
            let p = lower_pattern_spec(st, cx, node, fuel).1;
            let def = crate::lower::def_of_spec(st, cx, node);
            match shape(st, cx, node) {
                Some(NodeKind::AtPat { name, pattern }) => match def {
                    Some(d) => match p.kind {
                        PatternKind::At { binding, pattern: inner } => {
                            &&& binding.def == d
                            &&& binding.name == name
                            &&& *inner == lower_pattern_spec(crate::lower::id_spec(st, cx, node).0, cx, pattern, less).1
                        },
                        _ => false,
                    },
                    None => p == lower_pattern_spec(st, cx, pattern, less).1,
                },
                _ => true,
            }
        }),
{
}

/// A struct pattern keeps the struct it names, its fields and whether others may follow.
pub proof fn a_struct_pattern_keeps_its_fields(st: LowererV, cx: &LowerCx, node: NodeId, fuel: u64)
    requires
        fuel > 1,
    ensures
        ({
            let less = (fuel - 1) as u64;
            let p = lower_pattern_spec(st, cx, node, fuel).1;
            let def = crate::lower::def_of_spec(st, cx, node);
            match shape(st, cx, node) {
                Some(NodeKind::StructPat { path, fields, rest }) => match p.kind {
                    PatternKind::Struct { def: d, fields: f, rest: r } => {
                        &&& d == match path {
                            Some(q) => crate::lower::resolved_def_spec(st, cx, q),
                            None => None,
                        }
                        &&& *f == crate::lower::lower_field_pats_spec(st, cx, &fields, less).1
                        &&& r == rest
                    },
                    _ => false,
                },
                Some(NodeKind::TupleStructPat { path, elems, rest }) => match p.kind {
                    PatternKind::TupleStruct { def: d, elems: es, rest: r } => {
                        &&& d == crate::lower::resolved_def_spec(st, cx, path)
                        &&& *es == crate::lower::lower_patterns_spec(st, cx, &elems, less).1
                        &&& r == rest
                    },
                    _ => false,
                },
                _ => true,
            }
        }),
{
}

/// A range pattern keeps its bounds, and is closed exactly where it is written so.
pub proof fn a_range_pattern_keeps_its_bounds(st: LowererV, cx: &LowerCx, node: NodeId, fuel: u64)
    requires
        fuel > 1,
    ensures
        ({
            let less = (fuel - 1) as u64;
            let p = lower_pattern_spec(st, cx, node, fuel).1;
            let def = crate::lower::def_of_spec(st, cx, node);
            match shape(st, cx, node) {
                Some(NodeKind::RangePat { start, end, kind }) => match p.kind {
                    PatternKind::Range { start: a, end: b, inclusive } => {
                        &&& inclusive == (kind == RangeKind::Closed)
                        &&& bound_is(st, cx, start, a)
                        &&& bound_is(st, cx, end, b)
                    },
                    _ => false,
                },
                _ => true,
            }
        }),
{
}

/// Whether a bound is the literal written for it.
pub open spec fn bound_is(st: LowererV, cx: &LowerCx, node: Option<NodeId>, lit: Option<Lit>) -> bool {
    match node {
        Some(n) => match shape(st, cx, n) {
            Some(NodeKind::Lit(l)) => lit == Some(l),
            Some(NodeKind::LitPat(l)) => lit == Some(l),
            _ => lit is None,
        },
        None => lit is None,
    }
}

/// Patterns lower one by one, in order, none left out.
pub proof fn patterns_lower_in_order(st: LowererV, cx: &LowerCx, first: NodeId, rest: List<NodeId>, fuel: u64)
    requires
        fuel > 0,
    ensures
        ({
            let (mid, p) = lower_pattern_spec(st, cx, first, (fuel - 1) as u64);
            let all = crate::lower::lower_patterns_spec(st, cx, &List::Cons(first, Box::new(rest)), fuel).1;
            &&& all@ == seq![p] + crate::lower::lower_patterns_spec(mid, cx, &rest, fuel).1@
            &&& crate::lower::lower_patterns_spec(st, cx, &List::Nil, fuel).1@ == Seq::<Pattern>::empty()
        }),
{
}

/// A slice pattern's elements are split where its rest stands: those before it from
/// the front, those behind it from the back, none left out.
pub proof fn a_slice_pattern_is_split_at_its_rest(l: List<Pattern>, n: u64)
    ensures
        ({
            let (a, b) = crate::lower::split_patterns_spec(l, n);
            &&& a@ + b@ == l@
            &&& a@.len() == if n <= l@.len() { n as nat } else { l@.len() }
        }),
    decreases l,
{
    match l {
        List::Nil => {
            assert(Seq::<Pattern>::empty() + Seq::<Pattern>::empty() =~= Seq::<Pattern>::empty());
        },
        List::Cons(h, t) => {
            assert(l@ =~= seq![h] + t@);
            let (a, b) = crate::lower::split_patterns_spec(l, n);
            if n == 0 {
                assert(a@ + b@ =~= l@);
            } else {
                a_slice_pattern_is_split_at_its_rest(*t, (n - 1) as u64);
                let (x, y) = crate::lower::split_patterns_spec(*t, (n - 1) as u64);
                assert(a@ =~= seq![h] + x@);
                assert(a@ + b@ =~= seq![h] + (x@ + y@));
            }
        },
    }
}

} // verus!
