//! Expressions and statements.

use vstd::prelude::*;

use crate::ast::{dup_lit, BinOp, CompositeBody, Lit, NodeKind, UnOp, VariantArgs};
use crate::bigint::int_neg;
use crate::coerce::is_never;
use crate::decls::recorded_const_ty;
use crate::def::{
    def_in, def_kind, def_name, def_node, def_parent, def_place, find_member, get_def, kind_of, lang_def,
    lang_item, lang_ty, member_of, resolve_alias, ConstTy, DefKind, ImplInfo, Tables,
};
use crate::diag::{kind_label, say, say_name, Part};
use crate::facts::{AssocTy, ClosureSig, GenericArg, IndexWrite, Instantiation, Resolution};
use crate::ids::{DefId, FileId, NodeId};
use crate::list::{append, is_empty, list5, list_len, nth, single, succ, DEPTH_LIMIT, List};
use crate::lower::is_comparison;
use crate::solve::{get_impl, member_defs};
use crate::subst::{
    find_const, find_ty, has_len, is_error, is_var, mentions, sort_by_name, subst_ty, tuple_elems, Mention,
    Subst,
};
use crate::symbol::{dup_sym, index_sym, sym, sym_is, Symbol};
use crate::ty::{dup_const, dup_ty, int_ty, nominals, ty_eq, Ty};
use crate::types::{is_ptr_sized, written_path_in};
use crate::unify::{InferCx, Inferer, InfererV, LoopFrame, Obligation, TyVarKind};

verus! {

broadcast use {
    crate::keeping::kept_by_both,
    crate::keeping::kept_by_nothing,
    crate::keeping::loops_stand_on,
    crate::keeping::loops_stand_still,
};

// Expressions.

/// [`Inferer::infer_expr`], as a mathematical function.
pub open spec fn infer_expr_spec(st: InfererV, env: &InferCx, node: NodeId, fuel: u64) -> (InfererV, Ty)
    decreases fuel,
{
    if fuel == 0 {
        (crate::unify::give_up_spec(st), Ty::Error)
    } else {
        let (st, ty) = infer_expr_uncached_spec(st, env, node, (fuel - 1) as u64);
        let st = crate::unify::set_type_spec(st, node, ty);
        (st, ty)
    }
}

/// [`Inferer::infer_exprs`], as a mathematical function.
pub open spec fn infer_exprs_spec(
    st: InfererV,
    env: &InferCx,
    l: &List<NodeId>,
    fuel: u64,
) -> (InfererV, List<Ty>)
    decreases fuel, l,
{
    if fuel == 0 {
        (crate::unify::give_up_spec(st), List::Nil)
    } else {
        match l {
            List::Nil => (st, List::Nil),
            List::Cons(h, t) => {
                let (st, a) = infer_expr_spec(st, env, *h, (fuel - 1) as u64);
                let (st, rest) = infer_exprs_spec(st, env, t, fuel);
                (st, List::Cons(a, Box::new(rest)))
            },
        }
    }
}

/// [`Inferer::infer_opt_expr`], as a mathematical function.
pub open spec fn infer_opt_expr_spec(
    st: InfererV,
    env: &InferCx,
    node: Option<NodeId>,
    fuel: u64,
) -> (InfererV, Ty)
    decreases fuel,
{
    if fuel == 0 {
        (crate::unify::give_up_spec(st), Ty::Error)
    } else {
        match node {
            Some(n) => infer_expr_spec(st, env, n, (fuel - 1) as u64),
            None => (st, Ty::Void),
        }
    }
}

/// [`Inferer::keep_number`], as a mathematical function.
pub open spec fn keep_number_spec(st: InfererV, node: NodeId, lit: Option<Lit>) -> InfererV {
    match lit {
        Some(Lit::Int(n)) => {
            let st = crate::unify::set_int_spec(st, node, n);
            st
        },
        Some(Lit::Float(b)) => {
            let st = crate::unify::set_float_spec(st, node, b);
            st
        },
        _ => {
            st
        },
    }
}

/// [`last_node`], as a mathematical function.
pub open spec fn last_node_spec(l: &List<NodeId>) -> Option<NodeId>
    decreases l,
{
    match l {
        List::Nil => None,
        List::Cons(h, t) => if crate::list::is_empty_spec(t) {
            Some(*h)
        } else {
            last_node_spec(t)
        },
    }
}

/// The last element of a list.
pub fn last_node(l: &List<NodeId>) -> (r: Option<NodeId>)
    ensures
        r == last_node_spec(l),
    decreases l,
{
    match l {
        List::Nil => None,
        List::Cons(h, t) => if is_empty(t) {
            Some(*h)
        } else {
            last_node(t)
        },
    }
}

/// [`Inferer::infer_expr_uncached`], as a mathematical function.
pub open spec fn infer_expr_uncached_spec(
    st: InfererV,
    env: &InferCx,
    node: NodeId,
    fuel: u64,
) -> (InfererV, Ty)
    decreases fuel,
{
    if fuel == 0 {
        (crate::unify::give_up_spec(st), Ty::Error)
    } else {
        match crate::def::kind_of_spec(env.tables, st.file, node) {
            Some(NodeKind::Block { stmts, tail }) => {
                let st = infer_stmts_spec(st, env, stmts, (fuel - 1) as u64);
                match tail {
                    Some(t) => infer_expr_spec(st, env, *t, (fuel - 1) as u64),
                    None => match last_node_spec(stmts) {
                        Some(s) => if diverges_spec(st, env, s) {
                            (st, Ty::Never)
                        } else {
                            (st, Ty::Void)
                        },
                        None => (st, Ty::Void),
                    },
                }
            },
            Some(NodeKind::CallerLocation) => infer_caller_location_spec(st, env, node),
            Some(NodeKind::Lit(lit)) => {
                let st = keep_number_spec(st, node, Some((*lit)));
                lit_ty_spec(st, env, lit)
            },
            Some(NodeKind::Path { .. }) => {
                let (st, ty) = path_ty_spec(st, env, node, (fuel - 1) as u64);
                let st = keep_number_spec(
                    st,
                    node,
                    crate::decls::const_lit_value_spec(st, env, st.file, node, DEPTH_LIMIT),
                );
                (st, ty)
            },
            Some(NodeKind::Unary { op, operand }) => infer_unary_spec(
                st,
                env,
                node,
                *op,
                *operand,
                (fuel - 1) as u64,
            ),
            Some(NodeKind::Binary { op, lhs, rhs }) => infer_binary_spec(
                st,
                env,
                node,
                *op,
                *lhs,
                *rhs,
                (fuel - 1) as u64,
            ),
            Some(NodeKind::Tuple { elems }) => if crate::list::is_empty_spec(elems) {
                (st, Ty::Void)
            } else {
                let (st, ts) = infer_exprs_spec(st, env, elems, (fuel - 1) as u64);
                (st, Ty::Tuple(Box::new(ts)))
            },
            Some(NodeKind::FieldAccess { base, name }) => infer_field_access_spec(
                st,
                env,
                node,
                *base,
                name,
                (fuel - 1) as u64,
            ),
            Some(NodeKind::TupleIndex { base, index }) => infer_tuple_index_spec(
                st,
                env,
                node,
                *base,
                *index,
                (fuel - 1) as u64,
            ),
            Some(NodeKind::Call { callee, args }) => crate::calls::infer_call_spec(
                st,
                env,
                *callee,
                args,
                (fuel - 1) as u64,
            ),
            Some(NodeKind::GenericApply { base, args }) => {
                let st = crate::types::record_generic_args_in_spec(st, env, st.file, args, (fuel - 1) as u64);
                infer_expr_spec(st, env, *base, (fuel - 1) as u64)
            },
            Some(NodeKind::Index { base, index }) => {
                let (st, bty) = infer_expr_spec(st, env, *base, (fuel - 1) as u64);
                let (st, bty) = crate::unify::pin_str_spec(st, &bty);
                let (st, ity) = infer_expr_spec(st, env, *index, (fuel - 1) as u64);
                let head = crate::unify::autoderef_spec(st, &bty, DEPTH_LIMIT);
                infer_index_op_spec(st, env, node, head, ity)
            },
            Some(NodeKind::Slice { base, range }) => infer_slice_spec(
                st,
                env,
                *base,
                *range,
                (fuel - 1) as u64,
            ),
            Some(NodeKind::Deref { base }) => {
                let (st, bty) = infer_expr_spec(st, env, *base, (fuel - 1) as u64);
                let (st, inner) = crate::unify::fresh_spec(st);
                let st = crate::coerce::expect_spec(
                    st,
                    env,
                    *base,
                    &bty,
                    &Ty::Ptr { mutable: false, inner: Box::new(inner) },
                    (fuel - 1) as u64,
                );
                let st = if is_opaque_spec(&crate::unify::shallow_spec(st, &inner, DEPTH_LIMIT)) {
                    let st = crate::unify::report_spec(
                        st,
                        env,
                        node,
                        crate::diag::say_spec(
                            "cannot read through `*opaque`: an opaque type has no value to load",
                        ),
                    );
                    st
                } else {
                    st
                };
                (st, inner)
            },
            Some(NodeKind::MatchExpr { scrutinee, arms }) => {
                let (st, sty) = infer_expr_spec(st, env, *scrutinee, (fuel - 1) as u64);
                let (st, joined) = infer_arms_spec(st, env, arms, &sty, None, (fuel - 1) as u64);
                match joined {
                    Some(t) => (st, t),
                    None => crate::unify::fresh_spec(st),
                }
            },
            Some(NodeKind::If { cond, then, els }) => {
                let (st, cty) = infer_expr_spec(st, env, *cond, (fuel - 1) as u64);
                let st = crate::coerce::expect_spec(st, env, *cond, &cty, &Ty::Bool, (fuel - 1) as u64);
                infer_branches_spec(st, env, *then, *els, (fuel - 1) as u64)
            },
            Some(NodeKind::IfMatch { pattern, value, then, els }) => {
                let (st, vty) = infer_expr_spec(st, env, *value, (fuel - 1) as u64);
                let st = crate::coerce::bind_pattern_spec(st, env, *pattern, &vty, (fuel - 1) as u64);
                infer_branches_spec(st, env, *then, *els, (fuel - 1) as u64)
            },
            Some(NodeKind::Loop { body }) => {
                let (st, ty) = crate::unify::fresh_spec(st);
                let (st, broke) = infer_loop_body_spec(st, env, *body, &ty, (fuel - 1) as u64);
                if broke {
                    (st, ty)
                } else {
                    (st, Ty::Never)
                }
            },
            Some(NodeKind::While { cond, body }) => {
                let (st, cty) = infer_expr_spec(st, env, *cond, (fuel - 1) as u64);
                let st = crate::coerce::expect_spec(st, env, *cond, &cty, &Ty::Bool, (fuel - 1) as u64);
                let (st, _broke) = infer_loop_body_spec(st, env, *body, &Ty::Void, (fuel - 1) as u64);
                (st, Ty::Void)
            },
            Some(NodeKind::CompositeLit { ty, body }) => {
                let st = infer_composite_elems_spec(st, env, body, (fuel - 1) as u64);
                match ty {
                    Some(t) => {
                        let (st, cty) = crate::types::ty_from_node_spec(st, env, *t, (fuel - 1) as u64);
                        let st = crate::solve::check_composite_body_spec(
                            st,
                            env,
                            node,
                            &cty,
                            (fuel - 1) as u64,
                        );
                        (st, cty)
                    },
                    None => {
                        let (st, recv) = crate::unify::fresh_spec(st);
                        let st = crate::unify::register_spec(
                            st,
                            Obligation::CompositeBody { recv: recv, origin: node },
                        );
                        (st, recv)
                    },
                }
            },
            Some(NodeKind::VariantLit { name, args }) => {
                let (st, arg_tys) = variant_lit_arg_tys_spec(st, env, args, (fuel - 1) as u64);
                let (st, recv) = crate::unify::fresh_spec(st);
                let st = crate::unify::register_spec(
                    st,
                    Obligation::VariantPayload { recv: recv, variant: (*name), args: arg_tys, origin: node },
                );
                (st, recv)
            },
            Some(NodeKind::Arg { name: _, value }) => infer_expr_spec(st, env, *value, (fuel - 1) as u64),
            Some(
                NodeKind::FieldInit { name: _, value },
            ) => infer_expr_spec(st, env, *value, (fuel - 1) as u64),
            Some(NodeKind::Range { start, end, kind: _ }) => {
                let (st, elem) = crate::unify::fresh_spec(st);
                let st = infer_bound_spec(st, env, *start, &elem, (fuel - 1) as u64);
                let st = infer_bound_spec(st, env, *end, &elem, (fuel - 1) as u64);
                match crate::def::lang_def_spec(env.tables, "range") {
                    Some(def) => (
                        st,
                        Ty::Nominal { def: def, args: Box::new(crate::list::single_spec(elem)) },
                    ),
                    None => (st, Ty::Error),
                }
            },
            Some(NodeKind::FuncExpr { .. }) => crate::types::func_sig_ty_in_spec(
                st,
                env,
                st.file,
                node,
                (fuel - 1) as u64,
            ),
            Some(NodeKind::Closure { .. }) => infer_closure_spec(st, env, node, None, (fuel - 1) as u64),
            _ => (st, Ty::Error),
        }
    }
}

/// [`Inferer::infer_loop_body`], as a mathematical function.
pub open spec fn infer_loop_body_spec(
    st: InfererV,
    env: &InferCx,
    body: NodeId,
    ty: &Ty,
    fuel: u64,
) -> (InfererV, bool)
    decreases fuel,
{
    if fuel == 0 {
        (crate::unify::give_up_spec(st), false)
    } else {
        let st = crate::unify::push_break_spec(st, LoopFrame { ty: (*ty), broke: false });
        let (st, _body) = infer_expr_spec(st, env, body, (fuel - 1) as u64);
        let broke = match top_break_spec(st) {
            Some(f) => f.broke,
            None => false,
        };
        let st = crate::unify::pop_break_spec(st);
        (st, broke)
    }
}

/// [`is_opaque`], as a mathematical function.
pub open spec fn is_opaque_spec(ty: &Ty) -> bool {
    match ty {
        Ty::Opaque => true,
        _ => false,
    }
}

/// Whether a type is the opaque one.
pub fn is_opaque(ty: &Ty) -> (r: bool)
    ensures
        r == is_opaque_spec(ty),
{
    match ty {
        Ty::Opaque => true,
        _ => false,
    }
}

/// A copy of the enclosing loops.
pub fn dup_breaks(l: &List<LoopFrame>) -> (r: List<LoopFrame>)
    ensures
        r == *l,
    decreases l,
{
    match l {
        List::Nil => List::Nil,
        List::Cons(h, t) => List::Cons(
            LoopFrame { ty: dup_ty(&h.ty), broke: h.broke },
            Box::new(dup_breaks(t)),
        ),
    }
}

/// [`Inferer::top_break`], as a mathematical function.
pub open spec fn top_break_spec(st: InfererV) -> Option<LoopFrame> {
    match &st.breaks {
        List::Nil => None,
        List::Cons(f, _) => Some(LoopFrame { ty: f.ty, broke: f.broke }),
    }
}

/// [`Inferer::join`], as a mathematical function.
pub open spec fn join_spec(
    st: InfererV,
    env: &InferCx,
    so_far: Ty,
    node: NodeId,
    ty: Ty,
    fuel: u64,
) -> (InfererV, Ty)
    decreases fuel,
{
    if fuel == 0 {
        (crate::unify::give_up_spec(st), Ty::Error)
    } else {
        if crate::coerce::is_never_spec(&crate::unify::shallow_spec(st, &so_far, DEPTH_LIMIT)) {
            (st, ty)
        } else if crate::coerce::is_never_spec(&crate::unify::shallow_spec(st, &ty, DEPTH_LIMIT)) {
            (st, so_far)
        } else {
            let st = crate::coerce::expect_spec(st, env, node, &ty, &so_far, (fuel - 1) as u64);
            (st, so_far)
        }
    }
}

/// [`Inferer::infer_branches`], as a mathematical function.
pub open spec fn infer_branches_spec(
    st: InfererV,
    env: &InferCx,
    then: NodeId,
    els: Option<NodeId>,
    fuel: u64,
) -> (InfererV, Ty)
    decreases fuel,
{
    if fuel == 0 {
        (crate::unify::give_up_spec(st), Ty::Error)
    } else {
        let (st, then_ty) = infer_expr_spec(st, env, then, (fuel - 1) as u64);
        match els {
            Some(e) => {
                let (st, else_ty) = infer_expr_spec(st, env, e, (fuel - 1) as u64);
                join_spec(st, env, then_ty, e, else_ty, (fuel - 1) as u64)
            },
            None => {
                let st = crate::coerce::expect_spec(st, env, then, &then_ty, &Ty::Void, (fuel - 1) as u64);
                (st, Ty::Void)
            },
        }
    }
}

/// [`Inferer::infer_arm`], as a mathematical function.
pub open spec fn infer_arm_spec(
    st: InfererV,
    env: &InferCx,
    arm: NodeId,
    sty: &Ty,
    so_far: Option<Ty>,
    fuel: u64,
) -> (InfererV, Option<Ty>)
    decreases fuel,
{
    if fuel == 0 {
        (crate::unify::give_up_spec(st), so_far)
    } else {
        match crate::def::kind_of_spec(env.tables, st.file, arm) {
            Some(NodeKind::MatchArm { pattern, guard, body }) => {
                let st = crate::coerce::bind_pattern_spec(st, env, *pattern, sty, (fuel - 1) as u64);
                let st = match guard {
                    Some(g) => {
                        let (st, gty) = infer_expr_spec(st, env, *g, (fuel - 1) as u64);
                        let st = crate::coerce::expect_spec(st, env, *g, &gty, &Ty::Bool, (fuel - 1) as u64);
                        st
                    },
                    None => {
                        st
                    },
                };
                let (st, bty) = infer_expr_spec(st, env, *body, (fuel - 1) as u64);
                match so_far {
                    Some(t) => {
                        let (st, joined) = join_spec(st, env, t, *body, bty, (fuel - 1) as u64);
                        (st, Some(joined))
                    },
                    None => (st, Some(bty)),
                }
            },
            _ => (st, so_far),
        }
    }
}

/// [`Inferer::infer_arms`], as a mathematical function.
pub open spec fn infer_arms_spec(
    st: InfererV,
    env: &InferCx,
    arms: &List<NodeId>,
    sty: &Ty,
    so_far: Option<Ty>,
    fuel: u64,
) -> (InfererV, Option<Ty>)
    decreases fuel, arms,
{
    if fuel == 0 {
        (crate::unify::give_up_spec(st), so_far)
    } else {
        match arms {
            List::Nil => (st, so_far),
            List::Cons(arm, rest) => {
                let (st, next) = infer_arm_spec(st, env, *arm, sty, so_far, (fuel - 1) as u64);
                infer_arms_spec(st, env, rest, sty, next, fuel)
            },
        }
    }
}

/// [`Inferer::infer_bound`], as a mathematical function.
pub open spec fn infer_bound_spec(
    st: InfererV,
    env: &InferCx,
    node: Option<NodeId>,
    elem: &Ty,
    fuel: u64,
) -> InfererV
    decreases fuel,
{
    if fuel == 0 {
        crate::unify::give_up_spec(st)
    } else {
        match node {
            Some(n) => {
                let (st, t) = infer_expr_spec(st, env, n, (fuel - 1) as u64);
                let st = crate::coerce::expect_spec(st, env, n, &t, elem, (fuel - 1) as u64);
                st
            },
            None => {
                st
            },
        }
    }
}

/// [`Inferer::infer_slice`], as a mathematical function.
pub open spec fn infer_slice_spec(
    st: InfererV,
    env: &InferCx,
    base: NodeId,
    range: NodeId,
    fuel: u64,
) -> (InfererV, Ty)
    decreases fuel,
{
    if fuel == 0 {
        (crate::unify::give_up_spec(st), Ty::Error)
    } else {
        let (st, bty) = infer_expr_spec(st, env, base, (fuel - 1) as u64);
        let (st, rty) = infer_expr_spec(st, env, range, (fuel - 1) as u64);
        let st = match crate::unify::shallow_spec(st, &rty, DEPTH_LIMIT) {
            Ty::Nominal { def: _, args } => match crate::list::nth_spec(&args, 0) {
                Some(elem) => {
                    let want = crate::unify::usize_ty_spec(st);
                    let st = crate::coerce::expect_spec(st, env, range, elem, &want, (fuel - 1) as u64);
                    st
                },
                None => {
                    st
                },
            },
            _ => {
                st
            },
        };
        match crate::unify::autoderef_spec(st, &bty, DEPTH_LIMIT) {
            Ty::Slice { mutable, inner } => (st, Ty::Slice { mutable: mutable, inner: inner }),
            Ty::Array { len: _, mutable: _, inner } => (st, Ty::Slice { mutable: false, inner: inner }),
            _ => (st, Ty::Error),
        }
    }
}

/// [`Inferer::defer_field`], as a mathematical function.
pub open spec fn defer_field_spec(st: InfererV, node: NodeId, bty: Ty, name: Symbol) -> (InfererV, Ty) {
    let (st, out) = crate::unify::fresh_spec(st);
    let st = crate::unify::register_spec(
        st,
        Obligation::Field { recv: bty, name: name, out: out, origin: node },
    );
    (st, out)
}

/// [`Inferer::infer_field_access`], as a mathematical function.
pub open spec fn infer_field_access_spec(
    st: InfererV,
    env: &InferCx,
    node: NodeId,
    base: NodeId,
    name: &Symbol,
    fuel: u64,
) -> (InfererV, Ty)
    decreases fuel,
{
    if fuel == 0 {
        (crate::unify::give_up_spec(st), Ty::Error)
    } else {
        match crate::unify::get_assoc_ty_spec(st, st.file, node) {
            Some(t) => {
                (st, t.0)
            },
            None => {
                match crate::decls::resolved_def_spec(st, env, node) {
                    Some(def) => {
                        let st = keep_number_spec(
                            st,
                            node,
                            crate::decls::const_lit_value_spec(st, env, st.file, node, DEPTH_LIMIT),
                        );
                        def_ty_spec(st, env, node, def, (fuel - 1) as u64)
                    },
                    None => {
                        if crate::decls::failed_resolution_spec(st, node) {
                            (st, Ty::Error)
                        } else {
                            let (st, through) = type_denoted_by_spec(st, env, base, (fuel - 1) as u64);
                            match through {
                                Some(t) => {
                                    let (st, found) = assoc_through_type_spec(
                                        st,
                                        env,
                                        node,
                                        &t,
                                        name,
                                        (fuel - 1) as u64,
                                    );
                                    match found {
                                        Some(ty) => (st, ty),
                                        None => {
                                            let st = crate::unify::report_spec(
                                                st,
                                                env,
                                                node,
                                                crate::list::list5_spec(
                                                    Part::Text("`"),
                                                    Part::Ty(crate::unify::resolve_spec(st, &t, DEPTH_LIMIT)),
                                                    Part::Text("` has no associated item `"),
                                                    Part::Name((*name)),
                                                    Part::Text("`"),
                                                ),
                                            );
                                            let st = crate::unify::set_resolution_spec(
                                                st,
                                                st.file,
                                                node,
                                                Resolution::Error,
                                            );
                                            (st, Ty::Error)
                                        },
                                    }
                                },
                                None => {
                                    let (st, bty) = infer_expr_spec(st, env, base, (fuel - 1) as u64);
                                    let (st, bty) = crate::unify::pin_str_spec(st, &bty);
                                    let (st, bty) = crate::solve::settle_spec(
                                        st,
                                        env,
                                        &bty,
                                        (fuel - 1) as u64,
                                    );
                                    let (st, found) = crate::types::field_ty_at_spec(
                                        st,
                                        env,
                                        Some(node),
                                        &bty,
                                        name,
                                        (fuel - 1) as u64,
                                    );
                                    match found {
                                        Some(ft) => (st, ft),
                                        None => if crate::subst::is_var_spec(
                                            &crate::unify::shallow_spec(st, &bty, DEPTH_LIMIT),
                                        ) {
                                            defer_field_spec(st, node, bty, (*name))
                                        } else {
                                            no_such_field_spec(st, env, node, &bty, name)
                                        },
                                    }
                                },
                            }
                        }
                    },
                }
            },
        }
    }
}

/// [`Inferer::infer_tuple_index`], as a mathematical function.
pub open spec fn infer_tuple_index_spec(
    st: InfererV,
    env: &InferCx,
    node: NodeId,
    base: NodeId,
    index: u64,
    fuel: u64,
) -> (InfererV, Ty)
    decreases fuel,
{
    if fuel == 0 {
        (crate::unify::give_up_spec(st), Ty::Error)
    } else {
        let (st, bty) = infer_expr_spec(st, env, base, (fuel - 1) as u64);
        match crate::unify::autoderef_spec(st, &bty, DEPTH_LIMIT) {
            Ty::Tuple(elems) => {
                match crate::list::nth_spec(&elems, index) {
                    Some(t) => {
                        (st, (*t))
                    },
                    None => {
                        let st = crate::unify::report_spec(
                            st,
                            env,
                            node,
                            crate::list::list5_spec(
                                Part::Text("index "),
                                Part::Num(index),
                                Part::Text(" is out of range for a tuple of "),
                                Part::Num(crate::list::list_len_spec(&elems)),
                                Part::Text(" element(s)"),
                            ),
                        );
                        (st, Ty::Error)
                    },
                }
            },
            _ => {
                let name = crate::symbol::index_sym_spec(index);
                let (st, found) = crate::types::field_ty_at_spec(
                    st,
                    env,
                    Some(node),
                    &bty,
                    &name,
                    (fuel - 1) as u64,
                );
                match found {
                    Some(ft) => (st, ft),
                    None => if crate::subst::is_var_spec(&crate::unify::shallow_spec(st, &bty, DEPTH_LIMIT)) {
                        defer_field_spec(st, node, bty, name)
                    } else {
                        no_such_field_spec(st, env, node, &bty, &name)
                    },
                }
            },
        }
    }
}

/// [`Inferer::no_such_field`], as a mathematical function.
pub open spec fn no_such_field_spec(
    st: InfererV,
    env: &InferCx,
    node: NodeId,
    base: &Ty,
    name: &Symbol,
) -> (InfererV, Ty) {
    let b = crate::unify::resolve_spec(st, base, DEPTH_LIMIT);
    let st = if !crate::subst::is_error_spec(&b) && !crate::subst::is_var_spec(&b) {
        let st = crate::unify::report_spec(
            st,
            env,
            node,
            crate::list::list5_spec(
                Part::Text("no field `"),
                Part::Name((*name)),
                Part::Text("` on `"),
                Part::Ty(b),
                Part::Text("`"),
            ),
        );
        st
    } else {
        st
    };
    (st, Ty::Error)
}

/// [`Inferer::infer_field_inits`], as a mathematical function.
pub open spec fn infer_field_inits_spec(st: InfererV, env: &InferCx, l: &List<NodeId>, fuel: u64) -> InfererV
    decreases fuel, l,
{
    if fuel == 0 {
        crate::unify::give_up_spec(st)
    } else {
        match l {
            List::Nil => {
                st
            },
            List::Cons(f, rest) => {
                let st = match crate::def::kind_of_spec(env.tables, st.file, *f) {
                    Some(NodeKind::FieldInit { name: _, value }) => {
                        let st = infer_expr_spec(st, env, *value, (fuel - 1) as u64).0;
                        st
                    },
                    _ => {
                        st
                    },
                };
                let st = infer_field_inits_spec(st, env, rest, fuel);
                st
            },
        }
    }
}

/// [`Inferer::infer_composite_elems`], as a mathematical function.
pub open spec fn infer_composite_elems_spec(
    st: InfererV,
    env: &InferCx,
    body: &CompositeBody,
    fuel: u64,
) -> InfererV
    decreases fuel,
{
    if fuel == 0 {
        crate::unify::give_up_spec(st)
    } else {
        match body {
            CompositeBody::Named { fields, spread } => {
                let st = infer_field_inits_spec(st, env, fields, (fuel - 1) as u64);
                match spread {
                    Some(s) => {
                        let st = infer_expr_spec(st, env, *s, (fuel - 1) as u64).0;
                        st
                    },
                    None => {
                        st
                    },
                }
            },
            CompositeBody::Positional(elems) => {
                let st = infer_exprs_spec(st, env, elems, (fuel - 1) as u64).0;
                st
            },
            CompositeBody::Repeat { value, count } => {
                let st = infer_expr_spec(st, env, *value, (fuel - 1) as u64).0;
                let st = infer_expr_spec(st, env, *count, (fuel - 1) as u64).0;
                st
            },
        }
    }
}

/// [`Inferer::record_arg_tys`], as a mathematical function.
pub open spec fn record_arg_tys_spec(
    st: InfererV,
    env: &InferCx,
    l: &List<NodeId>,
    fuel: u64,
) -> (InfererV, List<(Option<Symbol>, Ty)>)
    decreases fuel, l,
{
    if fuel == 0 {
        (crate::unify::give_up_spec(st), List::Nil)
    } else {
        match l {
            List::Nil => (st, List::Nil),
            List::Cons(f, rest) => {
                let (st, first) = match crate::def::kind_of_spec(env.tables, st.file, *f) {
                    Some(NodeKind::FieldInit { name, value }) => {
                        let (st, t) = infer_expr_spec(st, env, *value, (fuel - 1) as u64);
                        (st, (Some((*name)), t))
                    },
                    _ => {
                        let (st, t) = infer_expr_spec(st, env, *f, (fuel - 1) as u64);
                        (st, (None, t))
                    },
                };
                let (st, others) = record_arg_tys_spec(st, env, rest, fuel);
                (st, List::Cons(first, Box::new(others)))
            },
        }
    }
}

/// [`unnamed`], as a mathematical function.
pub open spec fn unnamed_spec(l: List<Ty>) -> List<(Option<Symbol>, Ty)>
    decreases l,
{
    match l {
        List::Nil => List::Nil,
        List::Cons(h, t) => List::Cons((None, h), Box::new(unnamed_spec(*t))),
    }
}

/// Types without names.
pub fn unnamed(l: List<Ty>) -> (r: List<(Option<Symbol>, Ty)>)
    ensures
        r == unnamed_spec(l),
    decreases l,
{
    match l {
        List::Nil => List::Nil,
        List::Cons(h, t) => List::Cons((None, h), Box::new(unnamed(*t))),
    }
}

/// [`Inferer::variant_lit_arg_tys`], as a mathematical function.
pub open spec fn variant_lit_arg_tys_spec(
    st: InfererV,
    env: &InferCx,
    args: &VariantArgs,
    fuel: u64,
) -> (InfererV, List<(Option<Symbol>, Ty)>)
    decreases fuel,
{
    if fuel == 0 {
        (crate::unify::give_up_spec(st), List::Nil)
    } else {
        match args {
            VariantArgs::Unit => (st, List::Nil),
            VariantArgs::Tuple(ids) => {
                let (st, l) = infer_exprs_spec(st, env, ids, (fuel - 1) as u64);
                (st, unnamed_spec(l))
            },
            VariantArgs::Record(ids) => record_arg_tys_spec(st, env, ids, (fuel - 1) as u64),
        }
    }
}

/// [`Inferer::infer_caller_location`], as a mathematical function.
pub open spec fn infer_caller_location_spec(st: InfererV, env: &InferCx, node: NodeId) -> (InfererV, Ty) {
    if !st.in_default {
        let st = crate::unify::report_spec(
            st,
            env,
            node,
            crate::diag::say_spec(
                "`#caller_location` is only a default argument — write it as `loc: Location := #caller_location` on the parameter that receives it",
            ),
        );
        (st, Ty::Error)
    } else {
        match crate::def::lang_ty_spec(env.tables, "location") {
            Some(t) => (st, t),
            None => {
                let st = crate::unify::report_spec(
                    st,
                    env,
                    node,
                    crate::diag::say_spec("`#caller_location` requires the `#lang(\"location\")` item"),
                );
                (st, Ty::Error)
            },
        }
    }
}

/// [`Inferer::lit_ty`], as a mathematical function.
pub open spec fn lit_ty_spec(st: InfererV, env: &InferCx, lit: &Lit) -> (InfererV, Ty) {
    match lit {
        Lit::Int(_) => crate::unify::fresh_of_spec(st, TyVarKind::Int),
        Lit::Float(_) => crate::unify::fresh_of_spec(st, TyVarKind::Float),
        Lit::Str(_) => match crate::def::lang_item_spec(env.tables, "str") {
            Some(_) => crate::unify::fresh_of_spec(st, TyVarKind::Str),
            None => (st, Ty::Error),
        },
        Lit::Bytes(_) => (
            st,
            Ty::Slice { mutable: false, inner: Box::new(crate::ty::int_ty_spec(8, false)) },
        ),
        Lit::Char(_) => (st, Ty::Char),
        Lit::Bool(_) => (st, Ty::Bool),
    }
}

// Statements.

/// [`Inferer::infer_stmts`], as a mathematical function.
pub open spec fn infer_stmts_spec(st: InfererV, env: &InferCx, l: &List<NodeId>, fuel: u64) -> InfererV
    decreases fuel, l,
{
    if fuel == 0 {
        crate::unify::give_up_spec(st)
    } else {
        match l {
            List::Nil => {
                st
            },
            List::Cons(h, t) => {
                let st = infer_stmt_spec(st, env, *h, (fuel - 1) as u64);
                let st = infer_stmts_spec(st, env, t, fuel);
                st
            },
        }
    }
}

/// [`Inferer::infer_stmt`], as a mathematical function.
pub open spec fn infer_stmt_spec(st: InfererV, env: &InferCx, node: NodeId, fuel: u64) -> InfererV
    decreases fuel,
{
    if fuel == 0 {
        crate::unify::give_up_spec(st)
    } else {
        match crate::def::kind_of_spec(env.tables, st.file, node) {
            Some(NodeKind::LocalDecl { pattern, ty, value }) => {
                let st = infer_local_decl_spec(st, env, *pattern, *ty, *value, (fuel - 1) as u64);
                st
            },
            Some(NodeKind::ConstBind { pattern, rhs }) => {
                let st = infer_const_bind_spec(st, env, *pattern, *rhs, (fuel - 1) as u64);
                st
            },
            Some(NodeKind::Assign { place, value }) => {
                let st = infer_assign_spec(st, env, *place, *value, (fuel - 1) as u64);
                st
            },
            Some(NodeKind::Return { value }) => {
                let st = infer_return_spec(st, env, node, *value, (fuel - 1) as u64);
                st
            },
            Some(NodeKind::Break { value }) => {
                let st = infer_break_spec(st, env, node, *value, (fuel - 1) as u64);
                st
            },
            Some(NodeKind::Defer { body }) => {
                let st = infer_expr_spec(st, env, *body, (fuel - 1) as u64).0;
                st
            },
            Some(NodeKind::Continue) => {
                if top_break_spec(st).is_none() {
                    let st = crate::unify::report_spec(
                        st,
                        env,
                        node,
                        crate::diag::say_spec("`continue` outside of a loop"),
                    );
                    st
                } else {
                    st
                }
            },
            _ => {
                let st = infer_expr_spec(st, env, node, (fuel - 1) as u64).0;
                st
            },
        }
    }
}

/// [`Inferer::infer_local_decl`], as a mathematical function.
pub open spec fn infer_local_decl_spec(
    st: InfererV,
    env: &InferCx,
    pattern: NodeId,
    ty: Option<NodeId>,
    value: NodeId,
    fuel: u64,
) -> InfererV
    decreases fuel,
{
    if fuel == 0 {
        crate::unify::give_up_spec(st)
    } else {
        let (st, vty) = infer_expr_spec(st, env, value, (fuel - 1) as u64);
        let (st, bound) = match ty {
            Some(t) => {
                let (st, ann) = crate::types::ty_from_node_spec(st, env, t, (fuel - 1) as u64);
                let st = crate::coerce::expect_spec(st, env, value, &vty, &ann, (fuel - 1) as u64);
                (st, ann)
            },
            None => {
                let st = if crate::subst::is_var_spec(&crate::unify::shallow_spec(st, &vty, DEPTH_LIMIT)) {
                    let st = crate::solve::solve_to_fixpoint_spec(st, env, (fuel - 1) as u64);
                    let st = crate::solve::default_anon_structs_spec(st, env, (fuel - 1) as u64).0;
                    st
                } else {
                    st
                };
                (st, vty)
            },
        };
        let st = crate::coerce::bind_pattern_spec(st, env, pattern, &bound, (fuel - 1) as u64);
        st
    }
}

/// [`Inferer::infer_const_bind`], as a mathematical function.
pub open spec fn infer_const_bind_spec(
    st: InfererV,
    env: &InferCx,
    pattern: NodeId,
    rhs: NodeId,
    fuel: u64,
) -> InfererV
    decreases fuel,
{
    if fuel == 0 {
        crate::unify::give_up_spec(st)
    } else {
        let (st, vty) = match crate::def::kind_of_spec(env.tables, st.file, rhs) {
            Some(NodeKind::AssocConst { ty, default }) => infer_typed_const_spec(
                st,
                env,
                *ty,
                *default,
                (fuel - 1) as u64,
            ),
            _ => infer_expr_spec(st, env, rhs, (fuel - 1) as u64),
        };
        let st = crate::coerce::bind_pattern_spec(st, env, pattern, &vty, (fuel - 1) as u64);
        st
    }
}

/// [`Inferer::infer_assign`], as a mathematical function.
pub open spec fn infer_assign_spec(
    st: InfererV,
    env: &InferCx,
    place: NodeId,
    value: NodeId,
    fuel: u64,
) -> InfererV
    decreases fuel,
{
    if fuel == 0 {
        crate::unify::give_up_spec(st)
    } else {
        let (st, pty) = infer_index_place_spec(st, env, place, (fuel - 1) as u64);
        let (st, vty) = infer_expr_spec(st, env, value, (fuel - 1) as u64);
        let st = crate::coerce::expect_spec(st, env, value, &vty, &pty, (fuel - 1) as u64);
        st
    }
}

/// [`Inferer::infer_return`], as a mathematical function.
pub open spec fn infer_return_spec(
    st: InfererV,
    env: &InferCx,
    node: NodeId,
    value: Option<NodeId>,
    fuel: u64,
) -> InfererV
    decreases fuel,
{
    if fuel == 0 {
        crate::unify::give_up_spec(st)
    } else {
        let (st, vty) = infer_opt_expr_spec(st, env, value, (fuel - 1) as u64);
        let ret = st.ret;
        let st = crate::coerce::expect_return_spec(
            st,
            env,
            opt_node_spec(value, node),
            &vty,
            &ret,
            (fuel - 1) as u64,
        );
        st
    }
}

/// [`Inferer::infer_break`], as a mathematical function.
pub open spec fn infer_break_spec(
    st: InfererV,
    env: &InferCx,
    node: NodeId,
    value: Option<NodeId>,
    fuel: u64,
) -> InfererV
    decreases fuel,
{
    if fuel == 0 {
        crate::unify::give_up_spec(st)
    } else {
        let (st, vty) = infer_opt_expr_spec(st, env, value, (fuel - 1) as u64);
        match top_break_spec(st) {
            Some(frame) => {
                let st = crate::unify::mark_broke_spec(st);
                let st = crate::coerce::expect_spec(
                    st,
                    env,
                    opt_node_spec(value, node),
                    &vty,
                    &frame.ty,
                    (fuel - 1) as u64,
                );
                st
            },
            None => {
                let st = crate::unify::report_spec(
                    st,
                    env,
                    node,
                    crate::diag::say_spec("`break` outside of a loop"),
                );
                st
            },
        }
    }
}

/// [`Inferer::infer_typed_const`], as a mathematical function.
pub open spec fn infer_typed_const_spec(
    st: InfererV,
    env: &InferCx,
    ty: NodeId,
    default: Option<NodeId>,
    fuel: u64,
) -> (InfererV, Ty)
    decreases fuel,
{
    if fuel == 0 {
        (crate::unify::give_up_spec(st), Ty::Error)
    } else {
        let (st, want) = crate::types::ty_from_node_spec(st, env, ty, (fuel - 1) as u64);
        let st = match default {
            Some(d) => {
                let (st, got) = infer_expr_spec(st, env, d, (fuel - 1) as u64);
                let st = crate::coerce::expect_spec(st, env, d, &got, &want, (fuel - 1) as u64);
                st
            },
            None => {
                st
            },
        };
        (st, want)
    }
}

/// [`opt_node`], as a mathematical function.
pub open spec fn opt_node_spec(o: Option<NodeId>, other: NodeId) -> NodeId {
    match o {
        Some(n) => n,
        None => other,
    }
}

/// A node that may be absent, or another.
pub fn opt_node(o: Option<NodeId>, other: NodeId) -> (r: NodeId)
    ensures
        r == opt_node_spec(o, other),
{
    match o {
        Some(n) => n,
        None => other,
    }
}

/// [`Inferer::diverges`], as a mathematical function.
pub open spec fn diverges_spec(st: InfererV, env: &InferCx, node: NodeId) -> bool {
    match crate::def::kind_of_spec(env.tables, st.file, node) {
        Some(NodeKind::Return { .. }) => true,
        Some(NodeKind::Break { .. }) => true,
        Some(NodeKind::Continue) => true,
        Some(NodeKind::Call { .. }) => match crate::unify::get_type_spec(st, node) {
            Some(Ty::Never) => true,
            _ => false,
        },
        _ => false,
    }
}

// Operators.

/// [`Inferer::infer_unary`], as a mathematical function.
pub open spec fn infer_unary_spec(
    st: InfererV,
    env: &InferCx,
    node: NodeId,
    op: UnOp,
    operand: NodeId,
    fuel: u64,
) -> (InfererV, Ty)
    decreases fuel,
{
    if fuel == 0 {
        (crate::unify::give_up_spec(st), Ty::Error)
    } else {
        let (st, oty) = infer_expr_spec(st, env, operand, (fuel - 1) as u64);
        match op {
            UnOp::Ref => (st, Ty::Ptr { mutable: false, inner: Box::new(oty) }),
            UnOp::RefMut => (st, Ty::Ptr { mutable: true, inner: Box::new(oty) }),
            UnOp::Neg => {
                let st = match crate::unify::get_int_spec(st, operand) {
                    Some(v) => {
                        let st = crate::unify::set_int_spec(st, operand, crate::bigint::int_neg_spec(&v));
                        st
                    },
                    None => {
                        st
                    },
                };
                let st = match crate::unify::get_float_spec(st, operand) {
                    Some(b) => {
                        let st = crate::unify::set_float_spec(st, operand, b ^ 0x8000_0000_0000_0000u64);
                        st
                    },
                    None => {
                        st
                    },
                };
                infer_prefix_op_spec(st, env, node, "neg", oty)
            },
            UnOp::BitNot => infer_prefix_op_spec(st, env, node, "bitnot", oty),
            UnOp::Not => {
                let st = crate::coerce::expect_spec(st, env, operand, &oty, &Ty::Bool, (fuel - 1) as u64);
                (st, Ty::Bool)
            },
        }
    }
}

/// [`is_nominal`], as a mathematical function.
pub open spec fn is_nominal_spec(ty: &Ty) -> bool {
    match ty {
        Ty::Nominal { .. } => true,
        _ => false,
    }
}

/// Whether a type names a definition.
pub fn is_nominal(ty: &Ty) -> (r: bool)
    ensures
        r == is_nominal_spec(ty),
{
    match ty {
        Ty::Nominal { .. } => true,
        _ => false,
    }
}

/// [`Inferer::project_output`], as a mathematical function.
pub open spec fn project_output_spec(
    st: InfererV,
    node: NodeId,
    self_ty: Ty,
    trait_def: DefId,
    args: List<Ty>,
    out: Ty,
    method: Symbol,
) -> (InfererV, Ty) {
    let st = crate::unify::register_spec(
        st,
        Obligation::Projection {
            self_ty: self_ty,
            trait_def: trait_def,
            args: args,
            assoc: crate::symbol::sym_spec("Output"),
            out: out,
            origin: node,
            method: Some(method),
        },
    );
    (st, out)
}

/// [`Inferer::infer_prefix_op`], as a mathematical function.
pub open spec fn infer_prefix_op_spec(
    st: InfererV,
    env: &InferCx,
    node: NodeId,
    tag: &'static str,
    oty: Ty,
) -> (InfererV, Ty) {
    match crate::def::lang_def_spec(env.tables, tag) {
        Some(trait_def) => {
            let (st, out) = crate::unify::fresh_spec(st);
            let st = if !is_nominal_spec(&crate::unify::shallow_spec(st, &oty, DEPTH_LIMIT)) {
                let (st, _clash) = crate::unify::unify_spec(st, &out, &oty, DEPTH_LIMIT);
                st
            } else {
                st
            };
            project_output_spec(st, node, oty, trait_def, List::Nil, out, crate::symbol::sym_spec(tag))
        },
        _ => {
            (st, oty)
        },
    }
}

/// [`Inferer::infer_index_place`], as a mathematical function.
pub open spec fn infer_index_place_spec(
    st: InfererV,
    env: &InferCx,
    place: NodeId,
    fuel: u64,
) -> (InfererV, Ty)
    decreases fuel,
{
    if fuel == 0 {
        (crate::unify::give_up_spec(st), Ty::Error)
    } else {
        match crate::def::kind_of_spec(env.tables, st.file, place) {
            Some(NodeKind::Index { base, index }) => {
                let (st, bty) = infer_expr_spec(st, env, *base, (fuel - 1) as u64);
                let (st, ity) = infer_expr_spec(st, env, *index, (fuel - 1) as u64);
                let (st, bty) = crate::solve::settle_spec(st, env, &bty, (fuel - 1) as u64);
                let head = crate::unify::autoderef_spec(st, &bty, DEPTH_LIMIT);
                if crate::subst::is_error_spec(&head) {
                    let st = crate::unify::set_type_spec(st, place, Ty::Error);
                    (st, Ty::Error)
                } else {
                    if crate::subst::has_len_spec(&head) {
                        let st = crate::unify::set_index_write_spec(st, st.file, place, IndexWrite);
                        let (st, out) = infer_index_op_spec(st, env, place, head, ity);
                        let st = crate::unify::set_type_spec(st, place, out);
                        (st, out)
                    } else {
                        match crate::def::lang_def_spec(env.tables, "index_mut") {
                            Some(trait_def) => {
                                let (st, out) = crate::unify::fresh_spec(st);
                                let (st, out) = project_output_spec(
                                    st,
                                    place,
                                    head,
                                    trait_def,
                                    crate::list::single_spec(ity),
                                    out,
                                    crate::symbol::sym_spec("index_mut"),
                                );
                                let st = crate::unify::set_type_spec(st, place, out);
                                (st, out)
                            },
                            _ => {
                                (st, Ty::Error)
                            },
                        }
                    }
                }
            },
            _ => {
                infer_expr_spec(st, env, place, (fuel - 1) as u64)
            },
        }
    }
}

/// [`Inferer::infer_index_op`], as a mathematical function.
pub open spec fn infer_index_op_spec(
    st: InfererV,
    env: &InferCx,
    node: NodeId,
    base: Ty,
    index: Ty,
) -> (InfererV, Ty) {
    if crate::subst::is_error_spec(&base) {
        (st, Ty::Error)
    } else {
        match crate::def::lang_def_spec(env.tables, "index") {
            Some(trait_def) => {
                let (st, out) = crate::unify::fresh_spec(st);
                project_output_spec(
                    st,
                    node,
                    base,
                    trait_def,
                    crate::list::single_spec(index),
                    out,
                    crate::symbol::sym_spec("index"),
                )
            },
            _ => {
                (st, Ty::Error)
            },
        }
    }
}

/// [`Inferer::infer_binary`], as a mathematical function.
pub open spec fn infer_binary_spec(
    st: InfererV,
    env: &InferCx,
    node: NodeId,
    op: BinOp,
    lhs: NodeId,
    rhs: NodeId,
    fuel: u64,
) -> (InfererV, Ty)
    decreases fuel,
{
    if fuel == 0 {
        (crate::unify::give_up_spec(st), Ty::Error)
    } else {
        let (st, lty) = infer_expr_spec(st, env, lhs, (fuel - 1) as u64);
        let (st, rty) = infer_expr_spec(st, env, rhs, (fuel - 1) as u64);
        let (st, lty) = crate::unify::pin_str_spec(st, &lty);
        let (st, rty) = crate::unify::pin_str_spec(st, &rty);
        if op == BinOp::And || op == BinOp::Or {
            let st = crate::coerce::expect_spec(st, env, lhs, &lty, &Ty::Bool, (fuel - 1) as u64);
            let st = crate::coerce::expect_spec(st, env, rhs, &rty, &Ty::Bool, (fuel - 1) as u64);
            (st, Ty::Bool)
        } else if crate::lower::is_comparison_spec(op) {
            let st = crate::coerce::expect_spec(st, env, rhs, &rty, &lty, (fuel - 1) as u64);
            let st = check_order_bound_spec(st, env, node, op, &lty);
            (st, Ty::Bool)
        } else {
            infer_arith_op_spec(st, env, node, op, lty, rty, (fuel - 1) as u64)
        }
    }
}

/// [`Inferer::check_order_bound`], as a mathematical function.
pub open spec fn check_order_bound_spec(
    st: InfererV,
    env: &InferCx,
    node: NodeId,
    op: BinOp,
    lty: &Ty,
) -> InfererV {
    let s = crate::unify::shallow_spec(st, lty, DEPTH_LIMIT);
    if crate::subst::is_var_spec(&s) {
        let st = crate::unify::register_spec(
            st,
            Obligation::Comparison { self_ty: (*lty), op: op, origin: node },
        );
        st
    } else if is_nominal_spec(&s) && !crate::types::is_ptr_sized_spec(env.tables, &s) {
        let equality = op == BinOp::Eq || op == BinOp::Ne;
        let tag: &'static str = if equality {
            "eq"
        } else {
            "ord"
        };
        let method: &'static str = if equality {
            "eq"
        } else {
            "cmp"
        };
        match crate::def::lang_def_spec(env.tables, tag) {
            Some(trait_def) => {
                let st = crate::unify::register_spec(
                    st,
                    Obligation::Trait {
                        self_ty: (*lty),
                        trait_def: trait_def,
                        args: List::Nil,
                        origin: node,
                        stamp: Some(crate::symbol::sym_spec(method)),
                    },
                );
                st
            },
            None => {
                st
            },
        }
    } else {
        st
    }
}

/// [`binop_lang`], as a mathematical function.
pub open spec fn binop_lang_spec(op: BinOp) -> &'static str {
    match op {
        BinOp::Add => "add",
        BinOp::Sub => "sub",
        BinOp::Mul => "mul",
        BinOp::Div => "div",
        BinOp::Rem => "rem",
        BinOp::BitAnd => "bitand",
        BinOp::BitOr => "bitor",
        BinOp::BitXor => "bitxor",
        BinOp::Shl => "shl",
        BinOp::Shr => "shr",
        _ => "",
    }
}

/// The tag of the trait an arithmetic operator dispatches to, which is also the
/// name of its method.
pub fn binop_lang(op: BinOp) -> (r: &'static str)
    ensures
        r == binop_lang_spec(op),
{
    match op {
        BinOp::Add => "add",
        BinOp::Sub => "sub",
        BinOp::Mul => "mul",
        BinOp::Div => "div",
        BinOp::Rem => "rem",
        BinOp::BitAnd => "bitand",
        BinOp::BitOr => "bitor",
        BinOp::BitXor => "bitxor",
        BinOp::Shl => "shl",
        BinOp::Shr => "shr",
        _ => "",
    }
}

/// [`binop_method`], as a mathematical function.
pub open spec fn binop_method_spec(op: BinOp) -> &'static str {
    binop_lang_spec(op)
}

/// The trait method an arithmetic operator calls.
pub fn binop_method(op: BinOp) -> (r: &'static str)
    ensures
        r == binop_method_spec(op),
{
    binop_lang(op)
}

/// [`Inferer::infer_arith_op`], as a mathematical function.
pub open spec fn infer_arith_op_spec(
    st: InfererV,
    env: &InferCx,
    node: NodeId,
    op: BinOp,
    lty: Ty,
    rty: Ty,
    fuel: u64,
) -> (InfererV, Ty)
    decreases fuel,
{
    if fuel == 0 {
        (crate::unify::give_up_spec(st), Ty::Error)
    } else {
        match crate::def::lang_def_spec(env.tables, binop_lang_spec(op)) {
            Some(trait_def) => {
                let (st, out) = crate::unify::fresh_spec(st);
                let l = crate::unify::shallow_spec(st, &lty, DEPTH_LIMIT);
                let st = if !is_nominal_spec(&l)
                    || crate::unify::numeric_distinct_repr_spec(st, &l).is_some() {
                    let st = crate::coerce::expect_spec(st, env, node, &rty, &lty, (fuel - 1) as u64);
                    let (st, _clash) = crate::unify::unify_spec(st, &out, &lty, (fuel - 1) as u64);
                    st
                } else {
                    st
                };
                project_output_spec(
                    st,
                    node,
                    lty,
                    trait_def,
                    crate::list::single_spec(rty),
                    out,
                    crate::symbol::sym_spec(binop_method_spec(op)),
                )
            },
            _ => {
                let st = crate::coerce::expect_spec(st, env, node, &rty, &lty, (fuel - 1) as u64);
                (st, lty)
            },
        }
    }
}

// Names.

/// [`Inferer::path_ty`], as a mathematical function.
pub open spec fn path_ty_spec(st: InfererV, env: &InferCx, node: NodeId, fuel: u64) -> (InfererV, Ty)
    decreases fuel,
{
    if fuel == 0 {
        (crate::unify::give_up_spec(st), Ty::Error)
    } else {
        match crate::decls::resolved_def_spec(st, env, node) {
            Some(def) => def_ty_spec(st, env, node, def, (fuel - 1) as u64),
            None => (st, Ty::Error),
        }
    }
}

/// [`is_c_variadic`], as a mathematical function.
pub open spec fn is_c_variadic_spec(t: &Tables, d: DefId) -> bool {
    match crate::def::get_def_spec(t, d) {
        Some(def) => def.c_variadic,
        None => false,
    }
}

/// Whether a definition is a C function with a variadic tail.
pub fn is_c_variadic(t: &Tables, d: DefId) -> (r: bool)
    ensures
        r == is_c_variadic_spec(t, d),
{
    match get_def(t, d) {
        Some(def) => def.c_variadic,
        None => false,
    }
}

/// [`Inferer::def_ty`], as a mathematical function.
pub open spec fn def_ty_spec(
    st: InfererV,
    env: &InferCx,
    node: NodeId,
    def: DefId,
    fuel: u64,
) -> (InfererV, Ty)
    decreases fuel,
{
    if fuel == 0 {
        (crate::unify::give_up_spec(st), Ty::Error)
    } else {
        match crate::unify::get_local_spec(st, def) {
            Some(ty) => {
                (st, ty)
            },
            None => {
                match crate::def::def_kind_spec(env.tables, def) {
                    DefKind::Func => if is_c_variadic_spec(env.tables, def) {
                        let st = crate::unify::report_with_note_spec(
                            st,
                            env,
                            node,
                            crate::diag::say_name_spec(
                                "`",
                                &crate::def::def_name_spec(env.tables, def),
                                "` is `#c_vararg` and can only be called, not used as a value",
                            ),
                            crate::diag::say_spec(
                                "a variadic tail is part of the calling convention, and a function pointer does not carry one",
                            ),
                        );
                        (st, Ty::Error)
                    } else {
                        crate::types::func_def_ty_spec(st, env, def, (fuel - 1) as u64)
                    },
                    DefKind::Overload => {
                        let st = crate::unify::report_with_note_spec(
                            st,
                            env,
                            node,
                            crate::diag::say_name_spec(
                                "`",
                                &crate::def::def_name_spec(env.tables, def),
                                "` is an overload set, which can only be called",
                            ),
                            crate::diag::say_spec(
                                "which of its functions is meant is decided by the arguments of a call; name the one you want instead",
                            ),
                        );
                        (st, Ty::Error)
                    },
                    DefKind::Struct => crate::types::nominal_of_spec(st, env, def),
                    DefKind::Enum => crate::types::nominal_of_spec(st, env, def),
                    DefKind::Const => const_def_ty_spec(st, env, node, def, (fuel - 1) as u64),
                    DefKind::ConstParam => crate::types::const_param_ty_spec(st, env, def, (fuel - 1) as u64),
                    DefKind::External => (st, Ty::Error),
                    DefKind::Namespace => not_a_value_spec(st, env, node, def, DefKind::Namespace),
                    DefKind::Trait => not_a_value_spec(st, env, node, def, DefKind::Trait),
                    _ => crate::unify::fresh_spec(st),
                }
            },
        }
    }
}

/// [`Inferer::not_a_value`], as a mathematical function.
pub open spec fn not_a_value_spec(
    st: InfererV,
    env: &InferCx,
    node: NodeId,
    def: DefId,
    kind: DefKind,
) -> (InfererV, Ty) {
    let st = crate::unify::report_spec(
        st,
        env,
        node,
        crate::list::list5_spec(
            Part::Text("`"),
            Part::Name(crate::types::written_path_in_spec(env.tables, st.file, node, def, DEPTH_LIMIT)),
            Part::Text("` is a "),
            Part::Text(crate::diag::kind_label_spec(kind)),
            Part::Text(", not a value"),
        ),
    );
    (st, Ty::Error)
}

/// [`Inferer::const_def_ty`], as a mathematical function.
pub open spec fn const_def_ty_spec(
    st: InfererV,
    env: &InferCx,
    node: NodeId,
    def: DefId,
    fuel: u64,
) -> (InfererV, Ty)
    decreases fuel,
{
    if fuel == 0 {
        (crate::unify::give_up_spec(st), Ty::Error)
    } else {
        if crate::def::def_in_spec(&st.const_stack, def) {
            (st, Ty::Error)
        } else {
            match crate::decls::recorded_const_ty_spec(env.tables, def) {
                Some(shape) => {
                    let st = crate::unify::push_const_def_spec(st, def);
                    let (st, ty) = const_shape_ty_spec(st, env, node, shape, (fuel - 1) as u64);
                    let st = crate::unify::pop_const_def_spec(st);
                    (st, ty)
                },
                None => {
                    match crate::def::def_place_spec(env.tables, def) {
                        Some((file, at)) => {
                            match crate::def::kind_of_spec(env.tables, file, at) {
                                Some(NodeKind::ConstBind { pattern: _, rhs }) => {
                                    let st = crate::unify::push_const_def_spec(st, def);
                                    let (st, ty) = const_rhs_ty_spec(
                                        st,
                                        env,
                                        file,
                                        at,
                                        *rhs,
                                        (fuel - 1) as u64,
                                    );
                                    let st = crate::unify::pop_const_def_spec(st);
                                    (st, ty)
                                },
                                _ => {
                                    crate::unify::fresh_spec(st)
                                },
                            }
                        },
                        _ => {
                            crate::unify::fresh_spec(st)
                        },
                    }
                },
            }
        }
    }
}

/// [`Inferer::const_shape_ty`], as a mathematical function.
pub open spec fn const_shape_ty_spec(
    st: InfererV,
    env: &InferCx,
    node: NodeId,
    shape: ConstTy,
    fuel: u64,
) -> (InfererV, Ty)
    decreases fuel,
{
    if fuel == 0 {
        (crate::unify::give_up_spec(st), Ty::Error)
    } else {
        match shape {
            ConstTy::ComptimeInt => crate::unify::fresh_of_spec(st, TyVarKind::Int),
            ConstTy::ComptimeFloat => crate::unify::fresh_of_spec(st, TyVarKind::Float),
            ConstTy::ComptimeStr => match crate::def::lang_item_spec(env.tables, "str") {
                Some(_) => crate::unify::fresh_of_spec(st, TyVarKind::Str),
                None => (st, Ty::Error),
            },
            ConstTy::Same(other) => def_ty_spec(st, env, node, other, (fuel - 1) as u64),
            ConstTy::Settled(ty) => (st, ty),
        }
    }
}

/// [`Inferer::const_rhs_ty`], as a mathematical function.
pub open spec fn const_rhs_ty_spec(
    st: InfererV,
    env: &InferCx,
    file: FileId,
    node: NodeId,
    rhs: NodeId,
    fuel: u64,
) -> (InfererV, Ty)
    decreases fuel,
{
    if fuel == 0 {
        (crate::unify::give_up_spec(st), Ty::Error)
    } else {
        match crate::def::kind_of_spec(env.tables, file, rhs) {
            Some(NodeKind::Lit(l)) => lit_ty_spec(st, env, l),
            Some(NodeKind::Unary { op: UnOp::Neg, operand }) => const_rhs_ty_spec(
                st,
                env,
                file,
                node,
                *operand,
                (fuel - 1) as u64,
            ),
            Some(NodeKind::Path { .. }) => match crate::decls::resolved_def_in_spec(st, env, file, rhs) {
                Some(d) => def_ty_spec(st, env, rhs, d, (fuel - 1) as u64),
                None => (st, Ty::Error),
            },
            Some(
                NodeKind::AssocConst { ty, default: _ },
            ) => crate::types::ty_from_node_in_spec(st, env, file, *ty, (fuel - 1) as u64),
            _ => if file == st.file {
                infer_expr_spec(st, env, rhs, (fuel - 1) as u64)
            } else {
                match crate::unify::get_ty_spec(st, file, node) {
                    Some(t) => if crate::subst::mentions_spec(&t, Mention::Var)
                        || crate::subst::mentions_spec(&t, Mention::Error) {
                        crate::unify::fresh_spec(st)
                    } else {
                        (st, t)
                    },
                    None => crate::unify::fresh_spec(st),
                }
            },
        }
    }
}

/// [`denotes_type`], as a mathematical function.
pub open spec fn denotes_type_spec(k: DefKind) -> bool {
    match k {
        DefKind::Primitive => true,
        DefKind::Struct => true,
        DefKind::Enum => true,
        DefKind::TypeAlias => true,
        DefKind::TypeParam => true,
        DefKind::Const => true,
        _ => false,
    }
}

/// Whether a definition kind may be read as a type in an expression.
pub fn denotes_type(k: DefKind) -> (r: bool)
    ensures
        r == denotes_type_spec(k),
{
    match k {
        DefKind::Primitive => true,
        DefKind::Struct => true,
        DefKind::Enum => true,
        DefKind::TypeAlias => true,
        DefKind::TypeParam => true,
        DefKind::Const => true,
        _ => false,
    }
}

/// [`denoting_head`], as a mathematical function.
pub open spec fn denoting_head_spec(t: &Tables, file: FileId, node: NodeId) -> Option<NodeId> {
    match crate::def::kind_of_spec(t, file, node) {
        Some(NodeKind::GenericApply { base, args: _ }) => Some(*base),
        Some(NodeKind::Path { .. }) => Some(node),
        Some(NodeKind::FieldAccess { .. }) => Some(node),
        _ => None,
    }
}

/// The node that names what an expression denotes.
pub fn denoting_head(t: &Tables, file: FileId, node: NodeId) -> (r: Option<NodeId>)
    ensures
        r == denoting_head_spec(t, file, node),
{
    match kind_of(t, file, node) {
        Some(NodeKind::GenericApply { base, args: _ }) => Some(*base),
        Some(NodeKind::Path { .. }) => Some(node),
        Some(NodeKind::FieldAccess { .. }) => Some(node),
        _ => None,
    }
}

/// [`Inferer::type_denoted_by`], as a mathematical function.
pub open spec fn type_denoted_by_spec(
    st: InfererV,
    env: &InferCx,
    node: NodeId,
    fuel: u64,
) -> (InfererV, Option<Ty>)
    decreases fuel,
{
    if fuel == 0 {
        (crate::unify::give_up_spec(st), None)
    } else {
        match denoting_head_spec(env.tables, st.file, node) {
            Some(head) => {
                match crate::decls::resolved_def_spec(st, env, head) {
                    Some(named) => {
                        if !denotes_type_spec(
                            crate::def::def_kind_spec(
                                env.tables,
                                crate::def::resolve_alias_spec(env.tables, named),
                            ),
                        ) {
                            (st, None)
                        } else {
                            let (st, ty) = crate::types::ty_from_node_spec(st, env, node, (fuel - 1) as u64);
                            if crate::subst::is_error_spec(&ty)
                                || crate::subst::is_var_spec(&crate::unify::shallow_spec(st, &ty, DEPTH_LIMIT)) {
                                (st, None)
                            } else {
                                (st, Some(ty))
                            }
                        }
                    },
                    _ => {
                        (st, None)
                    },
                }
            },
            _ => {
                (st, None)
            },
        }
    }
}

/// [`trait_const`], as a mathematical function.
pub open spec fn trait_const_spec(t: &Tables, traits: &List<DefId>, name: &Symbol) -> Option<DefId>
    decreases traits,
{
    match traits {
        List::Nil => None,
        List::Cons(h, rest) => match crate::def::member_of_spec(t, *h, name) {
            Some(m) => if crate::def::def_kind_spec(
                t,
                crate::def::resolve_alias_spec(t, m),
            ) == DefKind::Const {
                Some(crate::def::resolve_alias_spec(t, m))
            } else {
                trait_const_spec(t, rest, name)
            },
            None => trait_const_spec(t, rest, name),
        },
    }
}

/// The first constant called `name` among some traits.
pub fn trait_const(t: &Tables, traits: &List<DefId>, name: &Symbol) -> (r: Option<DefId>)
    ensures
        r == trait_const_spec(t, traits, name),
    decreases traits,
{
    match traits {
        List::Nil => None,
        List::Cons(h, rest) => match member_of(t, *h, name) {
            Some(m) => if def_kind(t, resolve_alias(t, m)) == DefKind::Const {
                Some(resolve_alias(t, m))
            } else {
                trait_const(t, rest, name)
            },
            None => trait_const(t, rest, name),
        },
    }
}

/// [`type_param_of`], as a mathematical function.
pub open spec fn type_param_of_spec(t: &Tables, ty: &Ty) -> Option<DefId> {
    match ty {
        Ty::Nominal { def, args: _ } => if crate::def::def_kind_spec(t, *def) == DefKind::TypeParam {
            Some(*def)
        } else {
            None
        },
        _ => None,
    }
}

/// Whether a type is a type parameter, and which.
pub fn type_param_of(t: &Tables, ty: &Ty) -> (r: Option<DefId>)
    ensures
        r == type_param_of_spec(t, ty),
{
    match ty {
        Ty::Nominal { def, args: _ } => if def_kind(t, *def) == DefKind::TypeParam {
            Some(*def)
        } else {
            None
        },
        _ => None,
    }
}

/// [`Inferer::assoc_through_type`], as a mathematical function.
pub open spec fn assoc_through_type_spec(
    st: InfererV,
    env: &InferCx,
    node: NodeId,
    ty: &Ty,
    name: &Symbol,
    fuel: u64,
) -> (InfererV, Option<Ty>)
    decreases fuel,
{
    if fuel == 0 {
        (crate::unify::give_up_spec(st), None)
    } else {
        let s = crate::unify::shallow_spec(st, ty, DEPTH_LIMIT);
        match type_param_of_spec(env.tables, &s) {
            Some(def) => {
                match trait_const_spec(
                    env.tables,
                    &crate::types::param_bound_traits_spec(st, env, def),
                    name,
                ) {
                    Some(m) => {
                        let st = crate::unify::set_resolution_spec(st, st.file, node, Resolution::Def(m));
                        let (st, out) = def_ty_spec(st, env, node, m, (fuel - 1) as u64);
                        let st = crate::unify::set_assoc_ty_spec(st, st.file, node, AssocTy(out));
                        (st, Some(out))
                    },
                    None => (st, None),
                }
            },
            None => {
                let (st, direct) = impl_assoc_def_spec(st, env, &s, name, (fuel - 1) as u64);
                let (st, found) = match direct {
                    Some((i, m)) => (st, Some((s, i, m))),
                    None => {
                        let (st, repr) = crate::types::distinct_repr_spec(st, env, &s, (fuel - 1) as u64);
                        match repr {
                            Some(r) => {
                                let r = crate::unify::shallow_spec(st, &r, DEPTH_LIMIT);
                                let (st, inherited) = impl_assoc_def_spec(
                                    st,
                                    env,
                                    &r,
                                    name,
                                    (fuel - 1) as u64,
                                );
                                match inherited {
                                    Some((i, m)) => (st, Some((r, i, m))),
                                    None => (st, None),
                                }
                            },
                            None => (st, None),
                        }
                    },
                };
                match found {
                    Some((matched, i, m)) => {
                        let (st, map) = crate::solve::commit_impl_spec(
                            st,
                            env,
                            i,
                            &matched,
                            &List::Nil,
                            node,
                            (fuel - 1) as u64,
                        );
                        let st = crate::unify::set_resolution_spec(st, st.file, node, Resolution::Def(m));
                        let st = match crate::solve::get_impl_spec(env, i) {
                            Some(imp) => {
                                if !crate::list::is_empty_spec(&imp.generics) {
                                    let st = crate::unify::set_instantiation_spec(
                                        st,
                                        st.file,
                                        node,
                                        Instantiation(generic_args_spec(&imp.generics, &map)),
                                    );
                                    st
                                } else {
                                    st
                                }
                            },
                            None => {
                                st
                            },
                        };
                        let (st, raw) = def_ty_spec(st, env, node, m, (fuel - 1) as u64);
                        let out = crate::unify::resolve_spec(
                            st,
                            &crate::subst::subst_ty_spec(&raw, &map),
                            DEPTH_LIMIT,
                        );
                        let out = if crate::ty::ty_eq_spec(&out, &matched) {
                            (*ty)
                        } else {
                            out
                        };
                        let st = crate::unify::set_assoc_ty_spec(st, st.file, node, AssocTy(out));
                        (st, Some(out))
                    },
                    _ => {
                        (st, None)
                    },
                }
            },
        }
    }
}

/// [`generic_args`], as a mathematical function.
pub open spec fn generic_args_spec(l: &List<DefId>, map: &Subst) -> List<GenericArg>
    decreases l,
{
    match l {
        List::Nil => List::Nil,
        List::Cons(d, rest) => List::Cons(
            match crate::subst::find_const_spec(&map.consts, *d) {
                Some(k) => GenericArg::Const((*k)),
                None => match crate::subst::find_ty_spec(&map.tys, *d) {
                    Some(t) => GenericArg::Ty((*t)),
                    None => GenericArg::Ty(Ty::Error),
                },
            },
            Box::new(generic_args_spec(rest, map)),
        ),
    }
}

/// What each parameter of a list is bound to.
pub fn generic_args(l: &List<DefId>, map: &Subst) -> (r: List<GenericArg>)
    ensures
        r == generic_args_spec(l, map),
    decreases l,
{
    match l {
        List::Nil => List::Nil,
        List::Cons(d, rest) => List::Cons(
            match find_const(&map.consts, *d) {
                Some(k) => GenericArg::Const(dup_const(k)),
                None => match find_ty(&map.tys, *d) {
                    Some(t) => GenericArg::Ty(dup_ty(t)),
                    None => GenericArg::Ty(Ty::Error),
                },
            },
            Box::new(generic_args(rest, map)),
        ),
    }
}

/// [`impl_score`], as a mathematical function.
pub open spec fn impl_score_spec(imp: &ImplInfo) -> u64 {
    if imp.trait_def.is_none() {
        if imp.self_is_generic {
            3
        } else {
            4
        }
    } else if imp.self_is_generic {
        1
    } else {
        2
    }
}

/// How specific an impl is: an inherent one beats a trait's, and a concrete
/// target beats a blanket one.
pub fn impl_score(imp: &ImplInfo) -> (r: u64)
    ensures
        r == impl_score_spec(imp),
{
    if imp.trait_def.is_none() {
        if imp.self_is_generic {
            3
        } else {
            4
        }
    } else if imp.self_is_generic {
        1
    } else {
        2
    }
}

/// [`impl_reachable`], as a mathematical function.
pub open spec fn impl_reachable_spec(cx: &InferCx, imp: &ImplInfo) -> bool {
    match imp.trait_def {
        Some(td) => crate::def::def_in_spec(cx.in_scope, td) || crate::def::def_in_spec(cx.lang_traits, td),
        None => true,
    }
}

/// Whether an impl's members may be reached by name here.
pub fn impl_reachable(cx: &InferCx, imp: &ImplInfo) -> (r: bool)
    ensures
        r == impl_reachable_spec(cx, imp),
{
    match imp.trait_def {
        Some(td) => def_in(cx.in_scope, td) || def_in(cx.lang_traits, td),
        None => true,
    }
}

/// The best impl member so far, and whether another is as good.
#[derive(Debug, Clone, Copy, PartialEq, Eq, Structural)]
pub struct BestMember {
    pub score: u64,
    pub index: u64,
    pub member: DefId,
    pub tied: bool,
}

/// [`consider_member`], as a mathematical function.
pub open spec fn consider_member_spec(
    best: Option<BestMember>,
    score: u64,
    index: u64,
    member: DefId,
) -> Option<BestMember> {
    match best {
        Some(b) => if b.score > score {
            Some(b)
        } else if b.score == score {
            Some(BestMember { score: b.score, index: b.index, member: b.member, tied: true })
        } else {
            Some(BestMember { score: score, index: index, member: member, tied: false })
        },
        None => Some(BestMember { score: score, index: index, member: member, tied: false }),
    }
}

/// Weigh an impl member against the best so far.
pub fn consider_member(
    best: Option<BestMember>,
    score: u64,
    index: u64,
    member: DefId,
) -> (r: Option<BestMember>)
    ensures
        r == consider_member_spec(best, score, index, member),
{
    match best {
        Some(b) => if b.score > score {
            Some(b)
        } else if b.score == score {
            Some(BestMember { score: b.score, index: b.index, member: b.member, tied: true })
        } else {
            Some(BestMember { score: score, index: index, member: member, tied: false })
        },
        None => Some(BestMember { score: score, index: index, member: member, tied: false }),
    }
}

/// [`impl_const`], as a mathematical function.
pub open spec fn impl_const_spec(t: &Tables, imp: &ImplInfo, name: &Symbol) -> Option<DefId> {
    match crate::def::find_member_spec(&imp.members, name) {
        Some(m) => if crate::def::def_kind_spec(t, crate::def::resolve_alias_spec(t, m)) == DefKind::Const {
            Some(crate::def::resolve_alias_spec(t, m))
        } else {
            None
        },
        None => None,
    }
}

/// The constant an impl supplies under a name.
pub fn impl_const(t: &Tables, imp: &ImplInfo, name: &Symbol) -> (r: Option<DefId>)
    ensures
        r == impl_const_spec(t, imp, name),
{
    match find_member(&imp.members, name) {
        Some(m) => if def_kind(t, resolve_alias(t, m)) == DefKind::Const {
            Some(resolve_alias(t, m))
        } else {
            None
        },
        None => None,
    }
}

/// [`Inferer::consider_assocs`], as a mathematical function.
pub open spec fn consider_assocs_spec(
    st: InfererV,
    env: &InferCx,
    i: u64,
    ty: &Ty,
    name: &Symbol,
    best: Option<BestMember>,
    fuel: u64,
) -> (InfererV, Option<BestMember>)
    decreases fuel, u64::MAX - i,
{
    if fuel == 0 {
        (crate::unify::give_up_spec(st), best)
    } else {
        match crate::solve::get_impl_spec(env, i) {
            Some(imp) => match impl_const_spec(env.tables, imp, name) {
                Some(m) => if impl_reachable_spec(env, imp) {
                    let (st, fits) = crate::solve::trial_impl_spec(
                        st,
                        env,
                        i,
                        ty,
                        &List::Nil,
                        (fuel - 1) as u64,
                    );
                    let next = if fits {
                        consider_member_spec(best, impl_score_spec(imp), i, m)
                    } else {
                        best
                    };
                    consider_assocs_spec(st, env, crate::list::succ_spec(i), ty, name, next, fuel)
                } else {
                    consider_assocs_spec(st, env, crate::list::succ_spec(i), ty, name, best, fuel)
                },
                None => consider_assocs_spec(st, env, crate::list::succ_spec(i), ty, name, best, fuel),
            },
            None => (st, best),
        }
    }
}

/// [`Inferer::impl_assoc_def`], as a mathematical function.
pub open spec fn impl_assoc_def_spec(
    st: InfererV,
    env: &InferCx,
    ty: &Ty,
    name: &Symbol,
    fuel: u64,
) -> (InfererV, Option<(u64, DefId)>)
    decreases fuel,
{
    if fuel == 0 {
        (crate::unify::give_up_spec(st), None)
    } else {
        if crate::subst::is_error_spec(ty) || crate::subst::is_var_spec(ty) {
            (st, None)
        } else {
            let (st, best) = consider_assocs_spec(st, env, 0, ty, name, None, (fuel - 1) as u64);
            match best {
                Some(b) => if b.tied {
                    (st, None)
                } else {
                    (st, Some((b.index, b.member)))
                },
                None => (st, None),
            }
        }
    }
}

// Closures.

/// [`Inferer::infer_arg`], as a mathematical function.
pub open spec fn infer_arg_spec(
    st: InfererV,
    env: &InferCx,
    n: NodeId,
    wanted: Option<Ty>,
    fuel: u64,
) -> (InfererV, Ty)
    decreases fuel,
{
    if fuel == 0 {
        (crate::unify::give_up_spec(st), Ty::Error)
    } else {
        match closure_in_spec(env.tables, st.file, n) {
            Some(c) => {
                let (st, t) = infer_closure_spec(st, env, c, wanted, (fuel - 1) as u64);
                let st = crate::unify::set_type_spec(st, c, t);
                let st = crate::unify::set_type_spec(st, n, t);
                (st, t)
            },
            None => infer_expr_spec(st, env, n, (fuel - 1) as u64),
        }
    }
}

/// [`is_closure`], as a mathematical function.
pub open spec fn is_closure_spec(k: Option<&NodeKind>) -> bool {
    match k {
        Some(NodeKind::Closure { .. }) => true,
        _ => false,
    }
}

/// Whether a node is a closure.
pub fn is_closure(k: Option<&NodeKind>) -> (r: bool)
    ensures
        r == is_closure_spec(k),
{
    match k {
        Some(NodeKind::Closure { .. }) => true,
        _ => false,
    }
}

/// [`closure_in`], as a mathematical function.
pub open spec fn closure_in_spec(t: &Tables, file: FileId, n: NodeId) -> Option<NodeId> {
    match crate::def::kind_of_spec(t, file, n) {
        Some(NodeKind::Closure { .. }) => Some(n),
        Some(NodeKind::Arg { name: _, value }) => if is_closure_spec(
            crate::def::kind_of_spec(t, file, *value),
        ) {
            Some(*value)
        } else {
            None
        },
        _ => None,
    }
}

/// The closure an argument is, bare or named.
pub fn closure_in(t: &Tables, file: FileId, n: NodeId) -> (r: Option<NodeId>)
    ensures
        r == closure_in_spec(t, file, n),
{
    match kind_of(t, file, n) {
        Some(NodeKind::Closure { .. }) => Some(n),
        Some(NodeKind::Arg { name: _, value }) => if is_closure(kind_of(t, file, *value)) {
            Some(*value)
        } else {
            None
        },
        _ => None,
    }
}

/// [`Inferer::local_or_error`], as a mathematical function.
pub open spec fn local_or_error_spec(st: InfererV, def: Option<DefId>) -> Ty {
    match def {
        Some(d) => match crate::unify::get_local_spec(st, d) {
            Some(t) => t,
            None => Ty::Error,
        },
        None => Ty::Error,
    }
}

/// [`Inferer::type_captures`], as a mathematical function.
pub open spec fn type_captures_spec(st: InfererV, env: &InferCx, l: &List<NodeId>) -> InfererV
    decreases l,
{
    match l {
        List::Nil => {
            st
        },
        List::Cons(c, rest) => {
            let t = local_or_error_spec(st, crate::decls::resolved_def_spec(st, env, *c));
            let st = match crate::decls::def_of_spec(st, *c) {
                Some(inner) => {
                    let st = crate::unify::set_local_spec(st, inner, t);
                    st
                },
                None => {
                    st
                },
            };
            let st = crate::unify::set_type_spec(st, *c, t);
            let st = type_captures_spec(st, env, rest);
            st
        },
    }
}

/// [`hinted`], as a mathematical function.
pub open spec fn hinted_spec(hint: &Option<(List<Ty>, Option<Ty>)>, i: u64) -> Option<Ty> {
    match hint {
        Some(h) => match crate::list::nth_spec(&h.0, i) {
            Some(t) => Some((*t)),
            None => None,
        },
        None => None,
    }
}

/// The type hinted for a position.
pub fn hinted(hint: &Option<(List<Ty>, Option<Ty>)>, i: u64) -> (r: Option<Ty>)
    ensures
        r == hinted_spec(hint, i),
{
    match hint {
        Some(h) => match nth(&h.0, i) {
            Some(t) => Some(dup_ty(t)),
            None => None,
        },
        None => None,
    }
}

/// [`Inferer::closure_params`], as a mathematical function.
pub open spec fn closure_params_spec(
    st: InfererV,
    env: &InferCx,
    l: &List<NodeId>,
    i: u64,
    hint: &Option<(List<Ty>, Option<Ty>)>,
    fuel: u64,
) -> (InfererV, List<Ty>)
    decreases fuel, l,
{
    if fuel == 0 {
        (crate::unify::give_up_spec(st), List::Nil)
    } else {
        match l {
            List::Nil => (st, List::Nil),
            List::Cons(p, rest) => match crate::def::kind_of_spec(env.tables, st.file, *p) {
                Some(NodeKind::Param { name: _, ty, default: _ }) => {
                    let (st, pty) = match (ty, hinted_spec(hint, i)) {
                        (Some(t), Some(h)) => {
                            let (st, t) = crate::types::ty_from_node_spec(st, env, *t, (fuel - 1) as u64);
                            let st = crate::coerce::expect_spec(st, env, *p, &h, &t, (fuel - 1) as u64);
                            (st, t)
                        },
                        (Some(t), None) => crate::types::ty_from_node_spec(st, env, *t, (fuel - 1) as u64),
                        (None, Some(h)) => (st, h),
                        (None, None) => crate::unify::fresh_spec(st),
                    };
                    let st = match crate::decls::def_of_spec(st, *p) {
                        Some(def) => {
                            let st = crate::unify::set_local_spec(st, def, pty);
                            st
                        },
                        None => {
                            st
                        },
                    };
                    let st = crate::unify::set_type_spec(st, *p, pty);
                    let (st, others) = closure_params_spec(
                        st,
                        env,
                        rest,
                        crate::list::succ_spec(i),
                        hint,
                        fuel,
                    );
                    (st, List::Cons(pty, Box::new(others)))
                },
                _ => closure_params_spec(st, env, rest, crate::list::succ_spec(i), hint, fuel),
            },
        }
    }
}

/// [`hinted_ret`], as a mathematical function.
pub open spec fn hinted_ret_spec(hint: Option<(List<Ty>, Option<Ty>)>) -> Option<Ty> {
    match hint {
        Some((_, r)) => r,
        None => None,
    }
}

/// The result hinted for a closure.
pub fn hinted_ret(hint: Option<(List<Ty>, Option<Ty>)>) -> (r: Option<Ty>)
    ensures
        r == hinted_ret_spec(hint),
{
    match hint {
        Some((_, r)) => r,
        None => None,
    }
}

/// [`only_type_params`], as a mathematical function.
pub open spec fn only_type_params_spec(t: &Tables, l: &List<DefId>) -> List<DefId>
    decreases l,
{
    match l {
        List::Nil => List::Nil,
        List::Cons(h, rest) => if crate::def::def_kind_spec(t, *h) == DefKind::TypeParam {
            List::Cons(*h, Box::new(only_type_params_spec(t, rest)))
        } else {
            only_type_params_spec(t, rest)
        },
    }
}

/// The type parameters among some definitions.
pub fn only_type_params(t: &Tables, l: &List<DefId>) -> (r: List<DefId>)
    ensures
        r == only_type_params_spec(t, l),
    decreases l,
{
    match l {
        List::Nil => List::Nil,
        List::Cons(h, rest) => if def_kind(t, *h) == DefKind::TypeParam {
            List::Cons(*h, Box::new(only_type_params(t, rest)))
        } else {
            only_type_params(t, rest)
        },
    }
}

/// [`assoc_type_members`], as a mathematical function.
pub open spec fn assoc_type_members_spec(t: &Tables, l: &List<(Symbol, DefId)>) -> List<(Symbol, DefId)>
    decreases l,
{
    match l {
        List::Nil => List::Nil,
        List::Cons(h, rest) => if crate::def::def_kind_spec(
            t,
            crate::def::resolve_alias_spec(t, h.1),
        ) == DefKind::TypeAlias {
            List::Cons(
                (h.0, crate::def::resolve_alias_spec(t, h.1)),
                Box::new(assoc_type_members_spec(t, rest)),
            )
        } else {
            assoc_type_members_spec(t, rest)
        },
    }
}

/// The associated types among a trait's members, with renames followed.
pub fn assoc_type_members(t: &Tables, l: &List<(Symbol, DefId)>) -> (r: List<(Symbol, DefId)>)
    ensures
        r == assoc_type_members_spec(t, l),
    decreases l,
{
    match l {
        List::Nil => List::Nil,
        List::Cons(h, rest) => if def_kind(t, resolve_alias(t, h.1)) == DefKind::TypeAlias {
            List::Cons((dup_sym(&h.0), resolve_alias(t, h.1)), Box::new(assoc_type_members(t, rest)))
        } else {
            assoc_type_members(t, rest)
        },
    }
}

/// [`trait_generics`], as a mathematical function.
pub open spec fn trait_generics_spec(t: &Tables, trait_def: DefId) -> List<DefId> {
    match crate::def::get_def_spec(t, trait_def) {
        Some(d) => List::Cons(
            trait_def,
            Box::new(
                crate::solve::member_defs_spec(
                    &crate::subst::sort_by_name_spec(assoc_type_members_spec(t, &d.members)),
                ),
            ),
        ),
        None => crate::list::single_spec(trait_def),
    }
}

/// What a closure in a trait's default body is generic over besides: the trait,
/// standing for `Self`, and its associated types in dictionary order.
pub fn trait_generics(t: &Tables, trait_def: DefId) -> (r: List<DefId>)
    ensures
        r == trait_generics_spec(t, trait_def),
{
    match get_def(t, trait_def) {
        Some(d) => List::Cons(
            trait_def,
            Box::new(member_defs(&sort_by_name(assoc_type_members(t, &d.members)))),
        ),
        None => single(trait_def),
    }
}

/// [`Inferer::default_body_of`], as a mathematical function.
pub open spec fn default_body_of_spec(st: InfererV, env: &InferCx, func: Option<NodeId>) -> Option<DefId> {
    match func {
        Some(f) => match crate::bodies::func_owner_spec(st, env, f) {
            Some(owner) => match crate::def::def_parent_spec(env.tables, owner) {
                Some(p) => if crate::def::def_kind_spec(env.tables, p) == DefKind::Trait {
                    Some(p)
                } else {
                    None
                },
                None => None,
            },
            None => None,
        },
        None => None,
    }
}

/// [`Inferer::shared_types`], as a mathematical function.
pub open spec fn shared_types_spec(st: InfererV, l: &List<DefId>) -> List<Ty>
    decreases l,
{
    match l {
        List::Nil => List::Nil,
        List::Cons(d, rest) => List::Cons(
            local_or_error_spec(st, Some(*d)),
            Box::new(shared_types_spec(st, rest)),
        ),
    }
}

/// [`Inferer::closure_generics`], as a mathematical function.
pub open spec fn closure_generics_spec(st: InfererV, env: &InferCx) -> (InfererV, List<DefId>) {
    let (st, from_func) = match st.func {
        Some(f) => crate::bodies::generics_of_func_spec(st, env, f),
        None => (st, None),
    };
    let own = match from_func {
        Some(g) => only_type_params_spec(env.tables, &g.params),
        None => List::Nil,
    };
    match default_body_of_spec(st, env, st.func) {
        Some(trait_def) => (st, crate::list::append_spec(own, trait_generics_spec(env.tables, trait_def))),
        None => (st, own),
    }
}

/// [`Inferer::infer_closure`], as a mathematical function.
pub open spec fn infer_closure_spec(
    st: InfererV,
    env: &InferCx,
    node: NodeId,
    expected: Option<Ty>,
    fuel: u64,
) -> (InfererV, Ty)
    decreases fuel,
{
    if fuel == 0 {
        (crate::unify::give_up_spec(st), Ty::Error)
    } else {
        match crate::def::kind_of_spec(env.tables, st.file, node) {
            Some(NodeKind::Closure { captures, params, ret, body }) => {
                match crate::unify::get_closure_defs_spec(st, st.file, node) {
                    Some(defs) => {
                        let st = type_captures_spec(st, env, captures);
                        let hint = match expected {
                            Some(e) => closure_hint_spec(st, env, &e, crate::list::list_len_spec(params)),
                            None => None,
                        };
                        let (st, ptys) = closure_params_spec(st, env, params, 0, &hint, (fuel - 1) as u64);
                        let (st, rty) = match (ret, hinted_ret_spec(hint)) {
                            (Some(t), _) => crate::types::ty_from_node_spec(st, env, *t, (fuel - 1) as u64),
                            (None, Some(r)) => (st, r),
                            (None, None) => crate::unify::fresh_spec(st),
                        };
                        let outer_ret = st.ret;
                        let outer_breaks = st.breaks;
                        let st = InfererV { ret: rty, ..st };
                        let st = InfererV { breaks: List::Nil, ..st };
                        let (st, bty) = infer_expr_spec(st, env, *body, (fuel - 1) as u64);
                        let st = crate::coerce::expect_return_spec(
                            st,
                            env,
                            *body,
                            &bty,
                            &rty,
                            (fuel - 1) as u64,
                        );
                        let st = InfererV { ret: outer_ret, ..st };
                        let st = InfererV { breaks: outer_breaks, ..st };
                        let (st, generics) = closure_generics_spec(st, env);
                        let shared = match crate::unify::get_captures_spec(st, st.file, node) {
                            Some(l) => shared_types_spec(st, &l),
                            None => List::Nil,
                        };
                        let args = crate::ty::nominals_spec(&generics);
                        let st = crate::unify::set_closure_sig_spec(
                            st,
                            st.file,
                            node,
                            ClosureSig { params: ptys, ret: rty, generics: generics, shared: shared },
                        );
                        (st, Ty::Nominal { def: defs.ty, args: Box::new(args) })
                    },
                    _ => {
                        (st, Ty::Error)
                    },
                }
            },
            _ => {
                (st, Ty::Error)
            },
        }
    }
}

/// [`Inferer::func_hints`], as a mathematical function.
pub open spec fn func_hints_spec(
    st: InfererV,
    l: &List<Obligation>,
    func: DefId,
    v: &Ty,
) -> (Option<List<Ty>>, Option<Ty>)
    decreases l,
{
    match l {
        List::Nil => (None, None),
        List::Cons(ob, rest) => {
            let (params, ret) = func_hints_spec(st, rest, func, v);
            match ob {
                Obligation::Projection { self_ty, trait_def, args: _, assoc, out, origin: _, method: _ } => {
                    if *trait_def == func
                        && crate::ty::ty_eq_spec(&crate::unify::shallow_spec(st, self_ty, DEPTH_LIMIT), v) {
                        if crate::symbol::sym_is_spec(assoc, "Args") {
                            (
                                if params.is_some() { params } else { Some(
                                    crate::subst::tuple_elems_spec(
                                        &crate::unify::shallow_spec(st, out, DEPTH_LIMIT),
                                    ),
                                ) },
                                ret,
                            )
                        } else if crate::symbol::sym_is_spec(assoc, "Output") {
                            (params, if ret.is_some() { ret } else { Some((*out)) })
                        } else {
                            (params, ret)
                        }
                    } else {
                        (params, ret)
                    }
                },
                _ => (params, ret),
            }
        },
    }
}

/// [`Inferer::closure_hint`], as a mathematical function.
pub open spec fn closure_hint_spec(
    st: InfererV,
    env: &InferCx,
    expected: &Ty,
    arity: u64,
) -> Option<(List<Ty>, Option<Ty>)> {
    match crate::def::lang_def_spec(env.tables, "func") {
        Some(func) => match crate::unify::shallow_spec(st, expected, DEPTH_LIMIT) {
            Ty::Func { params, ret, c: _ } => if crate::list::list_len_spec(&params) == arity {
                Some((*params, Some(*ret)))
            } else {
                None
            },
            Ty::Var(v) => {
                let (params, ret) = func_hints_spec(st, &crate::unify::pending_spec(st), func, &Ty::Var(v));
                match params {
                    Some(ps) => if crate::list::list_len_spec(&ps) == arity {
                        Some((ps, ret))
                    } else {
                        None
                    },
                    None => None,
                }
            },
            _ => None,
        },
        None => None,
    }
}

// Constants at their declaration.

/// [`Inferer::infer_global`], as a mathematical function.
pub open spec fn infer_global_spec(st: InfererV, env: &InferCx, def: DefId, fuel: u64) -> InfererV
    decreases fuel,
{
    if fuel == 0 {
        crate::unify::give_up_spec(st)
    } else {
        match crate::def::def_node_spec(env.tables, def) {
            Some(node) => match crate::def::kind_of_spec(env.tables, st.file, node) {
                Some(NodeKind::ConstBind { pattern: _, rhs }) => {
                    let (st, ty) = match crate::def::kind_of_spec(env.tables, st.file, *rhs) {
                        Some(NodeKind::AssocConst { ty, default }) => infer_typed_const_spec(
                            st,
                            env,
                            *ty,
                            *default,
                            (fuel - 1) as u64,
                        ),
                        _ => {
                            let (st, open) = comptime_rhs_ty_spec(st, env, *rhs, (fuel - 1) as u64);
                            match open {
                                Some(t) => (st, t),
                                None => infer_expr_spec(st, env, *rhs, (fuel - 1) as u64),
                            }
                        },
                    };
                    let st = crate::unify::set_type_spec(st, node, ty);
                    st
                },
                _ => {
                    st
                },
            },
            None => {
                st
            },
        }
    }
}

/// [`is_text_lit`], as a mathematical function.
pub open spec fn is_text_lit_spec(k: Option<&NodeKind>) -> bool {
    match k {
        Some(NodeKind::Lit(Lit::Str(_))) => true,
        _ => false,
    }
}

/// Whether a node is the text of a string.
pub fn is_text_lit(k: Option<&NodeKind>) -> (r: bool)
    ensures
        r == is_text_lit_spec(k),
{
    match k {
        Some(NodeKind::Lit(Lit::Str(_))) => true,
        _ => false,
    }
}

/// [`Inferer::comptime_rhs_ty`], as a mathematical function.
pub open spec fn comptime_rhs_ty_spec(
    st: InfererV,
    env: &InferCx,
    rhs: NodeId,
    fuel: u64,
) -> (InfererV, Option<Ty>)
    decreases fuel,
{
    if fuel == 0 {
        (crate::unify::give_up_spec(st), None)
    } else {
        let (st, ty) = match crate::def::kind_of_spec(env.tables, st.file, rhs) {
            Some(NodeKind::Lit(Lit::Int(_))) => (st, Some(Ty::ComptimeInt)),
            Some(NodeKind::Lit(Lit::Float(_))) => (st, Some(Ty::ComptimeFloat)),
            Some(NodeKind::Lit(Lit::Str(_))) => match crate::def::lang_item_spec(env.tables, "str") {
                Some(_) => (st, Some(Ty::ComptimeStr)),
                None => (st, None),
            },
            Some(NodeKind::Unary { op: UnOp::Neg, operand }) => if is_text_lit_spec(
                crate::def::kind_of_spec(env.tables, st.file, *operand),
            ) {
                (st, None)
            } else {
                comptime_rhs_ty_spec(st, env, *operand, (fuel - 1) as u64)
            },
            _ => (st, None),
        };
        match ty {
            Some(t) => {
                let st = crate::unify::set_type_spec(st, rhs, t);
                (st, Some(t))
            },
            None => (st, None),
        }
    }
}

impl Inferer {
    /// Infer the type of a node and record it.
    pub fn infer_expr(&mut self, env: &InferCx, node: NodeId, fuel: u64) -> (r: Ty)
        ensures
            (final(self)@, r) == infer_expr_spec(old(self)@, env, node, fuel),
            crate::keeping::kept(old(self)@, final(self)@),
        decreases fuel,
    {
        if fuel == 0 {
            self.give_up();
            return Ty::Error;
        }
        let ty = self.infer_expr_uncached(env, node, (fuel - 1) as u64);
        self.set_type(node, dup_ty(&ty));
        ty
    }

    /// Infer the type of each node.
    pub fn infer_exprs(&mut self, env: &InferCx, l: &List<NodeId>, fuel: u64) -> (r: List<Ty>)
        ensures
            (final(self)@, r) == infer_exprs_spec(old(self)@, env, l, fuel),
            crate::keeping::kept(old(self)@, final(self)@),
        decreases fuel, l,
    {
        if fuel == 0 {
            self.give_up();
            return List::Nil;
        }
        match l {
            List::Nil => List::Nil,
            List::Cons(h, t) => {
                let a = self.infer_expr(env, *h, (fuel - 1) as u64);
                let rest = self.infer_exprs(env, t, fuel);
                List::Cons(a, Box::new(rest))
            },
        }
    }

    /// Infer the type of a node that may be absent, `void` where it is.
    pub fn infer_opt_expr(&mut self, env: &InferCx, node: Option<NodeId>, fuel: u64) -> (r: Ty)
        ensures
            (final(self)@, r) == infer_opt_expr_spec(old(self)@, env, node, fuel),
            crate::keeping::kept(old(self)@, final(self)@),
        decreases fuel,
    {
        if fuel == 0 {
            self.give_up();
            return Ty::Error;
        }
        match node {
            Some(n) => self.infer_expr(env, n, (fuel - 1) as u64),
            None => Ty::Void,
        }
    }

    /// Keep the exact number behind a node, so that it can be checked against
    /// whatever type it settles on.
    pub fn keep_number(&mut self, node: NodeId, lit: Option<Lit>)
        ensures
            final(self)@ == keep_number_spec(old(self)@, node, lit),
            crate::keeping::kept(old(self)@, final(self)@),
    {
        match lit {
            Some(Lit::Int(n)) => {
                self.set_int(node, n);
            },
            Some(Lit::Float(b)) => {
                self.set_float(node, b);
            },
            _ => {},
        }
    }

    /// Infer the type of a node.
    #[verifier::rlimit(80)]
    pub fn infer_expr_uncached(&mut self, env: &InferCx, node: NodeId, fuel: u64) -> (r: Ty)
        ensures
            (final(self)@, r) == infer_expr_uncached_spec(old(self)@, env, node, fuel),
            crate::keeping::kept(old(self)@, final(self)@),
        decreases fuel,
    {
        if fuel == 0 {
            self.give_up();
            return Ty::Error;
        }
        match kind_of(env.tables, self.file, node) {
            Some(NodeKind::Block { stmts, tail }) => {
                self.infer_stmts(env, stmts, (fuel - 1) as u64);
                match tail {
                    Some(t) => self.infer_expr(env, *t, (fuel - 1) as u64),
                    None => match last_node(stmts) {
                        Some(s) => if self.diverges(env, s) {
                            Ty::Never
                        } else {
                            Ty::Void
                        },
                        None => Ty::Void,
                    },
                }
            },
            Some(NodeKind::CallerLocation) => self.infer_caller_location(env, node),
            Some(NodeKind::Lit(lit)) => {
                self.keep_number(node, Some(dup_lit(lit)));
                self.lit_ty(env, lit)
            },
            Some(NodeKind::Path { .. }) => {
                let ty = self.path_ty(env, node, (fuel - 1) as u64);
                // A use of a constant carries its value to be checked here.
                self.keep_number(node, self.const_lit_value(env, self.file, node, DEPTH_LIMIT));
                ty
            },
            Some(NodeKind::Unary { op, operand }) => self.infer_unary(
                env,
                node,
                *op,
                *operand,
                (fuel - 1) as u64,
            ),
            Some(NodeKind::Binary { op, lhs, rhs }) => self.infer_binary(
                env,
                node,
                *op,
                *lhs,
                *rhs,
                (fuel - 1) as u64,
            ),
            Some(NodeKind::Tuple { elems }) => if is_empty(elems) {
                Ty::Void
            } else {
                let ts = self.infer_exprs(env, elems, (fuel - 1) as u64);
                Ty::Tuple(Box::new(ts))
            },
            Some(NodeKind::FieldAccess { base, name }) => self.infer_field_access(
                env,
                node,
                *base,
                name,
                (fuel - 1) as u64,
            ),
            Some(NodeKind::TupleIndex { base, index }) => self.infer_tuple_index(
                env,
                node,
                *base,
                *index,
                (fuel - 1) as u64,
            ),
            Some(NodeKind::Call { callee, args }) => self.infer_call(env, *callee, args, (fuel - 1) as u64),
            Some(NodeKind::GenericApply { base, args }) => {
                self.record_generic_args_in(env, self.file, args, (fuel - 1) as u64);
                self.infer_expr(env, *base, (fuel - 1) as u64)
            },
            Some(NodeKind::Index { base, index }) => {
                let bty = self.infer_expr(env, *base, (fuel - 1) as u64);
                let bty = self.pin_str(&bty);
                let ity = self.infer_expr(env, *index, (fuel - 1) as u64);
                let head = self.autoderef(&bty, DEPTH_LIMIT);
                self.infer_index_op(env, node, head, ity)
            },
            Some(NodeKind::Slice { base, range }) => self.infer_slice(env, *base, *range, (fuel - 1) as u64),
            Some(NodeKind::Deref { base }) => {
                let bty = self.infer_expr(env, *base, (fuel - 1) as u64);
                let inner = self.fresh();
                self.expect(
                    env,
                    *base,
                    &bty,
                    &Ty::Ptr { mutable: false, inner: Box::new(dup_ty(&inner)) },
                    (fuel - 1) as u64,
                );
                if is_opaque(&self.shallow(&inner, DEPTH_LIMIT)) {
                    self.report(
                        env,
                        node,
                        say("cannot read through `*opaque`: an opaque type has no value to load"),
                    );
                }
                inner
            },
            Some(NodeKind::MatchExpr { scrutinee, arms }) => {
                let sty = self.infer_expr(env, *scrutinee, (fuel - 1) as u64);
                let joined = self.infer_arms(env, arms, &sty, None, (fuel - 1) as u64);
                match joined {
                    Some(t) => t,
                    None => self.fresh(),
                }
            },
            Some(NodeKind::If { cond, then, els }) => {
                let cty = self.infer_expr(env, *cond, (fuel - 1) as u64);
                self.expect(env, *cond, &cty, &Ty::Bool, (fuel - 1) as u64);
                self.infer_branches(env, *then, *els, (fuel - 1) as u64)
            },
            Some(NodeKind::IfMatch { pattern, value, then, els }) => {
                let vty = self.infer_expr(env, *value, (fuel - 1) as u64);
                self.bind_pattern(env, *pattern, &vty, (fuel - 1) as u64);
                self.infer_branches(env, *then, *els, (fuel - 1) as u64)
            },
            Some(NodeKind::Loop { body }) => {
                let ty = self.fresh();
                let broke = self.infer_loop_body(env, *body, &ty, (fuel - 1) as u64);
                // A `loop` with no `break` never finishes.
                if broke {
                    ty
                } else {
                    Ty::Never
                }
            },
            Some(NodeKind::While { cond, body }) => {
                let cty = self.infer_expr(env, *cond, (fuel - 1) as u64);
                self.expect(env, *cond, &cty, &Ty::Bool, (fuel - 1) as u64);
                let _broke = self.infer_loop_body(env, *body, &Ty::Void, (fuel - 1) as u64);
                Ty::Void
            },
            Some(NodeKind::CompositeLit { ty, body }) => {
                self.infer_composite_elems(env, body, (fuel - 1) as u64);
                match ty {
                    Some(t) => {
                        let cty = self.ty_from_node(env, *t, (fuel - 1) as u64);
                        self.check_composite_body(env, node, &cty, (fuel - 1) as u64);
                        cty
                    },
                    None => {
                        let recv = self.fresh();
                        self.register(Obligation::CompositeBody { recv: dup_ty(&recv), origin: node });
                        recv
                    },
                }
            },
            Some(NodeKind::VariantLit { name, args }) => {
                let arg_tys = self.variant_lit_arg_tys(env, args, (fuel - 1) as u64);
                let recv = self.fresh();
                self.register(
                    Obligation::VariantPayload {
                        recv: dup_ty(&recv),
                        variant: dup_sym(name),
                        args: arg_tys,
                        origin: node,
                    },
                );
                recv
            },
            Some(NodeKind::Arg { name: _, value }) => self.infer_expr(env, *value, (fuel - 1) as u64),
            Some(NodeKind::FieldInit { name: _, value }) => self.infer_expr(env, *value, (fuel - 1) as u64),
            Some(NodeKind::Range { start, end, kind: _ }) => {
                let elem = self.fresh();
                self.infer_bound(env, *start, &elem, (fuel - 1) as u64);
                self.infer_bound(env, *end, &elem, (fuel - 1) as u64);
                match lang_def(env.tables, "range") {
                    Some(def) => Ty::Nominal { def: def, args: Box::new(single(elem)) },
                    None => Ty::Error,
                }
            },
            Some(NodeKind::FuncExpr { .. }) => self.func_sig_ty_in(env, self.file, node, (fuel - 1) as u64),
            Some(NodeKind::Closure { .. }) => self.infer_closure(env, node, None, (fuel - 1) as u64),
            _ => Ty::Error,
        }
    }

    /// Infer the body of a loop whose breaks carry a type, and say whether any of
    /// them leaves it.
    pub fn infer_loop_body(&mut self, env: &InferCx, body: NodeId, ty: &Ty, fuel: u64) -> (r: bool)
        ensures
            (final(self)@, r) == infer_loop_body_spec(old(self)@, env, body, ty, fuel),
            crate::keeping::kept(old(self)@, final(self)@),
        decreases fuel,
    {
        if fuel == 0 {
            self.give_up();
            return false;
        }
        proof {
            reveal(crate::keeping::kept);
        }
        let ghost around = self@.breaks;
        self.push_break(LoopFrame { ty: dup_ty(ty), broke: false });
        let _body = self.infer_expr(env, body, (fuel - 1) as u64);
        proof {
            crate::keeping::the_loops_around_stand(around, LoopFrame { ty: *ty, broke: false }, self@.breaks);
        }
        let broke = match self.top_break() {
            Some(f) => f.broke,
            None => false,
        };
        self.pop_break();
        broke
    }

    /// The innermost loop.
    pub fn top_break(&self) -> (r: Option<LoopFrame>)
        ensures
            r == top_break_spec(self@),
    {
        match &self.breaks {
            List::Nil => None,
            List::Cons(f, _) => Some(LoopFrame { ty: dup_ty(&f.ty), broke: f.broke }),
        }
    }

    /// What a value that ends where others do makes of what they come to. One that
    /// never ends there leaves the others to decide.
    pub fn join(&mut self, env: &InferCx, so_far: Ty, node: NodeId, ty: Ty, fuel: u64) -> (r: Ty)
        ensures
            (final(self)@, r) == join_spec(old(self)@, env, so_far, node, ty, fuel),
            crate::keeping::kept(old(self)@, final(self)@),
        decreases fuel,
    {
        if fuel == 0 {
            self.give_up();
            return Ty::Error;
        }
        if is_never(&self.shallow(&so_far, DEPTH_LIMIT)) {
            ty
        } else if is_never(&self.shallow(&ty, DEPTH_LIMIT)) {
            so_far
        } else {
            self.expect(env, node, &ty, &so_far, (fuel - 1) as u64);
            so_far
        }
    }

    /// The two branches of a conditional. Both contribute to one result; without an
    /// `else` there is nothing to yield.
    pub fn infer_branches(&mut self, env: &InferCx, then: NodeId, els: Option<NodeId>, fuel: u64) -> (r: Ty)
        ensures
            (final(self)@, r) == infer_branches_spec(old(self)@, env, then, els, fuel),
            crate::keeping::kept(old(self)@, final(self)@),
        decreases fuel,
    {
        if fuel == 0 {
            self.give_up();
            return Ty::Error;
        }
        let then_ty = self.infer_expr(env, then, (fuel - 1) as u64);
        match els {
            Some(e) => {
                let else_ty = self.infer_expr(env, e, (fuel - 1) as u64);
                self.join(env, then_ty, e, else_ty, (fuel - 1) as u64)
            },
            None => {
                self.expect(env, then, &then_ty, &Ty::Void, (fuel - 1) as u64);
                Ty::Void
            },
        }
    }

    /// One arm of a match: its pattern is bound, and its body joins what the arms
    /// before it come to.
    pub fn infer_arm(
        &mut self,
        env: &InferCx,
        arm: NodeId,
        sty: &Ty,
        so_far: Option<Ty>,
        fuel: u64,
    ) -> (r: Option<Ty>)
        ensures
            (final(self)@, r) == infer_arm_spec(old(self)@, env, arm, sty, so_far, fuel),
            crate::keeping::kept(old(self)@, final(self)@),
        decreases fuel,
    {
        if fuel == 0 {
            self.give_up();
            return so_far;
        }
        match kind_of(env.tables, self.file, arm) {
            Some(NodeKind::MatchArm { pattern, guard, body }) => {
                self.bind_pattern(env, *pattern, sty, (fuel - 1) as u64);
                match guard {
                    Some(g) => {
                        let gty = self.infer_expr(env, *g, (fuel - 1) as u64);
                        self.expect(env, *g, &gty, &Ty::Bool, (fuel - 1) as u64);
                    },
                    None => {},
                }
                let bty = self.infer_expr(env, *body, (fuel - 1) as u64);
                match so_far {
                    Some(t) => {
                        let joined = self.join(env, t, *body, bty, (fuel - 1) as u64);
                        Some(joined)
                    },
                    None => Some(bty),
                }
            },
            _ => so_far,
        }
    }

    /// The arms of a match, and what they come to together.
    pub fn infer_arms(
        &mut self,
        env: &InferCx,
        arms: &List<NodeId>,
        sty: &Ty,
        so_far: Option<Ty>,
        fuel: u64,
    ) -> (r: Option<Ty>)
        ensures
            (final(self)@, r) == infer_arms_spec(old(self)@, env, arms, sty, so_far, fuel),
            crate::keeping::kept(old(self)@, final(self)@),
        decreases fuel, arms,
    {
        if fuel == 0 {
            self.give_up();
            return so_far;
        }
        match arms {
            List::Nil => so_far,
            List::Cons(arm, rest) => {
                let next = self.infer_arm(env, *arm, sty, so_far, (fuel - 1) as u64);
                self.infer_arms(env, rest, sty, next, fuel)
            },
        }
    }

    /// One bound of a range.
    pub fn infer_bound(&mut self, env: &InferCx, node: Option<NodeId>, elem: &Ty, fuel: u64)
        ensures
            final(self)@ == infer_bound_spec(old(self)@, env, node, elem, fuel),
            crate::keeping::kept(old(self)@, final(self)@),
        decreases fuel,
    {
        if fuel == 0 {
            self.give_up();
            return;
        }
        match node {
            Some(n) => {
                let t = self.infer_expr(env, n, (fuel - 1) as u64);
                self.expect(env, n, &t, elem, (fuel - 1) as u64);
            },
            None => {},
        }
    }

    /// A sub-slice has the same elements as what it is taken from. Of a slice it
    /// carries the same permission over them; of an array it is read-only.
    pub fn infer_slice(&mut self, env: &InferCx, base: NodeId, range: NodeId, fuel: u64) -> (r: Ty)
        ensures
            (final(self)@, r) == infer_slice_spec(old(self)@, env, base, range, fuel),
            crate::keeping::kept(old(self)@, final(self)@),
        decreases fuel,
    {
        if fuel == 0 {
            self.give_up();
            return Ty::Error;
        }
        let bty = self.infer_expr(env, base, (fuel - 1) as u64);
        let rty = self.infer_expr(env, range, (fuel - 1) as u64);
        match self.shallow(&rty, DEPTH_LIMIT) {
            Ty::Nominal { def: _, args } => match nth(&args, 0) {
                Some(elem) => {
                    let want = self.usize_ty();
                    self.expect(env, range, elem, &want, (fuel - 1) as u64);
                },
                None => {},
            },
            _ => {},
        }
        match self.autoderef(&bty, DEPTH_LIMIT) {
            Ty::Slice { mutable, inner } => Ty::Slice { mutable: mutable, inner: inner },
            Ty::Array { len: _, mutable: _, inner } => Ty::Slice { mutable: false, inner: inner },
            _ => Ty::Error,
        }
    }

    /// A field read waits until its base is known.
    pub fn defer_field(&mut self, node: NodeId, bty: Ty, name: Symbol) -> (r: Ty)
        ensures
            (final(self)@, r) == defer_field_spec(old(self)@, node, bty, name),
            crate::keeping::kept(old(self)@, final(self)@),
    {
        let out = self.fresh();
        self.register(Obligation::Field { recv: bty, name: name, out: dup_ty(&out), origin: node });
        out
    }

    /// `a.b`: a member already worked out, a name the resolver linked, a member
    /// reached through a type, or a field of a value.
    pub fn infer_field_access(
        &mut self,
        env: &InferCx,
        node: NodeId,
        base: NodeId,
        name: &Symbol,
        fuel: u64,
    ) -> (r: Ty)
        ensures
            (final(self)@, r) == infer_field_access_spec(old(self)@, env, node, base, name, fuel),
            crate::keeping::kept(old(self)@, final(self)@),
        decreases fuel,
    {
        if fuel == 0 {
            self.give_up();
            return Ty::Error;
        }
        match self.get_assoc_ty(self.file, node) {
            Some(t) => {
                return t.0;
            },
            None => {},
        }
        match self.resolved_def(env, node) {
            Some(def) => {
                self.keep_number(node, self.const_lit_value(env, self.file, node, DEPTH_LIMIT));
                return self.def_ty(env, node, def, (fuel - 1) as u64);
            },
            None => {},
        }
        if self.failed_resolution(node) {
            return Ty::Error;
        }
        let through = self.type_denoted_by(env, base, (fuel - 1) as u64);
        match through {
            Some(t) => {
                let found = self.assoc_through_type(env, node, &t, name, (fuel - 1) as u64);
                return match found {
                    Some(ty) => ty,
                    None => {
                        self.report(
                            env,
                            node,
                            list5(
                                Part::Text("`"),
                                Part::Ty(self.resolve(&t, DEPTH_LIMIT)),
                                Part::Text("` has no associated item `"),
                                Part::Name(dup_sym(name)),
                                Part::Text("`"),
                            ),
                        );
                        self.set_resolution(self.file, node, Resolution::Error);
                        Ty::Error
                    },
                };
            },
            None => {},
        }
        let bty = self.infer_expr(env, base, (fuel - 1) as u64);
        let bty = self.pin_str(&bty);
        let bty = self.settle(env, &bty, (fuel - 1) as u64);
        let found = self.field_ty_at(env, Some(node), &bty, name, (fuel - 1) as u64);
        match found {
            Some(ft) => ft,
            None => if is_var(&self.shallow(&bty, DEPTH_LIMIT)) {
                self.defer_field(node, bty, dup_sym(name))
            } else {
                self.no_such_field(env, node, &bty, name)
            },
        }
    }

    /// `p.0`: an element of a tuple, or a tuple struct's field of that name.
    pub fn infer_tuple_index(
        &mut self,
        env: &InferCx,
        node: NodeId,
        base: NodeId,
        index: u64,
        fuel: u64,
    ) -> (r: Ty)
        ensures
            (final(self)@, r) == infer_tuple_index_spec(old(self)@, env, node, base, index, fuel),
            crate::keeping::kept(old(self)@, final(self)@),
        decreases fuel,
    {
        if fuel == 0 {
            self.give_up();
            return Ty::Error;
        }
        let bty = self.infer_expr(env, base, (fuel - 1) as u64);
        match self.autoderef(&bty, DEPTH_LIMIT) {
            Ty::Tuple(elems) => match nth(&elems, index) {
                Some(t) => {
                    return dup_ty(t);
                },
                None => {
                    self.report(
                        env,
                        node,
                        list5(
                            Part::Text("index "),
                            Part::Num(index),
                            Part::Text(" is out of range for a tuple of "),
                            Part::Num(list_len(&elems)),
                            Part::Text(" element(s)"),
                        ),
                    );
                    return Ty::Error;
                },
            },
            _ => {},
        }
        let name = index_sym(index);
        let found = self.field_ty_at(env, Some(node), &bty, &name, (fuel - 1) as u64);
        match found {
            Some(ft) => ft,
            None => if is_var(&self.shallow(&bty, DEPTH_LIMIT)) {
                self.defer_field(node, bty, name)
            } else {
                self.no_such_field(env, node, &bty, &name)
            },
        }
    }

    /// Complain about a field that is not there, unless the base is itself broken or
    /// unknown.
    pub fn no_such_field(&mut self, env: &InferCx, node: NodeId, base: &Ty, name: &Symbol) -> (r: Ty)
        ensures
            (final(self)@, r) == no_such_field_spec(old(self)@, env, node, base, name),
            crate::keeping::kept(old(self)@, final(self)@),
    {
        let b = self.resolve(base, DEPTH_LIMIT);
        if !is_error(&b) && !is_var(&b) {
            self.report(
                env,
                node,
                list5(
                    Part::Text("no field `"),
                    Part::Name(dup_sym(name)),
                    Part::Text("` on `"),
                    Part::Ty(b),
                    Part::Text("`"),
                ),
            );
        }
        Ty::Error
    }

    /// Infer the values of named fields.
    pub fn infer_field_inits(&mut self, env: &InferCx, l: &List<NodeId>, fuel: u64)
        ensures
            final(self)@ == infer_field_inits_spec(old(self)@, env, l, fuel),
            crate::keeping::kept(old(self)@, final(self)@),
        decreases fuel, l,
    {
        if fuel == 0 {
            self.give_up();
            return;
        }
        match l {
            List::Nil => {},
            List::Cons(f, rest) => {
                match kind_of(env.tables, self.file, *f) {
                    Some(NodeKind::FieldInit { name: _, value }) => {
                        let _ = self.infer_expr(env, *value, (fuel - 1) as u64);
                    },
                    _ => {},
                }
                self.infer_field_inits(env, rest, fuel);
            },
        }
    }

    /// Type every element of a composite literal, without yet relating them to its
    /// type.
    pub fn infer_composite_elems(&mut self, env: &InferCx, body: &CompositeBody, fuel: u64)
        ensures
            final(self)@ == infer_composite_elems_spec(old(self)@, env, body, fuel),
            crate::keeping::kept(old(self)@, final(self)@),
        decreases fuel,
    {
        if fuel == 0 {
            self.give_up();
            return;
        }
        match body {
            CompositeBody::Named { fields, spread } => {
                self.infer_field_inits(env, fields, (fuel - 1) as u64);
                match spread {
                    Some(s) => {
                        let _ = self.infer_expr(env, *s, (fuel - 1) as u64);
                    },
                    None => {},
                }
            },
            CompositeBody::Positional(elems) => {
                let _ = self.infer_exprs(env, elems, (fuel - 1) as u64);
            },
            CompositeBody::Repeat { value, count } => {
                let _ = self.infer_expr(env, *value, (fuel - 1) as u64);
                let _ = self.infer_expr(env, *count, (fuel - 1) as u64);
            },
        }
    }

    /// The arguments of a record variant literal.
    pub fn record_arg_tys(
        &mut self,
        env: &InferCx,
        l: &List<NodeId>,
        fuel: u64,
    ) -> (r: List<(Option<Symbol>, Ty)>)
        ensures
            (final(self)@, r) == record_arg_tys_spec(old(self)@, env, l, fuel),
            crate::keeping::kept(old(self)@, final(self)@),
        decreases fuel, l,
    {
        if fuel == 0 {
            self.give_up();
            return List::Nil;
        }
        match l {
            List::Nil => List::Nil,
            List::Cons(f, rest) => {
                let first = match kind_of(env.tables, self.file, *f) {
                    Some(NodeKind::FieldInit { name, value }) => {
                        let t = self.infer_expr(env, *value, (fuel - 1) as u64);
                        (Some(dup_sym(name)), t)
                    },
                    _ => {
                        let t = self.infer_expr(env, *f, (fuel - 1) as u64);
                        (None, t)
                    },
                };
                let others = self.record_arg_tys(env, rest, fuel);
                List::Cons(first, Box::new(others))
            },
        }
    }

    /// Infer a variant literal's arguments, each with the field it names.
    pub fn variant_lit_arg_tys(
        &mut self,
        env: &InferCx,
        args: &VariantArgs,
        fuel: u64,
    ) -> (r: List<(Option<Symbol>, Ty)>)
        ensures
            (final(self)@, r) == variant_lit_arg_tys_spec(old(self)@, env, args, fuel),
            crate::keeping::kept(old(self)@, final(self)@),
        decreases fuel,
    {
        if fuel == 0 {
            self.give_up();
            return List::Nil;
        }
        match args {
            VariantArgs::Unit => List::Nil,
            VariantArgs::Tuple(ids) => {
                let l = self.infer_exprs(env, ids, (fuel - 1) as u64);
                unnamed(l)
            },
            VariantArgs::Record(ids) => self.record_arg_tys(env, ids, (fuel - 1) as u64),
        }
    }

    /// The caller's location, which is only ever a default argument.
    pub fn infer_caller_location(&mut self, env: &InferCx, node: NodeId) -> (r: Ty)
        ensures
            (final(self)@, r) == infer_caller_location_spec(old(self)@, env, node),
            crate::keeping::kept(old(self)@, final(self)@),
    {
        if !self.in_default {
            self.report(
                env,
                node,
                say(
                    "`#caller_location` is only a default argument — write it as `loc: Location := #caller_location` on the parameter that receives it",
                ),
            );
            Ty::Error
        } else {
            match lang_ty(env.tables, "location") {
                Some(t) => t,
                None => {
                    self.report(env, node, say("`#caller_location` requires the `#lang(\"location\")` item"));
                    Ty::Error
                },
            }
        }
    }

    /// The type of a literal. A number or a string is open until its use settles it.
    pub fn lit_ty(&mut self, env: &InferCx, lit: &Lit) -> (r: Ty)
        ensures
            (final(self)@, r) == lit_ty_spec(old(self)@, env, lit),
            crate::keeping::kept(old(self)@, final(self)@),
    {
        match lit {
            Lit::Int(_) => self.fresh_of(TyVarKind::Int),
            Lit::Float(_) => self.fresh_of(TyVarKind::Float),
            Lit::Str(_) => match lang_item(env.tables, "str") {
                Some(_) => self.fresh_of(TyVarKind::Str),
                None => Ty::Error,
            },
            Lit::Bytes(_) => Ty::Slice { mutable: false, inner: Box::new(int_ty(8, false)) },
            Lit::Char(_) => Ty::Char,
            Lit::Bool(_) => Ty::Bool,
        }
    }

    /// Infer each statement.
    pub fn infer_stmts(&mut self, env: &InferCx, l: &List<NodeId>, fuel: u64)
        ensures
            final(self)@ == infer_stmts_spec(old(self)@, env, l, fuel),
            crate::keeping::kept(old(self)@, final(self)@),
        decreases fuel, l,
    {
        if fuel == 0 {
            self.give_up();
            return;
        }
        match l {
            List::Nil => {},
            List::Cons(h, t) => {
                self.infer_stmt(env, *h, (fuel - 1) as u64);
                self.infer_stmts(env, t, fuel);
            },
        }
    }

    /// Infer a statement.
    pub fn infer_stmt(&mut self, env: &InferCx, node: NodeId, fuel: u64)
        ensures
            final(self)@ == infer_stmt_spec(old(self)@, env, node, fuel),
            crate::keeping::kept(old(self)@, final(self)@),
        decreases fuel,
    {
        if fuel == 0 {
            self.give_up();
            return;
        }
        match kind_of(env.tables, self.file, node) {
            Some(NodeKind::LocalDecl { pattern, ty, value }) => {
                self.infer_local_decl(env, *pattern, *ty, *value, (fuel - 1) as u64);
            },
            Some(NodeKind::ConstBind { pattern, rhs }) => {
                self.infer_const_bind(env, *pattern, *rhs, (fuel - 1) as u64);
            },
            Some(NodeKind::Assign { place, value }) => {
                self.infer_assign(env, *place, *value, (fuel - 1) as u64);
            },
            Some(NodeKind::Return { value }) => {
                self.infer_return(env, node, *value, (fuel - 1) as u64);
            },
            Some(NodeKind::Break { value }) => {
                self.infer_break(env, node, *value, (fuel - 1) as u64);
            },
            Some(NodeKind::Defer { body }) => {
                let _ = self.infer_expr(env, *body, (fuel - 1) as u64);
            },
            Some(NodeKind::Continue) => {
                if self.top_break().is_none() {
                    self.report(env, node, say("`continue` outside of a loop"));
                }
            },
            _ => {
                let _ = self.infer_expr(env, node, (fuel - 1) as u64);
            },
        }
    }

    /// A local: its value is held to the annotation, where there is one, and its
    /// pattern is bound.
    pub fn infer_local_decl(
        &mut self,
        env: &InferCx,
        pattern: NodeId,
        ty: Option<NodeId>,
        value: NodeId,
        fuel: u64,
    )
        ensures
            final(self)@ == infer_local_decl_spec(old(self)@, env, pattern, ty, value, fuel),
            crate::keeping::kept(old(self)@, final(self)@),
        decreases fuel,
    {
        if fuel == 0 {
            self.give_up();
            return;
        }
        let vty = self.infer_expr(env, value, (fuel - 1) as u64);
        let bound = match ty {
            Some(t) => {
                let ann = self.ty_from_node(env, t, (fuel - 1) as u64);
                self.expect(env, value, &vty, &ann, (fuel - 1) as u64);
                ann
            },
            None => {
                if is_var(&self.shallow(&vty, DEPTH_LIMIT)) {
                    self.solve_to_fixpoint(env, (fuel - 1) as u64);
                    let _ = self.default_anon_structs(env, (fuel - 1) as u64);
                }
                vty
            },
        };
        self.bind_pattern(env, pattern, &bound, (fuel - 1) as u64);
    }

    /// A constant written in a body.
    pub fn infer_const_bind(&mut self, env: &InferCx, pattern: NodeId, rhs: NodeId, fuel: u64)
        ensures
            final(self)@ == infer_const_bind_spec(old(self)@, env, pattern, rhs, fuel),
            crate::keeping::kept(old(self)@, final(self)@),
        decreases fuel,
    {
        if fuel == 0 {
            self.give_up();
            return;
        }
        let vty = match kind_of(env.tables, self.file, rhs) {
            Some(NodeKind::AssocConst { ty, default }) => self.infer_typed_const(
                env,
                *ty,
                *default,
                (fuel - 1) as u64,
            ),
            _ => self.infer_expr(env, rhs, (fuel - 1) as u64),
        };
        self.bind_pattern(env, pattern, &vty, (fuel - 1) as u64);
    }

    /// An assignment: the value is held to the place.
    pub fn infer_assign(&mut self, env: &InferCx, place: NodeId, value: NodeId, fuel: u64)
        ensures
            final(self)@ == infer_assign_spec(old(self)@, env, place, value, fuel),
            crate::keeping::kept(old(self)@, final(self)@),
        decreases fuel,
    {
        if fuel == 0 {
            self.give_up();
            return;
        }
        let pty = self.infer_index_place(env, place, (fuel - 1) as u64);
        let vty = self.infer_expr(env, value, (fuel - 1) as u64);
        self.expect(env, value, &vty, &pty, (fuel - 1) as u64);
    }

    /// A `return`: its value is held to what the function returns.
    pub fn infer_return(&mut self, env: &InferCx, node: NodeId, value: Option<NodeId>, fuel: u64)
        ensures
            final(self)@ == infer_return_spec(old(self)@, env, node, value, fuel),
            crate::keeping::kept(old(self)@, final(self)@),
        decreases fuel,
    {
        if fuel == 0 {
            self.give_up();
            return;
        }
        let vty = self.infer_opt_expr(env, value, (fuel - 1) as u64);
        let ret = dup_ty(&self.ret);
        self.expect_return(env, opt_node(value, node), &vty, &ret, (fuel - 1) as u64);
    }

    /// A `break`: its value is held to what the loop's other breaks carry.
    pub fn infer_break(&mut self, env: &InferCx, node: NodeId, value: Option<NodeId>, fuel: u64)
        ensures
            final(self)@ == infer_break_spec(old(self)@, env, node, value, fuel),
            fuel > 0 ==> match (old(self)@.breaks, final(self)@.breaks) {
                (List::Nil, List::Nil) => old(self)@.diags.len() < final(self)@.diags.len(),
                (List::Cons(_, _), List::Cons(f, _)) => f.broke,
                _ => false,
            },
            crate::keeping::kept(old(self)@, final(self)@),
        decreases fuel,
    {
        if fuel == 0 {
            self.give_up();
            return;
        }
        proof {
            reveal(crate::keeping::kept);
        }
        proof {
            reveal(crate::keeping::loops_stand);
        }
        let vty = self.infer_opt_expr(env, value, (fuel - 1) as u64);
        match self.top_break() {
            Some(frame) => {
                self.mark_broke();
                self.expect(env, opt_node(value, node), &vty, &frame.ty, (fuel - 1) as u64);
            },
            None => {
                self.report(env, node, say("`break` outside of a loop"));
            },
        }
    }

    /// A constant with a written type: the initializer is held to it.
    pub fn infer_typed_const(
        &mut self,
        env: &InferCx,
        ty: NodeId,
        default: Option<NodeId>,
        fuel: u64,
    ) -> (r: Ty)
        ensures
            (final(self)@, r) == infer_typed_const_spec(old(self)@, env, ty, default, fuel),
            crate::keeping::kept(old(self)@, final(self)@),
        decreases fuel,
    {
        if fuel == 0 {
            self.give_up();
            return Ty::Error;
        }
        let want = self.ty_from_node(env, ty, (fuel - 1) as u64);
        match default {
            Some(d) => {
                let got = self.infer_expr(env, d, (fuel - 1) as u64);
                self.expect(env, d, &got, &want, (fuel - 1) as u64);
            },
            None => {},
        }
        want
    }

    /// Whether a statement unconditionally leaves its block.
    pub fn diverges(&self, env: &InferCx, node: NodeId) -> (r: bool)
        ensures
            r == diverges_spec(self@, env, node),
    {
        match kind_of(env.tables, self.file, node) {
            Some(NodeKind::Return { .. }) => true,
            Some(NodeKind::Break { .. }) => true,
            Some(NodeKind::Continue) => true,
            Some(NodeKind::Call { .. }) => match self.get_type(node) {
                Some(Ty::Never) => true,
                _ => false,
            },
            _ => false,
        }
    }

    /// A prefix operator.
    pub fn infer_unary(
        &mut self,
        env: &InferCx,
        node: NodeId,
        op: UnOp,
        operand: NodeId,
        fuel: u64,
    ) -> (r: Ty)
        ensures
            (final(self)@, r) == infer_unary_spec(old(self)@, env, node, op, operand, fuel),
            crate::keeping::kept(old(self)@, final(self)@),
        decreases fuel,
    {
        if fuel == 0 {
            self.give_up();
            return Ty::Error;
        }
        let oty = self.infer_expr(env, operand, (fuel - 1) as u64);
        match op {
            UnOp::Ref => Ty::Ptr { mutable: false, inner: Box::new(oty) },
            UnOp::RefMut => Ty::Ptr { mutable: true, inner: Box::new(oty) },
            UnOp::Neg => {
                // The range check has to see the sign, or the minimum of every
                // signed type would be rejected.
                match self.get_int(operand) {
                    Some(v) => {
                        self.set_int(operand, int_neg(&v));
                    },
                    None => {},
                }
                match self.get_float(operand) {
                    Some(b) => {
                        self.set_float(operand, b ^ 0x8000_0000_0000_0000u64);
                    },
                    None => {},
                }
                self.infer_prefix_op(env, node, "neg", oty)
            },
            UnOp::BitNot => self.infer_prefix_op(env, node, "bitnot", oty),
            UnOp::Not => {
                self.expect(env, operand, &oty, &Ty::Bool, (fuel - 1) as u64);
                Ty::Bool
            },
        }
    }

    /// Ask for what an operator's trait answers, and give back the variable that
    /// will hold it.
    pub fn project_output(
        &mut self,
        node: NodeId,
        self_ty: Ty,
        trait_def: DefId,
        args: List<Ty>,
        out: Ty,
        method: Symbol,
    ) -> (r: Ty)
        ensures
            (final(self)@, r) == project_output_spec(old(self)@, node, self_ty, trait_def, args, out, method),
            crate::keeping::kept(old(self)@, final(self)@),
    {
        self.register(
            Obligation::Projection {
                self_ty: self_ty,
                trait_def: trait_def,
                args: args,
                assoc: sym("Output"),
                out: dup_ty(&out),
                origin: node,
                method: Some(method),
            },
        );
        out
    }

    /// Type a prefix operator through its trait. A primitive or still unknown
    /// operand keeps its own type through it.
    pub fn infer_prefix_op(&mut self, env: &InferCx, node: NodeId, tag: &'static str, oty: Ty) -> (r: Ty)
        ensures
            (final(self)@, r) == infer_prefix_op_spec(old(self)@, env, node, tag, oty),
            crate::keeping::kept(old(self)@, final(self)@),
    {
        match lang_def(env.tables, tag) {
            Some(trait_def) => {
                let out = self.fresh();
                if !is_nominal(&self.shallow(&oty, DEPTH_LIMIT)) {
                    let _clash = self.unify(&out, &oty, DEPTH_LIMIT);
                }
                self.project_output(node, oty, trait_def, List::Nil, out, sym(tag))
            },
            _ => {
                oty
            },
        }
    }

    /// Type an assignment's place: `a[i]` is the write side of indexing.
    pub fn infer_index_place(&mut self, env: &InferCx, place: NodeId, fuel: u64) -> (r: Ty)
        ensures
            (final(self)@, r) == infer_index_place_spec(old(self)@, env, place, fuel),
            crate::keeping::kept(old(self)@, final(self)@),
        decreases fuel,
    {
        if fuel == 0 {
            self.give_up();
            return Ty::Error;
        }
        match kind_of(env.tables, self.file, place) {
            Some(NodeKind::Index { base, index }) => {
                let bty = self.infer_expr(env, *base, (fuel - 1) as u64);
                let ity = self.infer_expr(env, *index, (fuel - 1) as u64);
                let bty = self.settle(env, &bty, (fuel - 1) as u64);
                let head = self.autoderef(&bty, DEPTH_LIMIT);
                if is_error(&head) {
                    self.set_type(place, Ty::Error);
                    return Ty::Error;
                }
                // A built-in sequence is written through the same impl it is read through.
                if has_len(&head) {
                    self.set_index_write(self.file, place, IndexWrite);
                    let out = self.infer_index_op(env, place, head, ity);
                    self.set_type(place, dup_ty(&out));
                    return out;
                }
                match lang_def(env.tables, "index_mut") {
                    Some(trait_def) => {
                        let out = self.fresh();
                        let out = self.project_output(
                            place,
                            head,
                            trait_def,
                            single(ity),
                            out,
                            sym("index_mut"),
                        );
                        self.set_type(place, dup_ty(&out));
                        out
                    },
                    _ => {
                        Ty::Error
                    },
                }
            },
            _ => {
                self.infer_expr(env, place, (fuel - 1) as u64)
            },
        }
    }

    /// Type `a[i]` through the index trait.
    pub fn infer_index_op(&mut self, env: &InferCx, node: NodeId, base: Ty, index: Ty) -> (r: Ty)
        ensures
            (final(self)@, r) == infer_index_op_spec(old(self)@, env, node, base, index),
            crate::keeping::kept(old(self)@, final(self)@),
    {
        if is_error(&base) {
            return Ty::Error;
        }
        match lang_def(env.tables, "index") {
            Some(trait_def) => {
                let out = self.fresh();
                self.project_output(node, base, trait_def, single(index), out, sym("index"))
            },
            _ => {
                Ty::Error
            },
        }
    }

    /// A binary operator.
    pub fn infer_binary(
        &mut self,
        env: &InferCx,
        node: NodeId,
        op: BinOp,
        lhs: NodeId,
        rhs: NodeId,
        fuel: u64,
    ) -> (r: Ty)
        ensures
            (final(self)@, r) == infer_binary_spec(old(self)@, env, node, op, lhs, rhs, fuel),
            crate::keeping::kept(old(self)@, final(self)@),
        decreases fuel,
    {
        if fuel == 0 {
            self.give_up();
            return Ty::Error;
        }
        let lty = self.infer_expr(env, lhs, (fuel - 1) as u64);
        let rty = self.infer_expr(env, rhs, (fuel - 1) as u64);
        let lty = self.pin_str(&lty);
        let rty = self.pin_str(&rty);
        if op == BinOp::And || op == BinOp::Or {
            self.expect(env, lhs, &lty, &Ty::Bool, (fuel - 1) as u64);
            self.expect(env, rhs, &rty, &Ty::Bool, (fuel - 1) as u64);
            Ty::Bool
        } else if is_comparison(op) {
            self.expect(env, rhs, &rty, &lty, (fuel - 1) as u64);
            self.check_order_bound(env, node, op, &lty);
            Ty::Bool
        } else {
            self.infer_arith_op(env, node, op, lty, rty, (fuel - 1) as u64)
        }
    }

    /// Require that a compared type can be: a user type must implement equality or
    /// ordering, and the numeric core compares on its own. One not known yet waits.
    pub fn check_order_bound(&mut self, env: &InferCx, node: NodeId, op: BinOp, lty: &Ty)
        ensures
            final(self)@ == check_order_bound_spec(old(self)@, env, node, op, lty),
            crate::keeping::kept(old(self)@, final(self)@),
    {
        let s = self.shallow(lty, DEPTH_LIMIT);
        if is_var(&s) {
            self.register(Obligation::Comparison { self_ty: dup_ty(lty), op: op, origin: node });
        } else if is_nominal(&s) && !is_ptr_sized(env.tables, &s) {
            let equality = op == BinOp::Eq || op == BinOp::Ne;
            let tag: &'static str = if equality {
                "eq"
            } else {
                "ord"
            };
            let method: &'static str = if equality {
                "eq"
            } else {
                "cmp"
            };
            match lang_def(env.tables, tag) {
                Some(trait_def) => {
                    self.register(
                        Obligation::Trait {
                            self_ty: dup_ty(lty),
                            trait_def: trait_def,
                            args: List::Nil,
                            origin: node,
                            stamp: Some(sym(method)),
                        },
                    );
                },
                None => {},
            }
        }
    }

    /// Type an arithmetic operator through its trait. Operands of the numeric core
    /// have one type, which is the result's; a user type is left to its impl.
    pub fn infer_arith_op(
        &mut self,
        env: &InferCx,
        node: NodeId,
        op: BinOp,
        lty: Ty,
        rty: Ty,
        fuel: u64,
    ) -> (r: Ty)
        ensures
            (final(self)@, r) == infer_arith_op_spec(old(self)@, env, node, op, lty, rty, fuel),
            crate::keeping::kept(old(self)@, final(self)@),
        decreases fuel,
    {
        if fuel == 0 {
            self.give_up();
            return Ty::Error;
        }
        match lang_def(env.tables, binop_lang(op)) {
            Some(trait_def) => {
                let out = self.fresh();
                let l = self.shallow(&lty, DEPTH_LIMIT);
                if !is_nominal(&l) || self.numeric_distinct_repr(&l).is_some() {
                    self.expect(env, node, &rty, &lty, (fuel - 1) as u64);
                    let _clash = self.unify(&out, &lty, (fuel - 1) as u64);
                }
                self.project_output(node, lty, trait_def, single(rty), out, sym(binop_method(op)))
            },
            _ => {
                self.expect(env, node, &rty, &lty, (fuel - 1) as u64);
                lty
            },
        }
    }

    /// The type of a path expression.
    pub fn path_ty(&mut self, env: &InferCx, node: NodeId, fuel: u64) -> (r: Ty)
        ensures
            (final(self)@, r) == path_ty_spec(old(self)@, env, node, fuel),
            crate::keeping::kept(old(self)@, final(self)@),
        decreases fuel,
    {
        if fuel == 0 {
            self.give_up();
            return Ty::Error;
        }
        match self.resolved_def(env, node) {
            Some(def) => self.def_ty(env, node, def, (fuel - 1) as u64),
            None => Ty::Error,
        }
    }

    /// The type a value-position reference to a definition has.
    pub fn def_ty(&mut self, env: &InferCx, node: NodeId, def: DefId, fuel: u64) -> (r: Ty)
        ensures
            (final(self)@, r) == def_ty_spec(old(self)@, env, node, def, fuel),
            crate::keeping::kept(old(self)@, final(self)@),
        decreases fuel,
    {
        if fuel == 0 {
            self.give_up();
            return Ty::Error;
        }
        match self.get_local(def) {
            Some(ty) => {
                return ty;
            },
            None => {},
        }
        match def_kind(env.tables, def) {
            DefKind::Func => if is_c_variadic(env.tables, def) {
                self.report_with_note(
                    env,
                    node,
                    say_name(
                        "`",
                        &def_name(env.tables, def),
                        "` is `#c_vararg` and can only be called, not used as a value",
                    ),
                    say(
                        "a variadic tail is part of the calling convention, and a function pointer does not carry one",
                    ),
                );
                Ty::Error
            } else {
                self.func_def_ty(env, def, (fuel - 1) as u64)
            },
            DefKind::Overload => {
                self.report_with_note(
                    env,
                    node,
                    say_name(
                        "`",
                        &def_name(env.tables, def),
                        "` is an overload set, which can only be called",
                    ),
                    say(
                        "which of its functions is meant is decided by the arguments of a call; name the one you want instead",
                    ),
                );
                Ty::Error
            },
            DefKind::Struct => self.nominal_of(env, def),
            DefKind::Enum => self.nominal_of(env, def),
            DefKind::Const => self.const_def_ty(env, node, def, (fuel - 1) as u64),
            DefKind::ConstParam => self.const_param_ty(env, def, (fuel - 1) as u64),
            DefKind::External => Ty::Error,
            DefKind::Namespace => self.not_a_value(env, node, def, DefKind::Namespace),
            DefKind::Trait => self.not_a_value(env, node, def, DefKind::Trait),
            _ => self.fresh(),
        }
    }

    /// Complain about a name that stands for no value.
    pub fn not_a_value(&mut self, env: &InferCx, node: NodeId, def: DefId, kind: DefKind) -> (r: Ty)
        ensures
            (final(self)@, r) == not_a_value_spec(old(self)@, env, node, def, kind),
            crate::keeping::kept(old(self)@, final(self)@),
    {
        self.report(
            env,
            node,
            list5(
                Part::Text("`"),
                Part::Name(written_path_in(env.tables, self.file, node, def, DEPTH_LIMIT)),
                Part::Text("` is a "),
                Part::Text(kind_label(kind)),
                Part::Text(", not a value"),
            ),
        );
        Ty::Error
    }

    /// The type of a constant at one use. A constant defined by itself has none.
    pub fn const_def_ty(&mut self, env: &InferCx, node: NodeId, def: DefId, fuel: u64) -> (r: Ty)
        ensures
            (final(self)@, r) == const_def_ty_spec(old(self)@, env, node, def, fuel),
            crate::keeping::kept(old(self)@, final(self)@),
        decreases fuel,
    {
        if fuel == 0 {
            self.give_up();
            return Ty::Error;
        }
        proof {
            reveal(crate::keeping::kept);
        }
        if def_in(&self.const_stack, def) {
            return Ty::Error;
        }
        match recorded_const_ty(env.tables, def) {
            Some(shape) => {
                self.push_const_def(def);
                let ty = self.const_shape_ty(env, node, shape, (fuel - 1) as u64);
                self.pop_const_def();
                return ty;
            },
            None => {},
        }
        match def_place(env.tables, def) {
            Some((file, at)) => {
                match kind_of(env.tables, file, at) {
                    Some(NodeKind::ConstBind { pattern: _, rhs }) => {
                        self.push_const_def(def);
                        let ty = self.const_rhs_ty(env, file, at, *rhs, (fuel - 1) as u64);
                        self.pop_const_def();
                        ty
                    },
                    _ => {
                        self.fresh()
                    },
                }
            },
            _ => {
                self.fresh()
            },
        }
    }

    /// The type a use of a constant has, from the shape recorded for it: each use of
    /// a literal settles its own variable.
    pub fn const_shape_ty(&mut self, env: &InferCx, node: NodeId, shape: ConstTy, fuel: u64) -> (r: Ty)
        ensures
            (final(self)@, r) == const_shape_ty_spec(old(self)@, env, node, shape, fuel),
            crate::keeping::kept(old(self)@, final(self)@),
        decreases fuel,
    {
        if fuel == 0 {
            self.give_up();
            return Ty::Error;
        }
        match shape {
            ConstTy::ComptimeInt => self.fresh_of(TyVarKind::Int),
            ConstTy::ComptimeFloat => self.fresh_of(TyVarKind::Float),
            ConstTy::ComptimeStr => match lang_item(env.tables, "str") {
                Some(_) => self.fresh_of(TyVarKind::Str),
                None => Ty::Error,
            },
            ConstTy::Same(other) => self.def_ty(env, node, other, (fuel - 1) as u64),
            ConstTy::Settled(ty) => ty,
        }
    }

    /// The type a constant's right-hand side gives it, read where it was declared.
    pub fn const_rhs_ty(
        &mut self,
        env: &InferCx,
        file: FileId,
        node: NodeId,
        rhs: NodeId,
        fuel: u64,
    ) -> (r: Ty)
        ensures
            (final(self)@, r) == const_rhs_ty_spec(old(self)@, env, file, node, rhs, fuel),
            crate::keeping::kept(old(self)@, final(self)@),
        decreases fuel,
    {
        if fuel == 0 {
            self.give_up();
            return Ty::Error;
        }
        match kind_of(env.tables, file, rhs) {
            Some(NodeKind::Lit(l)) => self.lit_ty(env, l),
            Some(NodeKind::Unary { op: UnOp::Neg, operand }) => self.const_rhs_ty(
                env,
                file,
                node,
                *operand,
                (fuel - 1) as u64,
            ),
            Some(NodeKind::Path { .. }) => match self.resolved_def_in(env, file, rhs) {
                Some(d) => self.def_ty(env, rhs, d, (fuel - 1) as u64),
                None => Ty::Error,
            },
            Some(
                NodeKind::AssocConst { ty, default: _ },
            ) => self.ty_from_node_in(env, file, *ty, (fuel - 1) as u64),
            _ => if file == self.file {
                self.infer_expr(env, rhs, (fuel - 1) as u64)
            } else {
                // What inferring that file recorded, where it is settled.
                match self.get_ty(file, node) {
                    Some(t) => if mentions(&t, Mention::Var) || mentions(&t, Mention::Error) {
                        self.fresh()
                    } else {
                        t
                    },
                    None => self.fresh(),
                }
            },
        }
    }

    /// The type an expression names, or `None` where it is a value.
    pub fn type_denoted_by(&mut self, env: &InferCx, node: NodeId, fuel: u64) -> (r: Option<Ty>)
        ensures
            (final(self)@, r) == type_denoted_by_spec(old(self)@, env, node, fuel),
            crate::keeping::kept(old(self)@, final(self)@),
        decreases fuel,
    {
        if fuel == 0 {
            self.give_up();
            return None;
        }
        match denoting_head(env.tables, self.file, node) {
            Some(head) => {
                match self.resolved_def(env, head) {
                    Some(named) => {
                        if !denotes_type(def_kind(env.tables, resolve_alias(env.tables, named))) {
                            return None;
                        }
                        let ty = self.ty_from_node(env, node, (fuel - 1) as u64);
                        if is_error(&ty) || is_var(&self.shallow(&ty, DEPTH_LIMIT)) {
                            None
                        } else {
                            Some(ty)
                        }
                    },
                    _ => {
                        None
                    },
                }
            },
            _ => {
                None
            },
        }
    }

    /// An associated item read through a type: a type parameter's bounds answer for
    /// it, and otherwise an impl whose target matches the type, or what it is
    /// distinct from.
    pub fn assoc_through_type(
        &mut self,
        env: &InferCx,
        node: NodeId,
        ty: &Ty,
        name: &Symbol,
        fuel: u64,
    ) -> (r: Option<Ty>)
        ensures
            (final(self)@, r) == assoc_through_type_spec(old(self)@, env, node, ty, name, fuel),
            crate::keeping::kept(old(self)@, final(self)@),
        decreases fuel,
    {
        if fuel == 0 {
            self.give_up();
            return None;
        }
        let s = self.shallow(ty, DEPTH_LIMIT);
        match type_param_of(env.tables, &s) {
            Some(def) => {
                return match trait_const(env.tables, &self.param_bound_traits(env, def), name) {
                    Some(m) => {
                        self.set_resolution(self.file, node, Resolution::Def(m));
                        let out = self.def_ty(env, node, m, (fuel - 1) as u64);
                        self.set_assoc_ty(self.file, node, AssocTy(dup_ty(&out)));
                        Some(out)
                    },
                    None => None,
                };
            },
            None => {},
        }
        let direct = self.impl_assoc_def(env, &s, name, (fuel - 1) as u64);
        let found = match direct {
            Some((i, m)) => Some((s, i, m)),
            None => {
                let repr = self.distinct_repr(env, &s, (fuel - 1) as u64);
                match repr {
                    Some(r) => {
                        let r = self.shallow(&r, DEPTH_LIMIT);
                        let inherited = self.impl_assoc_def(env, &r, name, (fuel - 1) as u64);
                        match inherited {
                            Some((i, m)) => Some((r, i, m)),
                            None => None,
                        }
                    },
                    None => None,
                }
            },
        };
        match found {
            Some((matched, i, m)) => {
                let map = self.commit_impl(env, i, &matched, &List::Nil, node, (fuel - 1) as u64);
                self.set_resolution(self.file, node, Resolution::Def(m));
                match get_impl(env, i) {
                    Some(imp) => {
                        if !is_empty(&imp.generics) {
                            self.set_instantiation(
                                self.file,
                                node,
                                Instantiation(generic_args(&imp.generics, &map)),
                            );
                        }
                    },
                    None => {},
                }
                let raw = self.def_ty(env, node, m, (fuel - 1) as u64);
                let out = self.resolve(&subst_ty(&raw, &map), DEPTH_LIMIT);
                // `Self` is the type that was read through.
                let out = if ty_eq(&out, &matched) {
                    dup_ty(ty)
                } else {
                    out
                };
                self.set_assoc_ty(self.file, node, AssocTy(dup_ty(&out)));
                Some(out)
            },
            _ => {
                None
            },
        }
    }

    /// Weigh every impl that supplies a constant for a type.
    pub fn consider_assocs(
        &mut self,
        env: &InferCx,
        i: u64,
        ty: &Ty,
        name: &Symbol,
        best: Option<BestMember>,
        fuel: u64,
    ) -> (r: Option<BestMember>)
        ensures
            (final(self)@, r) == consider_assocs_spec(old(self)@, env, i, ty, name, best, fuel),
            crate::keeping::kept(old(self)@, final(self)@),
        decreases fuel, u64::MAX - i,
    {
        if fuel == 0 {
            self.give_up();
            return best;
        }
        match get_impl(env, i) {
            Some(imp) => match impl_const(env.tables, imp, name) {
                Some(m) => if impl_reachable(env, imp) {
                    let fits = self.trial_impl(env, i, ty, &List::Nil, (fuel - 1) as u64);
                    let next = if fits {
                        consider_member(best, impl_score(imp), i, m)
                    } else {
                        best
                    };
                    self.consider_assocs(env, succ(i), ty, name, next, fuel)
                } else {
                    self.consider_assocs(env, succ(i), ty, name, best, fuel)
                },
                None => self.consider_assocs(env, succ(i), ty, name, best, fuel),
            },
            None => best,
        }
    }

    /// The impl that provides an associated constant for a type, and the member. Two
    /// equally specific ones answer nothing.
    pub fn impl_assoc_def(
        &mut self,
        env: &InferCx,
        ty: &Ty,
        name: &Symbol,
        fuel: u64,
    ) -> (r: Option<(u64, DefId)>)
        ensures
            (final(self)@, r) == impl_assoc_def_spec(old(self)@, env, ty, name, fuel),
            crate::keeping::kept(old(self)@, final(self)@),
        decreases fuel,
    {
        if fuel == 0 {
            self.give_up();
            return None;
        }
        if is_error(ty) || is_var(ty) {
            return None;
        }
        let best = self.consider_assocs(env, 0, ty, name, None, (fuel - 1) as u64);
        match best {
            Some(b) => if b.tied {
                None
            } else {
                Some((b.index, b.member))
            },
            None => None,
        }
    }

    /// Type one call argument. A closure is typed against the parameter it fills.
    pub fn infer_arg(&mut self, env: &InferCx, n: NodeId, wanted: Option<Ty>, fuel: u64) -> (r: Ty)
        ensures
            (final(self)@, r) == infer_arg_spec(old(self)@, env, n, wanted, fuel),
            crate::keeping::kept(old(self)@, final(self)@),
        decreases fuel,
    {
        if fuel == 0 {
            self.give_up();
            return Ty::Error;
        }
        match closure_in(env.tables, self.file, n) {
            Some(c) => {
                let t = self.infer_closure(env, c, wanted, (fuel - 1) as u64);
                self.set_type(c, dup_ty(&t));
                self.set_type(n, dup_ty(&t));
                t
            },
            None => self.infer_expr(env, n, (fuel - 1) as u64),
        }
    }

    /// The type of a definition as a local, or an error.
    pub fn local_or_error(&self, def: Option<DefId>) -> (r: Ty)
        ensures
            r == local_or_error_spec(self@, def),
    {
        match def {
            Some(d) => match self.get_local(d) {
                Some(t) => t,
                None => Ty::Error,
            },
            None => Ty::Error,
        }
    }

    /// A copy a closure captures is typed as what it copies.
    pub fn type_captures(&mut self, env: &InferCx, l: &List<NodeId>)
        ensures
            final(self)@ == type_captures_spec(old(self)@, env, l),
            crate::keeping::kept(old(self)@, final(self)@),
        decreases l,
    {
        match l {
            List::Nil => {},
            List::Cons(c, rest) => {
                let t = self.local_or_error(self.resolved_def(env, *c));
                match self.def_of(*c) {
                    Some(inner) => {
                        self.set_local(inner, dup_ty(&t));
                    },
                    None => {},
                }
                self.set_type(*c, t);
                self.type_captures(env, rest);
            },
        }
    }

    /// A closure's parameters: what is written, held to what is hinted; else what is
    /// hinted; else a variable.
    pub fn closure_params(
        &mut self,
        env: &InferCx,
        l: &List<NodeId>,
        i: u64,
        hint: &Option<(List<Ty>, Option<Ty>)>,
        fuel: u64,
    ) -> (r: List<Ty>)
        ensures
            (final(self)@, r) == closure_params_spec(old(self)@, env, l, i, hint, fuel),
            crate::keeping::kept(old(self)@, final(self)@),
        decreases fuel, l,
    {
        if fuel == 0 {
            self.give_up();
            return List::Nil;
        }
        match l {
            List::Nil => List::Nil,
            List::Cons(p, rest) => match kind_of(env.tables, self.file, *p) {
                Some(NodeKind::Param { name: _, ty, default: _ }) => {
                    let pty = match (ty, hinted(hint, i)) {
                        (Some(t), Some(h)) => {
                            let t = self.ty_from_node(env, *t, (fuel - 1) as u64);
                            self.expect(env, *p, &h, &t, (fuel - 1) as u64);
                            t
                        },
                        (Some(t), None) => self.ty_from_node(env, *t, (fuel - 1) as u64),
                        (None, Some(h)) => h,
                        (None, None) => self.fresh(),
                    };
                    match self.def_of(*p) {
                        Some(def) => {
                            self.set_local(def, dup_ty(&pty));
                        },
                        None => {},
                    }
                    self.set_type(*p, dup_ty(&pty));
                    let others = self.closure_params(env, rest, succ(i), hint, fuel);
                    List::Cons(pty, Box::new(others))
                },
                _ => self.closure_params(env, rest, succ(i), hint, fuel),
            },
        }
    }

    /// The trait whose default body a function is.
    pub fn default_body_of(&self, env: &InferCx, func: Option<NodeId>) -> (r: Option<DefId>)
        ensures
            r == default_body_of_spec(self@, env, func),
    {
        match func {
            Some(f) => match self.func_owner(env, f) {
                Some(owner) => match def_parent(env.tables, owner) {
                    Some(p) => if def_kind(env.tables, p) == DefKind::Trait {
                        Some(p)
                    } else {
                        None
                    },
                    None => None,
                },
                None => None,
            },
            None => None,
        }
    }

    /// The types of the locals a closure shares.
    pub fn shared_types(&self, l: &List<DefId>) -> (r: List<Ty>)
        ensures
            r == shared_types_spec(self@, l),
        decreases l,
    {
        match l {
            List::Nil => List::Nil,
            List::Cons(d, rest) => List::Cons(
                self.local_or_error(Some(*d)),
                Box::new(self.shared_types(rest)),
            ),
        }
    }

    /// What a closure written in the function being inferred is generic over.
    pub fn closure_generics(&mut self, env: &InferCx) -> (r: List<DefId>)
        ensures
            (final(self)@, r) == closure_generics_spec(old(self)@, env),
            crate::keeping::kept(old(self)@, final(self)@),
    {
        let from_func = match self.func {
            Some(f) => self.generics_of_func(env, f),
            None => None,
        };
        let own = match from_func {
            Some(g) => only_type_params(env.tables, &g.params),
            None => List::Nil,
        };
        match self.default_body_of(env, self.func) {
            Some(trait_def) => append(own, trait_generics(env.tables, trait_def)),
            None => own,
        }
    }

    /// Type a closure where it is written: inside the body that writes it, with
    /// parameters taken from what it is passed to, returns of its own, and no way to
    /// break out of the loop around it.
    pub fn infer_closure(&mut self, env: &InferCx, node: NodeId, expected: Option<Ty>, fuel: u64) -> (r: Ty)
        ensures
            (final(self)@, r) == infer_closure_spec(old(self)@, env, node, expected, fuel),
            crate::keeping::kept(old(self)@, final(self)@),
        decreases fuel,
    {
        if fuel == 0 {
            self.give_up();
            return Ty::Error;
        }
        proof {
            reveal(crate::keeping::kept);
        }
        match kind_of(env.tables, self.file, node) {
            Some(NodeKind::Closure { captures, params, ret, body }) => {
                match self.get_closure_defs(self.file, node) {
                    Some(defs) => {
                        self.type_captures(env, captures);
                        let hint = match expected {
                            Some(e) => self.closure_hint(env, &e, list_len(params)),
                            None => None,
                        };
                        let ptys = self.closure_params(env, params, 0, &hint, (fuel - 1) as u64);
                        let rty = match (ret, hinted_ret(hint)) {
                            (Some(t), _) => self.ty_from_node(env, *t, (fuel - 1) as u64),
                            (None, Some(r)) => r,
                            (None, None) => self.fresh(),
                        };
                        let outer_ret = dup_ty(&self.ret);
                        let outer_breaks = dup_breaks(&self.breaks);
                        self.ret = dup_ty(&rty);
                        self.breaks = List::Nil;
                        let bty = self.infer_expr(env, *body, (fuel - 1) as u64);
                        self.expect_return(env, *body, &bty, &rty, (fuel - 1) as u64);
                        self.ret = outer_ret;
                        self.breaks = outer_breaks;
                        let generics = self.closure_generics(env);
                        let shared = match self.get_captures(self.file, node) {
                            Some(l) => self.shared_types(&l),
                            None => List::Nil,
                        };
                        let args = nominals(&generics);
                        self.set_closure_sig(
                            self.file,
                            node,
                            ClosureSig { params: ptys, ret: rty, generics: generics, shared: shared },
                        );
                        Ty::Nominal { def: defs.ty, args: Box::new(args) }
                    },
                    _ => {
                        Ty::Error
                    },
                }
            },
            _ => {
                Ty::Error
            },
        }
    }

    /// What the queued `Func` projections of a variable say about a call of it.
    pub fn func_hints(&self, l: &List<Obligation>, func: DefId, v: &Ty) -> (r: (Option<List<Ty>>, Option<Ty>))
        ensures
            r == func_hints_spec(self@, l, func, v),
        decreases l,
    {
        match l {
            List::Nil => (None, None),
            List::Cons(ob, rest) => {
                let (params, ret) = self.func_hints(rest, func, v);
                match ob {
                    Obligation::Projection {
                        self_ty,
                        trait_def,
                        args: _,
                        assoc,
                        out,
                        origin: _,
                        method: _,
                    } => {
                        if *trait_def == func && ty_eq(&self.shallow(self_ty, DEPTH_LIMIT), v) {
                            if sym_is(assoc, "Args") {
                                (
                                    if params.is_some() { params } else { Some(
                                        tuple_elems(&self.shallow(out, DEPTH_LIMIT)),
                                    ) },
                                    ret,
                                )
                            } else if sym_is(assoc, "Output") {
                                (params, if ret.is_some() { ret } else { Some(dup_ty(out)) })
                            } else {
                                (params, ret)
                            }
                        } else {
                            (params, ret)
                        }
                    },
                    _ => (params, ret),
                }
            },
        }
    }

    /// What an expected type says a closure of some arity takes and answers: a
    /// function pointer outright, and a variable through the `Func` bound its call
    /// registered for it.
    pub fn closure_hint(
        &self,
        env: &InferCx,
        expected: &Ty,
        arity: u64,
    ) -> (r: Option<(List<Ty>, Option<Ty>)>)
        ensures
            r == closure_hint_spec(self@, env, expected, arity),
    {
        match lang_def(env.tables, "func") {
            Some(func) => match self.shallow(expected, DEPTH_LIMIT) {
                Ty::Func { params, ret, c: _ } => if list_len(&params) == arity {
                    Some((*params, Some(*ret)))
                } else {
                    None
                },
                Ty::Var(v) => {
                    let (params, ret) = self.func_hints(&self.pending(), func, &Ty::Var(v));
                    match params {
                        Some(ps) => if list_len(&ps) == arity {
                            Some((ps, ret))
                        } else {
                            None
                        },
                        None => None,
                    }
                },
                _ => None,
            },
            None => None,
        }
    }

    /// Type one value definition where it is declared.
    pub fn infer_global(&mut self, env: &InferCx, def: DefId, fuel: u64)
        ensures
            final(self)@ == infer_global_spec(old(self)@, env, def, fuel),
            crate::keeping::kept(old(self)@, final(self)@),
        decreases fuel,
    {
        if fuel == 0 {
            self.give_up();
            return;
        }
        match def_node(env.tables, def) {
            Some(node) => match kind_of(env.tables, self.file, node) {
                Some(NodeKind::ConstBind { pattern: _, rhs }) => {
                    let ty = match kind_of(env.tables, self.file, *rhs) {
                        Some(NodeKind::AssocConst { ty, default }) => self.infer_typed_const(
                            env,
                            *ty,
                            *default,
                            (fuel - 1) as u64,
                        ),
                        _ => {
                            let open = self.comptime_rhs_ty(env, *rhs, (fuel - 1) as u64);
                            match open {
                                Some(t) => t,
                                None => self.infer_expr(env, *rhs, (fuel - 1) as u64),
                            }
                        },
                    };
                    self.set_type(node, ty);
                },
                _ => {},
            },
            None => {},
        }
    }

    /// The open type of a constant that is a bare or signed literal, recorded on every
    /// node of it: such a constant has no single runtime type.
    pub fn comptime_rhs_ty(&mut self, env: &InferCx, rhs: NodeId, fuel: u64) -> (r: Option<Ty>)
        ensures
            (final(self)@, r) == comptime_rhs_ty_spec(old(self)@, env, rhs, fuel),
            crate::keeping::kept(old(self)@, final(self)@),
        decreases fuel,
    {
        if fuel == 0 {
            self.give_up();
            return None;
        }
        let ty = match kind_of(env.tables, self.file, rhs) {
            Some(NodeKind::Lit(Lit::Int(_))) => Some(Ty::ComptimeInt),
            Some(NodeKind::Lit(Lit::Float(_))) => Some(Ty::ComptimeFloat),
            Some(NodeKind::Lit(Lit::Str(_))) => match lang_item(env.tables, "str") {
                Some(_) => Some(Ty::ComptimeStr),
                None => None,
            },
            Some(
                NodeKind::Unary { op: UnOp::Neg, operand },
            ) => if is_text_lit(kind_of(env.tables, self.file, *operand)) {
                None
            } else {
                self.comptime_rhs_ty(env, *operand, (fuel - 1) as u64)
            },
            _ => None,
        };
        match ty {
            Some(t) => {
                self.set_type(rhs, dup_ty(&t));
                Some(t)
            },
            None => None,
        }
    }
}

} // verus!
