//! The trait solver: selecting impls, projecting associated types, and
//! discharging what inference left to be settled.

use vstd::prelude::*;

use crate::ast::{CompositeBody, NodeKind};
use crate::bigint::int_of;
use crate::decls::recorded_pinned;
use crate::def::{
    def_in, def_kind, def_place, dup_defs, find_member, get_def, kind_of, lang_def, member_of, resolve_alias,
    DefKind, ImplInfo, Projection, Tables,
};
use crate::diag::{dup_part, quoted_names, say, say_name, say_ty, Part};
use crate::facts::{BuiltinOp, OpResolution, StaticTraitSelf};
use crate::ids::{DefId, FileId, NodeId};
use crate::list::{
    append, is_empty, list2, list3, list5, list6, list7, list_len, nth, single, succ, DEPTH_LIMIT, List,
};
use crate::lower::{merge_defs, record_field_names};
use crate::subst::{
    args_tuple, bind_const, bind_ty, bound_to, is_error, is_var, no_subst, of_types, position_of,
    sort_by_name, sort_named, subst_ty, subst_tys, tuple_elems, zip_subst, Subst,
};
use crate::symbol::{dup_sym, sym, sym_eq, sym_in, sym_is, Symbol};
use crate::ty::{const_value, dup_ty, dup_tys, find_named, is_float, is_int, Const, ConstValue, Ty};
use crate::types::has_projection;
use crate::unify::{InferCx, Inferer, InfererV, Obligation, TyVarKind};

verus! {

broadcast use {
    crate::keeping::kept_by_both,
    crate::keeping::kept_by_nothing,
    crate::keeping::loops_stand_on,
    crate::keeping::loops_stand_still,
};

/// The outcome of attempting one obligation.
#[derive(Debug, Clone, Copy, PartialEq, Eq, Structural)]
pub enum Outcome {
    /// Discharged.
    Solved,
    /// Blocked on an unsolved variable.
    Deferred,
    /// Unsatisfiable, and reported.
    Failed,
}

/// The selected impl: the machine's own, or a written one by its position.
#[derive(Debug, Clone, Copy, PartialEq, Eq, Structural)]
pub enum Choice {
    Builtin(BuiltinOp),
    User(u64),
}

/// The result of impl selection.
#[derive(Debug, Clone, Copy, PartialEq, Eq, Structural)]
pub enum Select {
    /// A unique best impl was found.
    Found(Choice),
    /// The self type is not known yet.
    Defer,
    /// No candidate applies to a known self type.
    NoImpl,
    /// The self type is a type parameter the trait bounds: the impl is chosen
    /// when it is instantiated.
    ByBound,
    /// Two or more equally specific impls apply.
    Ambiguous,
    /// The self type is already an error.
    Error,
}

/// The best candidate so far, and whether another is as good.
#[derive(Debug, Clone, Copy, PartialEq, Eq, Structural)]
pub struct Best {
    pub score: u64,
    pub choice: Choice,
    pub tied: bool,
}

/// The impl at a position.
pub open spec fn get_impl_spec<'a>(cx: &InferCx<'a>, i: u64) -> Option<&'a ImplInfo> {
    if i < cx.impls@.len() && i < u64::MAX { Some(&cx.impls@[i as int]) } else { None }
}

/// The impl at a position.
pub fn get_impl<'a>(cx: &InferCx<'a>, i: u64) -> (r: Option<&'a ImplInfo>)
    ensures
        r == get_impl_spec(cx, i),
{
    if i < cx.impls.len() as u64 { Some(&cx.impls[i as usize]) } else { None }
}

/// How many impls there are.
pub open spec fn impl_count_spec(cx: &InferCx) -> u64 {
    cx.impls@.len() as u64
}

/// How many impls there are.
pub fn impl_count(cx: &InferCx) -> (r: u64)
    ensures
        r == impl_count_spec(cx),
{
    cx.impls.len() as u64
}

// The machine's own impls.

/// [`builtin_for_tag`], as a mathematical function.
pub open spec fn builtin_for_tag_spec(tag: &Symbol) -> Option<BuiltinOp> {
    if crate::symbol::sym_is_spec(tag, "add") {
        Some(BuiltinOp::Add)
    } else if crate::symbol::sym_is_spec(tag, "sub") {
        Some(BuiltinOp::Sub)
    } else if crate::symbol::sym_is_spec(tag, "mul") {
        Some(BuiltinOp::Mul)
    } else if crate::symbol::sym_is_spec(tag, "div") {
        Some(BuiltinOp::Div)
    } else if crate::symbol::sym_is_spec(tag, "rem") {
        Some(BuiltinOp::Rem)
    } else if crate::symbol::sym_is_spec(tag, "bitand") {
        Some(BuiltinOp::BitAnd)
    } else if crate::symbol::sym_is_spec(tag, "bitor") {
        Some(BuiltinOp::BitOr)
    } else if crate::symbol::sym_is_spec(tag, "bitxor") {
        Some(BuiltinOp::BitXor)
    } else if crate::symbol::sym_is_spec(tag, "shl") {
        Some(BuiltinOp::Shl)
    } else if crate::symbol::sym_is_spec(tag, "shr") {
        Some(BuiltinOp::Shr)
    } else if crate::symbol::sym_is_spec(tag, "neg") {
        Some(BuiltinOp::Neg)
    } else if crate::symbol::sym_is_spec(tag, "bitnot") {
        Some(BuiltinOp::BitNot)
    } else {
        None
    }
}

/// The operation a `#lang` tag stands for on the machine's own types.
pub fn builtin_for_tag(tag: &Symbol) -> (r: Option<BuiltinOp>)
    ensures
        r == builtin_for_tag_spec(tag),
{
    if sym_is(tag, "add") {
        Some(BuiltinOp::Add)
    } else if sym_is(tag, "sub") {
        Some(BuiltinOp::Sub)
    } else if sym_is(tag, "mul") {
        Some(BuiltinOp::Mul)
    } else if sym_is(tag, "div") {
        Some(BuiltinOp::Div)
    } else if sym_is(tag, "rem") {
        Some(BuiltinOp::Rem)
    } else if sym_is(tag, "bitand") {
        Some(BuiltinOp::BitAnd)
    } else if sym_is(tag, "bitor") {
        Some(BuiltinOp::BitOr)
    } else if sym_is(tag, "bitxor") {
        Some(BuiltinOp::BitXor)
    } else if sym_is(tag, "shl") {
        Some(BuiltinOp::Shl)
    } else if sym_is(tag, "shr") {
        Some(BuiltinOp::Shr)
    } else if sym_is(tag, "neg") {
        Some(BuiltinOp::Neg)
    } else if sym_is(tag, "bitnot") {
        Some(BuiltinOp::BitNot)
    } else {
        None
    }
}

/// [`builtin_method`], as a mathematical function.
pub open spec fn builtin_method_spec(op: BuiltinOp) -> Symbol {
    match op {
        BuiltinOp::Add => crate::symbol::sym_spec("add"),
        BuiltinOp::Sub => crate::symbol::sym_spec("sub"),
        BuiltinOp::Mul => crate::symbol::sym_spec("mul"),
        BuiltinOp::Div => crate::symbol::sym_spec("div"),
        BuiltinOp::Rem => crate::symbol::sym_spec("rem"),
        BuiltinOp::BitAnd => crate::symbol::sym_spec("bitand"),
        BuiltinOp::BitOr => crate::symbol::sym_spec("bitor"),
        BuiltinOp::BitXor => crate::symbol::sym_spec("bitxor"),
        BuiltinOp::Shl => crate::symbol::sym_spec("shl"),
        BuiltinOp::Shr => crate::symbol::sym_spec("shr"),
        BuiltinOp::Neg => crate::symbol::sym_spec("neg"),
        BuiltinOp::BitNot => crate::symbol::sym_spec("bitnot"),
        BuiltinOp::Not => crate::symbol::sym_spec("not"),
        BuiltinOp::Index => crate::symbol::sym_spec("index"),
    }
}

/// The trait method a machine operation is called by.
pub fn builtin_method(op: BuiltinOp) -> (r: Symbol)
    ensures
        r == builtin_method_spec(op),
{
    match op {
        BuiltinOp::Add => sym("add"),
        BuiltinOp::Sub => sym("sub"),
        BuiltinOp::Mul => sym("mul"),
        BuiltinOp::Div => sym("div"),
        BuiltinOp::Rem => sym("rem"),
        BuiltinOp::BitAnd => sym("bitand"),
        BuiltinOp::BitOr => sym("bitor"),
        BuiltinOp::BitXor => sym("bitxor"),
        BuiltinOp::Shl => sym("shl"),
        BuiltinOp::Shr => sym("shr"),
        BuiltinOp::Neg => sym("neg"),
        BuiltinOp::BitNot => sym("bitnot"),
        BuiltinOp::Not => sym("not"),
        BuiltinOp::Index => sym("index"),
    }
}

/// [`works_on_floats`], as a mathematical function.
pub open spec fn works_on_floats_spec(op: BuiltinOp) -> bool {
    match op {
        BuiltinOp::Add => true,
        BuiltinOp::Sub => true,
        BuiltinOp::Mul => true,
        BuiltinOp::Div => true,
        BuiltinOp::Rem => true,
        BuiltinOp::Neg => true,
        _ => false,
    }
}

/// Whether a machine operation works on floats as well as on integers.
pub fn works_on_floats(op: BuiltinOp) -> (r: bool)
    ensures
        r == works_on_floats_spec(op),
{
    match op {
        BuiltinOp::Add => true,
        BuiltinOp::Sub => true,
        BuiltinOp::Mul => true,
        BuiltinOp::Div => true,
        BuiltinOp::Rem => true,
        BuiltinOp::Neg => true,
        _ => false,
    }
}

/// [`builtin_for_trait`], as a mathematical function.
pub open spec fn builtin_for_trait_spec(t: &Tables, trait_def: DefId) -> Option<BuiltinOp> {
    match crate::def::get_def_spec(t, trait_def) {
        Some(d) => match &d.lang {
            Some(tag) => builtin_for_tag_spec(tag),
            None => None,
        },
        None => None,
    }
}

/// The machine operation a trait carries by its tag.
pub fn builtin_for_trait(t: &Tables, trait_def: DefId) -> (r: Option<BuiltinOp>)
    ensures
        r == builtin_for_trait_spec(t, trait_def),
{
    match get_def(t, trait_def) {
        Some(d) => match &d.lang {
            Some(tag) => builtin_for_tag(tag),
            None => None,
        },
        None => None,
    }
}

/// [`Inferer::builtin_matches`], as a mathematical function.
pub open spec fn builtin_matches_spec(st: InfererV, op: BuiltinOp, ty: &Ty) -> bool {
    if crate::ty::is_int_spec(ty) || (crate::ty::is_float_spec(ty) && works_on_floats_spec(op)) {
        true
    } else {
        match crate::unify::var_kind_spec(st, ty) {
            Some(TyVarKind::Int) => true,
            Some(TyVarKind::Float) => works_on_floats_spec(op),
            _ => false,
        }
    }
}

// Fulfilment.

/// [`Inferer::settle`], as a mathematical function.
pub open spec fn settle_spec(st: InfererV, env: &InferCx, ty: &Ty, fuel: u64) -> (InfererV, Ty)
    decreases fuel,
{
    if fuel == 0 {
        (crate::unify::give_up_spec(st), (*ty))
    } else {
        let s = crate::unify::shallow_spec(st, ty, DEPTH_LIMIT);
        if !crate::subst::is_var_spec(&s) {
            (st, s)
        } else {
            let st = solve_to_fixpoint_spec(st, env, (fuel - 1) as u64);
            (st, crate::unify::shallow_spec(st, ty, DEPTH_LIMIT))
        }
    }
}

/// [`Inferer::try_each`], as a mathematical function.
pub open spec fn try_each_spec(
    st: InfererV,
    env: &InferCx,
    l: List<Obligation>,
    fuel: u64,
) -> (InfererV, (List<Obligation>, bool))
    decreases fuel, l,
{
    if fuel == 0 {
        (crate::unify::give_up_spec(st), (l, false))
    } else {
        match l {
            List::Nil => (st, (List::Nil, false)),
            List::Cons(ob, rest) => {
                let (st, outcome) = try_solve_spec(st, env, &ob, (fuel - 1) as u64);
                let (st, (deferred, progressed)) = try_each_spec(st, env, *rest, fuel);
                if outcome == Outcome::Deferred {
                    (st, (List::Cons(ob, Box::new(deferred)), progressed))
                } else {
                    (st, (deferred, true))
                }
            },
        }
    }
}

/// [`Inferer::register_all`], as a mathematical function.
pub open spec fn register_all_spec(st: InfererV, l: List<Obligation>) -> InfererV
    decreases l,
{
    match l {
        List::Nil => {
            st
        },
        List::Cons(ob, rest) => {
            let st = crate::unify::register_spec(st, ob);
            let st = register_all_spec(st, *rest);
            st
        },
    }
}

/// [`Inferer::solve_to_fixpoint`], as a mathematical function.
pub open spec fn solve_to_fixpoint_spec(st: InfererV, env: &InferCx, fuel: u64) -> InfererV
    decreases fuel,
{
    if fuel == 0 {
        crate::unify::give_up_spec(st)
    } else {
        if crate::list::is_empty_spec(&st.obligations) {
            st
        } else {
            let (st, obligations) = crate::unify::take_obligations_spec(st);
            let (st, (deferred, progressed)) = try_each_spec(st, env, obligations, (fuel - 1) as u64);
            let st = register_all_spec(st, deferred);
            if progressed {
                let st = solve_to_fixpoint_spec(st, env, (fuel - 1) as u64);
                st
            } else {
                let (st, changed) = default_anon_structs_spec(st, env, (fuel - 1) as u64);
                if changed {
                    let st = solve_to_fixpoint_spec(st, env, (fuel - 1) as u64);
                    st
                } else {
                    st
                }
            }
        }
    }
}

/// [`Inferer::written_fields`], as a mathematical function.
pub open spec fn written_fields_spec(
    st: InfererV,
    env: &InferCx,
    l: &List<NodeId>,
    fuel: u64,
) -> (InfererV, List<(Symbol, Ty)>)
    decreases fuel, l,
{
    if fuel == 0 {
        (crate::unify::give_up_spec(st), List::Nil)
    } else {
        match l {
            List::Nil => (st, List::Nil),
            List::Cons(f, rest) => match crate::def::kind_of_spec(env.tables, st.file, *f) {
                Some(NodeKind::FieldInit { name, value }) => {
                    let (st, t) = node_ty_spec(st, env, *value, (fuel - 1) as u64);
                    let (st, others) = written_fields_spec(st, env, rest, fuel);
                    (st, List::Cons(((*name), t), Box::new(others)))
                },
                _ => written_fields_spec(st, env, rest, fuel),
            },
        }
    }
}

/// [`Inferer::default_anon`], as a mathematical function.
pub open spec fn default_anon_spec(
    st: InfererV,
    env: &InferCx,
    ob: &Obligation,
    fuel: u64,
) -> (InfererV, bool)
    decreases fuel,
{
    if fuel == 0 {
        (crate::unify::give_up_spec(st), false)
    } else {
        match ob {
            Obligation::CompositeBody { recv, origin } => if crate::subst::is_var_spec(
                &crate::unify::shallow_spec(st, recv, DEPTH_LIMIT),
            ) {
                match crate::def::kind_of_spec(env.tables, st.file, *origin) {
                    Some(
                        NodeKind::CompositeLit {
                            ty: None,
                            body: CompositeBody::Named { fields, spread: None },
                        },
                    ) => {
                        let (st, named) = written_fields_spec(st, env, fields, (fuel - 1) as u64);
                        let (st, c) = crate::unify::unify_spec(
                            st,
                            recv,
                            &Ty::Struct(Box::new(crate::subst::sort_named_spec(named))),
                            (fuel - 1) as u64,
                        );
                        (st, c.is_none())
                    },
                    _ => (st, false),
                }
            } else {
                (st, false)
            },
            _ => (st, false),
        }
    }
}

/// [`Inferer::default_each_anon`], as a mathematical function.
pub open spec fn default_each_anon_spec(
    st: InfererV,
    env: &InferCx,
    l: &List<Obligation>,
    fuel: u64,
) -> (InfererV, bool)
    decreases fuel, l,
{
    if fuel == 0 {
        (crate::unify::give_up_spec(st), false)
    } else {
        match l {
            List::Nil => (st, false),
            List::Cons(ob, rest) => {
                let (st, first) = default_anon_spec(st, env, ob, (fuel - 1) as u64);
                let (st, others) = default_each_anon_spec(st, env, rest, fuel);
                (st, first || others)
            },
        }
    }
}

/// [`Inferer::default_anon_structs`], as a mathematical function.
pub open spec fn default_anon_structs_spec(st: InfererV, env: &InferCx, fuel: u64) -> (InfererV, bool)
    decreases fuel,
{
    if fuel == 0 {
        (crate::unify::give_up_spec(st), false)
    } else {
        let (st, pending) = crate::unify::take_obligations_spec(st);
        let (st, changed) = default_each_anon_spec(st, env, &pending, (fuel - 1) as u64);
        let st = register_all_spec(st, pending);
        (st, changed)
    }
}

/// [`Inferer::try_solve`], as a mathematical function.
pub open spec fn try_solve_spec(
    st: InfererV,
    env: &InferCx,
    ob: &Obligation,
    fuel: u64,
) -> (InfererV, Outcome)
    decreases fuel,
{
    if fuel == 0 {
        (crate::unify::give_up_spec(st), Outcome::Deferred)
    } else {
        let (st, func) = try_solve_func_spec(st, env, ob, (fuel - 1) as u64);
        match func {
            Some(outcome) => {
                (st, outcome)
            },
            None => {
                match ob {
                    Obligation::Trait { self_ty, trait_def, args, origin, stamp } => {
                        solve_trait_spec(
                            st,
                            env,
                            self_ty,
                            *trait_def,
                            args,
                            *origin,
                            stamp,
                            (fuel - 1) as u64,
                        )
                    },
                    Obligation::Projection { self_ty, trait_def, args, assoc, out, origin, method } => {
                        solve_projection_spec(
                            st,
                            env,
                            self_ty,
                            *trait_def,
                            args,
                            assoc,
                            out,
                            *origin,
                            method,
                            (fuel - 1) as u64,
                        )
                    },
                    Obligation::VariantPayload { recv, variant, args, origin } => {
                        solve_variant_spec(st, env, recv, variant, args, *origin, (fuel - 1) as u64)
                    },
                    Obligation::CompositeBody { recv, origin } => {
                        let target = crate::unify::shallow_spec(st, recv, DEPTH_LIMIT);
                        if crate::subst::is_var_spec(&target) {
                            (st, Outcome::Deferred)
                        } else {
                            let st = check_composite_body_spec(st, env, *origin, &target, (fuel - 1) as u64);
                            (st, Outcome::Solved)
                        }
                    },
                    Obligation::Field { recv, name, out, origin } => solve_field_spec(
                        st,
                        env,
                        recv,
                        name,
                        out,
                        *origin,
                        (fuel - 1) as u64,
                    ),
                    Obligation::Comparison { self_ty, op, origin } => if crate::subst::is_var_spec(
                        &crate::unify::shallow_spec(st, self_ty, DEPTH_LIMIT),
                    ) {
                        (st, Outcome::Deferred)
                    } else {
                        let st = crate::exprs::check_order_bound_spec(st, env, *origin, *op, self_ty);
                        (st, Outcome::Solved)
                    },
                }
            },
        }
    }
}

/// [`Inferer::solve_trait`], as a mathematical function.
pub open spec fn solve_trait_spec(
    st: InfererV,
    env: &InferCx,
    self_ty: &Ty,
    trait_def: DefId,
    args: &List<Ty>,
    origin: NodeId,
    stamp: &Option<Symbol>,
    fuel: u64,
) -> (InfererV, Outcome)
    decreases fuel,
{
    if fuel == 0 {
        (crate::unify::give_up_spec(st), Outcome::Deferred)
    } else {
        let (st, s) = select_spec(st, env, self_ty, trait_def, args, (fuel - 1) as u64);
        match s {
            Select::Found(Choice::User(i)) => {
                let (st, _map) = commit_impl_spec(st, env, i, self_ty, args, origin, (fuel - 1) as u64);
                let st = match stamp {
                    Some(name) => match impl_member_spec(env, i, name) {
                        Some(method) => {
                            let st = crate::unify::set_op_resolution_spec(
                                st,
                                st.file,
                                origin,
                                OpResolution { method: method, trait_def: trait_def, builtin: None },
                            );
                            st
                        },
                        None => {
                            let st = crate::unify::report_spec(
                                st,
                                env,
                                origin,
                                crate::diag::say_name_spec("impl does not define `", name, "`"),
                            );
                            st
                        },
                    },
                    None => {
                        st
                    },
                };
                (st, Outcome::Solved)
            },
            Select::Found(Choice::Builtin(_)) => (st, Outcome::Solved),
            Select::Error => (st, Outcome::Solved),
            Select::ByBound => {
                let st = if stamp.is_some() {
                    let st = crate::unify::set_static_trait_self_spec(
                        st,
                        st.file,
                        origin,
                        StaticTraitSelf { trait_def: trait_def, self_ty: (*self_ty), trait_args: (*args) },
                    );
                    st
                } else {
                    st
                };
                (st, Outcome::Solved)
            },
            Select::Defer => (st, Outcome::Deferred),
            Select::NoImpl => {
                let st = report_no_impl_spec(st, env, origin, self_ty, trait_def, args);
                (st, Outcome::Failed)
            },
            Select::Ambiguous => {
                let st = report_ambiguous_spec(st, env, origin, self_ty, trait_def, args);
                (st, Outcome::Failed)
            },
        }
    }
}

/// [`impl_member`], as a mathematical function.
pub open spec fn impl_member_spec(cx: &InferCx, i: u64, name: &Symbol) -> Option<DefId> {
    match get_impl_spec(cx, i) {
        Some(imp) => crate::def::find_member_spec(&imp.members, name),
        None => None,
    }
}

/// The member of an impl called `name`.
pub fn impl_member(cx: &InferCx, i: u64, name: &Symbol) -> (r: Option<DefId>)
    ensures
        r == impl_member_spec(cx, i, name),
{
    match get_impl(cx, i) {
        Some(imp) => find_member(&imp.members, name),
        None => None,
    }
}

/// [`Inferer::solve_projection`], as a mathematical function.
pub open spec fn solve_projection_spec(
    st: InfererV,
    env: &InferCx,
    self_ty: &Ty,
    trait_def: DefId,
    args: &List<Ty>,
    assoc: &Symbol,
    out: &Ty,
    origin: NodeId,
    method: &Option<Symbol>,
    fuel: u64,
) -> (InfererV, Outcome)
    decreases fuel,
{
    if fuel == 0 {
        (crate::unify::give_up_spec(st), Outcome::Deferred)
    } else {
        let (st, s) = select_spec(st, env, self_ty, trait_def, args, (fuel - 1) as u64);
        match s {
            Select::Found(choice) => {
                let (st, assoc_ty) = match choice {
                    Choice::Builtin(_) => (st, crate::unify::shallow_spec(st, self_ty, DEPTH_LIMIT)),
                    Choice::User(i) => {
                        let (st, map) = commit_impl_spec(
                            st,
                            env,
                            i,
                            self_ty,
                            args,
                            origin,
                            (fuel - 1) as u64,
                        );
                        let st = match method {
                            Some(name) => {
                                let st = check_op_operands_spec(
                                    st,
                                    env,
                                    i,
                                    name,
                                    self_ty,
                                    args,
                                    &map,
                                    origin,
                                    (fuel - 1) as u64,
                                );
                                st
                            },
                            None => {
                                st
                            },
                        };
                        user_assoc_spec(st, env, i, origin, assoc, &map, (fuel - 1) as u64)
                    },
                };
                let st = crate::coerce::expect_spec(st, env, origin, &assoc_ty, out, (fuel - 1) as u64);
                let st = match method {
                    Some(name) => {
                        let st = stamp_op_spec(st, env, origin, choice, trait_def, name);
                        st
                    },
                    None => {
                        st
                    },
                };
                (st, Outcome::Solved)
            },
            Select::Error => {
                let (st, _clash) = crate::unify::unify_spec(st, out, &Ty::Error, (fuel - 1) as u64);
                (st, Outcome::Solved)
            },
            Select::Defer => (st, Outcome::Deferred),
            Select::ByBound => project_bound_spec(
                st,
                env,
                self_ty,
                trait_def,
                args,
                assoc,
                out,
                origin,
                (fuel - 1) as u64,
            ),
            Select::NoImpl => {
                let st = report_no_impl_spec(st, env, origin, self_ty, trait_def, args);
                let (st, _clash) = crate::unify::unify_spec(st, out, &Ty::Error, (fuel - 1) as u64);
                (st, Outcome::Failed)
            },
            Select::Ambiguous => {
                let st = report_ambiguous_spec(st, env, origin, self_ty, trait_def, args);
                let (st, _clash) = crate::unify::unify_spec(st, out, &Ty::Error, (fuel - 1) as u64);
                (st, Outcome::Failed)
            },
        }
    }
}

/// [`Inferer::project_bound`], as a mathematical function.
pub open spec fn project_bound_spec(
    st: InfererV,
    env: &InferCx,
    self_ty: &Ty,
    trait_def: DefId,
    args: &List<Ty>,
    assoc: &Symbol,
    out: &Ty,
    origin: NodeId,
    fuel: u64,
) -> (InfererV, Outcome)
    decreases fuel,
{
    if fuel == 0 {
        (crate::unify::give_up_spec(st), Outcome::Deferred)
    } else {
        let head = crate::unify::shallow_spec(st, self_ty, DEPTH_LIMIT);
        match pin_of_spec(&head, assoc) {
            Some(t) => {
                let st = crate::coerce::expect_spec(st, env, origin, &t, out, (fuel - 1) as u64);
                (st, Outcome::Solved)
            },
            None => {
                let minted = match &head {
                    Ty::Nominal { def, args: _ } => crate::def::member_of_spec(env.tables, *def, assoc),
                    _ => None,
                };
                match minted {
                    Some(synth) => {
                        let (st, t) = crate::types::param_ty_spec(st, env, synth, (fuel - 1) as u64);
                        let st = crate::coerce::expect_spec(st, env, origin, &t, out, (fuel - 1) as u64);
                        (st, Outcome::Solved)
                    },
                    None => {
                        let st = report_no_impl_spec(st, env, origin, self_ty, trait_def, args);
                        let (st, _clash) = crate::unify::unify_spec(st, out, &Ty::Error, (fuel - 1) as u64);
                        (st, Outcome::Failed)
                    },
                }
            },
        }
    }
}

/// [`pin_of`], as a mathematical function.
pub open spec fn pin_of_spec(ty: &Ty, name: &Symbol) -> Option<Ty> {
    match ty {
        Ty::Dyn { def: _, assoc } => match crate::ty::find_named_spec(assoc, name) {
            Some(t) => Some((*t)),
            None => None,
        },
        _ => None,
    }
}

/// What a trait object pins an associated type to.
pub fn pin_of(ty: &Ty, name: &Symbol) -> (r: Option<Ty>)
    ensures
        r == pin_of_spec(ty, name),
{
    match ty {
        Ty::Dyn { def: _, assoc } => match find_named(assoc, name) {
            Some(t) => Some(dup_ty(t)),
            None => None,
        },
        _ => None,
    }
}

/// [`all_unnamed`], as a mathematical function.
pub open spec fn all_unnamed_spec(l: &List<(Option<Symbol>, Ty)>) -> bool
    decreases l,
{
    match l {
        List::Nil => true,
        List::Cons(h, t) => h.0.is_none() && all_unnamed_spec(t),
    }
}

/// Whether no entry of a list is named.
pub fn all_unnamed(l: &List<(Option<Symbol>, Ty)>) -> (r: bool)
    ensures
        r == all_unnamed_spec(l),
    decreases l,
{
    match l {
        List::Nil => true,
        List::Cons(h, t) => h.0.is_none() && all_unnamed(t),
    }
}

/// [`payload_named`], as a mathematical function.
pub open spec fn payload_named_spec(l: &List<(Option<Symbol>, Ty)>, name: &Symbol) -> Option<Ty>
    decreases l,
{
    match l {
        List::Nil => None,
        List::Cons(h, t) => match &h.0 {
            Some(n) => if crate::symbol::sym_eq_spec(n, name) {
                Some(h.1)
            } else {
                payload_named_spec(t, name)
            },
            None => payload_named_spec(t, name),
        },
    }
}

/// The type a payload declares for a field.
pub fn payload_named(l: &List<(Option<Symbol>, Ty)>, name: &Symbol) -> (r: Option<Ty>)
    ensures
        r == payload_named_spec(l, name),
    decreases l,
{
    match l {
        List::Nil => None,
        List::Cons(h, t) => match &h.0 {
            Some(n) => if sym_eq(n, name) {
                Some(dup_ty(&h.1))
            } else {
                payload_named(t, name)
            },
            None => payload_named(t, name),
        },
    }
}

/// [`payload_at`], as a mathematical function.
pub open spec fn payload_at_spec(l: &List<(Option<Symbol>, Ty)>, i: u64) -> Option<Ty> {
    match crate::list::nth_spec(l, i) {
        Some(e) => Some(e.1),
        None => None,
    }
}

/// The type a payload declares at a position.
pub fn payload_at(l: &List<(Option<Symbol>, Ty)>, i: u64) -> (r: Option<Ty>)
    ensures
        r == payload_at_spec(l, i),
{
    match nth(l, i) {
        Some(e) => Some(dup_ty(&e.1)),
        None => None,
    }
}

/// [`Inferer::check_payload`], as a mathematical function.
pub open spec fn check_payload_spec(
    st: InfererV,
    env: &InferCx,
    args: &List<(Option<Symbol>, Ty)>,
    i: u64,
    payload: &List<(Option<Symbol>, Ty)>,
    variant: &Symbol,
    origin: NodeId,
    fuel: u64,
) -> InfererV
    decreases fuel, args,
{
    if fuel == 0 {
        crate::unify::give_up_spec(st)
    } else {
        match args {
            List::Nil => {
                st
            },
            List::Cons(a, rest) => {
                let target = match &a.0 {
                    Some(n) => payload_named_spec(payload, n),
                    None => payload_at_spec(payload, i),
                };
                let st = match target {
                    Some(t) => {
                        let st = crate::coerce::expect_spec(st, env, origin, &a.1, &t, (fuel - 1) as u64);
                        st
                    },
                    None => match &a.0 {
                        Some(n) => {
                            let st = crate::unify::report_spec(
                                st,
                                env,
                                origin,
                                crate::list::list5_spec(
                                    Part::Text("variant `."),
                                    Part::Name((*variant)),
                                    Part::Text("` has no field `"),
                                    Part::Name((*n)),
                                    Part::Text("`"),
                                ),
                            );
                            st
                        },
                        None => {
                            st
                        },
                    },
                };
                let st = check_payload_spec(
                    st,
                    env,
                    rest,
                    crate::list::succ_spec(i),
                    payload,
                    variant,
                    origin,
                    fuel,
                );
                st
            },
        }
    }
}

/// [`Inferer::solve_variant`], as a mathematical function.
pub open spec fn solve_variant_spec(
    st: InfererV,
    env: &InferCx,
    recv: &Ty,
    variant: &Symbol,
    args: &List<(Option<Symbol>, Ty)>,
    origin: NodeId,
    fuel: u64,
) -> (InfererV, Outcome)
    decreases fuel,
{
    if fuel == 0 {
        (crate::unify::give_up_spec(st), Outcome::Deferred)
    } else {
        let base = crate::unify::shallow_spec(st, recv, DEPTH_LIMIT);
        match &base {
            Ty::Var(_) => (st, Outcome::Deferred),
            Ty::Error => (st, Outcome::Solved),
            Ty::Nominal { .. } => {
                let (st, payload) = crate::types::variant_payload_spec(
                    st,
                    env,
                    &base,
                    variant,
                    (fuel - 1) as u64,
                );
                let st = match payload {
                    Some(payload) => {
                        let st = if all_unnamed_spec(args)
                            && crate::list::list_len_spec(&payload) != crate::list::list_len_spec(args) {
                            let st = crate::unify::report_spec(
                                st,
                                env,
                                origin,
                                crate::list::list7_spec(
                                    Part::Text("variant `."),
                                    Part::Name((*variant)),
                                    Part::Text("` takes "),
                                    Part::Num(crate::list::list_len_spec(&payload)),
                                    Part::Text(" value(s) but "),
                                    Part::Num(crate::list::list_len_spec(args)),
                                    Part::Text(" were supplied"),
                                ),
                            );
                            st
                        } else {
                            st
                        };
                        let st = check_payload_spec(
                            st,
                            env,
                            args,
                            0,
                            &payload,
                            variant,
                            origin,
                            (fuel - 1) as u64,
                        );
                        st
                    },
                    None => {
                        let st = crate::unify::report_spec(
                            st,
                            env,
                            origin,
                            crate::list::list5_spec(
                                Part::Text("`"),
                                Part::Ty(crate::unify::resolve_spec(st, &base, DEPTH_LIMIT)),
                                Part::Text("` has no variant `."),
                                Part::Name((*variant)),
                                Part::Text("`"),
                            ),
                        );
                        st
                    },
                };
                (st, Outcome::Solved)
            },
            _ => {
                let st = crate::unify::report_spec(
                    st,
                    env,
                    origin,
                    crate::diag::say_ty_spec(
                        "a variant literal needs an enum type, but this position wants `",
                        base,
                        "`",
                    ),
                );
                (st, Outcome::Solved)
            },
        }
    }
}

/// [`Inferer::tuple_elem_named`], as a mathematical function.
pub open spec fn tuple_elem_named_spec(st: InfererV, ty: &Ty, name: &Symbol) -> Option<Ty> {
    match (crate::unify::autoderef_spec(st, ty, DEPTH_LIMIT), crate::subst::position_of_spec(name)) {
        (Ty::Tuple(elems), Some(i)) => match crate::list::nth_spec(&elems, i) {
            Some(t) => Some((*t)),
            None => None,
        },
        _ => None,
    }
}

/// [`Inferer::solve_field`], as a mathematical function.
pub open spec fn solve_field_spec(
    st: InfererV,
    env: &InferCx,
    recv: &Ty,
    name: &Symbol,
    out: &Ty,
    origin: NodeId,
    fuel: u64,
) -> (InfererV, Outcome)
    decreases fuel,
{
    if fuel == 0 {
        (crate::unify::give_up_spec(st), Outcome::Deferred)
    } else {
        let target = crate::unify::shallow_spec(st, recv, DEPTH_LIMIT);
        if crate::subst::is_var_spec(&target) {
            (st, Outcome::Deferred)
        } else {
            match tuple_elem_named_spec(st, &target, name) {
                Some(t) => {
                    let st = crate::coerce::expect_spec(st, env, origin, &t, out, (fuel - 1) as u64);
                    (st, Outcome::Solved)
                },
                None => {
                    let (st, found) = crate::types::field_ty_at_spec(
                        st,
                        env,
                        Some(origin),
                        &target,
                        name,
                        (fuel - 1) as u64,
                    );
                    let st = match found {
                        Some(t) => {
                            let st = crate::coerce::expect_spec(st, env, origin, &t, out, (fuel - 1) as u64);
                            st
                        },
                        None => {
                            let st = crate::exprs::no_such_field_spec(st, env, origin, &target, name).0;
                            st
                        },
                    };
                    (st, Outcome::Solved)
                },
            }
        }
    }
}

// Composite literals.

/// [`Inferer::check_composite_body`], as a mathematical function.
pub open spec fn check_composite_body_spec(
    st: InfererV,
    env: &InferCx,
    node: NodeId,
    target: &Ty,
    fuel: u64,
) -> InfererV
    decreases fuel,
{
    if fuel == 0 {
        crate::unify::give_up_spec(st)
    } else {
        if crate::subst::is_error_spec(target) {
            st
        } else {
            match crate::def::kind_of_spec(env.tables, st.file, node) {
                Some(NodeKind::CompositeLit { ty: _, body }) => match body {
                    CompositeBody::Named { fields, spread } => {
                        let st = check_record_body_spec(
                            st,
                            env,
                            node,
                            target,
                            fields,
                            *spread,
                            (fuel - 1) as u64,
                        );
                        st
                    },
                    CompositeBody::Positional(elems) => {
                        let st = check_positional_body_spec(st, env, node, target, elems, (fuel - 1) as u64);
                        st
                    },
                    CompositeBody::Repeat { value, count } => {
                        let st = check_repeat_body_spec(
                            st,
                            env,
                            node,
                            target,
                            *value,
                            *count,
                            (fuel - 1) as u64,
                        );
                        st
                    },
                },
                _ => {
                    st
                },
            }
        }
    }
}

/// [`Inferer::check_repeat_body`], as a mathematical function.
pub open spec fn check_repeat_body_spec(
    st: InfererV,
    env: &InferCx,
    node: NodeId,
    target: &Ty,
    value: NodeId,
    count: NodeId,
    fuel: u64,
) -> InfererV
    decreases fuel,
{
    if fuel == 0 {
        crate::unify::give_up_spec(st)
    } else {
        let st = match crate::unify::autoderef_spec(st, target, DEPTH_LIMIT) {
            Ty::Array { len, mutable: _, inner } => {
                let (st, vty) = node_ty_spec(st, env, value, (fuel - 1) as u64);
                let st = crate::coerce::expect_spec(st, env, value, &vty, &inner, (fuel - 1) as u64);
                let (st, k) = crate::types::const_len_in_spec(st, env, st.file, count, (fuel - 1) as u64);
                if !const_is_error_spec(&k) {
                    let (st, same) = crate::unify::unify_const_spec(st, &len, &k);
                    if !same {
                        let st = crate::unify::report_spec(
                            st,
                            env,
                            node,
                            crate::list::list5_spec(
                                Part::Text("this literal repeats "),
                                Part::Const(k),
                                Part::Text(" time(s) but the array is `["),
                                Part::Const(crate::unify::shallow_const_spec(st, &len, DEPTH_LIMIT)),
                                Part::Text("]`"),
                            ),
                        );
                        st
                    } else {
                        st
                    }
                } else {
                    st
                }
            },
            Ty::Slice { mutable: _, inner } => {
                let (st, vty) = node_ty_spec(st, env, value, (fuel - 1) as u64);
                let st = crate::coerce::expect_spec(st, env, value, &vty, &inner, (fuel - 1) as u64);
                st
            },
            _ => {
                let st = crate::unify::report_spec(
                    st,
                    env,
                    node,
                    crate::diag::say_spec("a `value ; count` literal builds an array"),
                );
                st
            },
        };
        let (st, cty) = node_ty_spec(st, env, count, (fuel - 1) as u64);
        let want = crate::unify::usize_ty_spec(st);
        let st = crate::coerce::expect_spec(st, env, count, &cty, &want, (fuel - 1) as u64);
        st
    }
}

/// [`const_is_error`], as a mathematical function.
pub open spec fn const_is_error_spec(c: &Const) -> bool {
    match c {
        Const::Error => true,
        _ => false,
    }
}

/// Whether a compile-time value is an error.
pub fn const_is_error(c: &Const) -> (r: bool)
    ensures
        r == const_is_error_spec(c),
{
    match c {
        Const::Error => true,
        _ => false,
    }
}

/// [`names_of`], as a mathematical function.
pub open spec fn names_of_spec(l: &List<(Symbol, Ty)>) -> List<Symbol>
    decreases l,
{
    match l {
        List::Nil => List::Nil,
        List::Cons(h, t) => List::Cons(h.0, Box::new(names_of_spec(t))),
    }
}

/// The names of a list of named types.
pub fn names_of(l: &List<(Symbol, Ty)>) -> (r: List<Symbol>)
    ensures
        r == names_of_spec(l),
    decreases l,
{
    match l {
        List::Nil => List::Nil,
        List::Cons(h, t) => List::Cons(dup_sym(&h.0), Box::new(names_of(t))),
    }
}

/// [`names_missing`], as a mathematical function.
pub open spec fn names_missing_spec(l: &List<Symbol>, seen: &List<Symbol>) -> List<Symbol>
    decreases l,
{
    match l {
        List::Nil => List::Nil,
        List::Cons(h, t) => if crate::symbol::sym_in_spec(seen, h) {
            names_missing_spec(t, seen)
        } else {
            List::Cons((*h), Box::new(names_missing_spec(t, seen)))
        },
    }
}

/// The names of one list that are not in another.
pub fn names_missing(l: &List<Symbol>, seen: &List<Symbol>) -> (r: List<Symbol>)
    ensures
        r == names_missing_spec(l, seen),
    decreases l,
{
    match l {
        List::Nil => List::Nil,
        List::Cons(h, t) => if sym_in(seen, h) {
            names_missing(t, seen)
        } else {
            List::Cons(dup_sym(h), Box::new(names_missing(t, seen)))
        },
    }
}

/// The names a record literal writes, in order.
pub open spec fn written_fields_of(t: &Tables, file: FileId, fields: &List<NodeId>) -> Seq<Symbol>
    decreases fields,
{
    match fields {
        List::Nil => Seq::empty(),
        List::Cons(f, rest) => match crate::def::kind_of_spec(t, file, *f) {
            Some(NodeKind::FieldInit { name, value: _ }) => seq![*name] + written_fields_of(t, file, rest),
            _ => written_fields_of(t, file, rest),
        },
    }
}

proof fn field_names_line_up(t: &Tables, file: FileId, fields: List<NodeId>, seen: List<Symbol>)
    ensures
        match fields {
            List::Nil => seen@ + written_fields_of(t, file, &fields) == seen@ && fields@.len() == 0,
            List::Cons(f, rest) => {
                &&& fields@.len() == rest@.len() + 1
                &&& match crate::def::kind_of_spec(t, file, f) {
                    Some(NodeKind::FieldInit { name, value: _ }) => {
                        let more = crate::list::append_spec(seen, crate::list::single_spec(*name));
                        &&& more@ + written_fields_of(t, file, &rest) == seen@ + written_fields_of(t, file, &fields)
                        &&& seen@.no_duplicates()
                            && !crate::symbol::sym_in_spec(&seen, name) ==> more@.no_duplicates()
                    },
                    _ => true,
                }
            },
        },
{
    match fields {
        List::Nil => {
            assert(seen@ + written_fields_of(t, file, &fields) =~= seen@);
        },
        List::Cons(f, rest) => {
            assert(fields@ =~= seq![f] + rest@);
            match crate::def::kind_of_spec(t, file, f) {
                Some(NodeKind::FieldInit { name, value: _ }) => {
                    let one = crate::list::single_spec(*name);
                    crate::laws::generics::appending_keeps_both(seen, one);
                    crate::laws::names::taken_is_among(seen, *name);
                    reveal_with_fuel(crate::list::list_seq, 2);
                    assert(one@ =~= seq![*name]);
                    let more = crate::list::append_spec(seen, one);
                    assert(more@ =~= seen@.push(*name));
                    assert(
                        more@ + written_fields_of(t, file, &rest) =~= seen@ + written_fields_of(t, file, &fields)
                    );
                },
                _ => {},
            }
        },
    }
}

/// [`Inferer::check_record_fields`], as a mathematical function.
pub open spec fn check_record_fields_spec(
    st: InfererV,
    env: &InferCx,
    target: &Ty,
    owner: &Part,
    fields: &List<NodeId>,
    seen: List<Symbol>,
    fuel: u64,
) -> (InfererV, List<Symbol>)
    decreases fuel, fields,
{
    if fuel == 0 {
        (crate::unify::give_up_spec(st), seen)
    } else {
        match fields {
            List::Nil => (st, seen),
            List::Cons(f, rest) => match crate::def::kind_of_spec(env.tables, st.file, *f) {
                Some(NodeKind::FieldInit { name, value }) => {
                    let (st, found) = crate::types::field_ty_at_spec(
                        st,
                        env,
                        Some(*f),
                        target,
                        name,
                        (fuel - 1) as u64,
                    );
                    match found {
                        Some(ft) => {
                            let (st, vty) = node_ty_spec(st, env, *value, (fuel - 1) as u64);
                            let st = crate::coerce::expect_spec(
                                st,
                                env,
                                *value,
                                &vty,
                                &ft,
                                (fuel - 1) as u64,
                            );
                            if crate::symbol::sym_in_spec(&seen, name) {
                                let st = crate::unify::report_spec(
                                    st,
                                    env,
                                    *f,
                                    crate::diag::say_name_spec("field `", name, "` is given more than once"),
                                );
                                check_record_fields_spec(st, env, target, owner, rest, seen, fuel)
                            } else {
                                check_record_fields_spec(
                                    st,
                                    env,
                                    target,
                                    owner,
                                    rest,
                                    crate::list::append_spec(seen, crate::list::single_spec((*name))),
                                    fuel,
                                )
                            }
                        },
                        None => {
                            let st = crate::unify::report_spec(
                                st,
                                env,
                                *f,
                                crate::list::list5_spec(
                                    Part::Text("`"),
                                    (*owner),
                                    Part::Text("` has no field `"),
                                    Part::Name((*name)),
                                    Part::Text("`"),
                                ),
                            );
                            check_record_fields_spec(st, env, target, owner, rest, seen, fuel)
                        },
                    }
                },
                _ => check_record_fields_spec(st, env, target, owner, rest, seen, fuel),
            },
        }
    }
}

/// The definition a record literal builds, where it builds a declared one.
pub open spec fn record_target(st: InfererV, target: &Ty, fuel: u64) -> Option<DefId> {
    match crate::unify::autoderef_spec(st, target, fuel) {
        Ty::Nominal { def, args: _ } => Some(def),
        _ => None,
    }
}

/// Whether every name of a list is among those written.
pub open spec fn all_given(names: List<Symbol>, written: Seq<Symbol>) -> bool {
    forall|k: int| 0 <= k < names@.len() ==> written.contains(#[trigger] names@[k])
}

proof fn nothing_missing_is_all_given(names: List<Symbol>, seen: List<Symbol>)
    requires
        crate::list::is_empty_spec(&names_missing_spec(&names, &seen)),
    ensures
        all_given(names, seen@),
    decreases names,
{
    match names {
        List::Nil => {},
        List::Cons(h, t) => {
            assert(names@ =~= seq![h] + t@);
            crate::laws::names::taken_is_among(seen, h);
            nothing_missing_is_all_given(*t, seen);
            assert forall|k: int| 0 <= k < names@.len() implies seen@.contains(#[trigger] names@[k]) by {
                if k > 0 {
                    assert(names@[k] == t@[k - 1]);
                }
            }
        },
    }
}

/// [`Inferer::check_record_body`], as a mathematical function.
pub open spec fn check_record_body_spec(
    st: InfererV,
    env: &InferCx,
    node: NodeId,
    target: &Ty,
    fields: &List<NodeId>,
    spread: Option<NodeId>,
    fuel: u64,
) -> InfererV
    decreases fuel,
{
    if fuel == 0 {
        crate::unify::give_up_spec(st)
    } else {
        let found = match crate::unify::autoderef_spec(st, target, DEPTH_LIMIT) {
            Ty::Nominal { def, args: _ } => if crate::def::def_kind_spec(env.tables, def) == DefKind::Struct {
                Some((Part::Path(def), crate::lower::record_field_names_spec(env.tables, def)))
            } else {
                None
            },
            Ty::Struct(fs) => Some(
                (Part::Ty(crate::unify::resolve_spec(st, target, DEPTH_LIMIT)), names_of_spec(&fs)),
            ),
            _ => None,
        };
        match found {
            Some((owner, declared)) => {
                let (st, seen) = check_record_fields_spec(
                    st,
                    env,
                    target,
                    &owner,
                    fields,
                    List::Nil,
                    (fuel - 1) as u64,
                );
                match spread {
                    Some(s) => {
                        let (st, sty) = node_ty_spec(st, env, s, (fuel - 1) as u64);
                        let want = crate::unify::autoderef_spec(st, target, DEPTH_LIMIT);
                        let st = crate::coerce::expect_spec(st, env, s, &sty, &want, (fuel - 1) as u64);
                        st
                    },
                    None => {
                        let missing = names_missing_spec(&declared, &seen);
                        if !crate::list::is_empty_spec(&missing) {
                            let plural: &'static str = if crate::list::list_len_spec(&missing) == 1 {
                                " "
                            } else {
                                "s "
                            };
                            let st = crate::unify::report_spec(
                                st,
                                env,
                                node,
                                crate::list::append_spec(
                                    crate::list::list2_spec(Part::Text("missing field"), Part::Text(plural)),
                                    crate::list::append_spec(
                                        crate::diag::quoted_names_spec(&missing),
                                        crate::list::list3_spec(Part::Text(" in `"), owner, Part::Text("`")),
                                    ),
                                ),
                            );
                            st
                        } else {
                            st
                        }
                    },
                }
            },
            None => {
                let st = crate::unify::report_spec(
                    st,
                    env,
                    node,
                    crate::diag::say_ty_spec(
                        "`",
                        crate::unify::resolve_spec(st, target, DEPTH_LIMIT),
                        "` is not a struct, so it cannot be built from named fields",
                    ),
                );
                st
            },
        }
    }
}

/// [`repeated`], as a mathematical function.
pub open spec fn repeated_spec(ty: &Ty, l: &List<NodeId>) -> List<Ty>
    decreases l,
{
    match l {
        List::Nil => List::Nil,
        List::Cons(_, t) => List::Cons((*ty), Box::new(repeated_spec(ty, t))),
    }
}

/// A type as many times over as a list is long.
pub fn repeated(ty: &Ty, l: &List<NodeId>) -> (r: List<Ty>)
    ensures
        r == repeated_spec(ty, l),
    decreases l,
{
    match l {
        List::Nil => List::Nil,
        List::Cons(_, t) => List::Cons(dup_ty(ty), Box::new(repeated(ty, t))),
    }
}

/// [`Inferer::positional_members`], as a mathematical function.
pub open spec fn positional_members_spec(
    st: InfererV,
    env: &InferCx,
    node: NodeId,
    target: &Ty,
    elems: &List<NodeId>,
    fuel: u64,
) -> (InfererV, Option<(u64, List<Ty>)>)
    decreases fuel,
{
    if fuel == 0 {
        (crate::unify::give_up_spec(st), None)
    } else {
        match crate::unify::autoderef_spec(st, target, DEPTH_LIMIT) {
            Ty::Array { len, mutable: _, inner } => {
                let k = crate::unify::shallow_const_spec(st, &len, DEPTH_LIMIT);
                match crate::ty::const_value_spec(&k) {
                    Some(n) => (st, Some((n, repeated_spec(&inner, elems)))),
                    None => if const_is_error_spec(&k) {
                        (st, Some((crate::list::list_len_spec(elems), repeated_spec(&inner, elems))))
                    } else {
                        let count = Const::Value(
                            Box::new(crate::unify::usize_ty_spec(st)),
                            ConstValue::Int(crate::bigint::int_of_spec(crate::list::list_len_spec(elems))),
                        );
                        let (st, same) = crate::unify::unify_const_spec(st, &k, &count);
                        let st = if !same {
                            let st = crate::unify::report_spec(
                                st,
                                env,
                                node,
                                crate::list::list5_spec(
                                    Part::Text("this literal has "),
                                    Part::Num(crate::list::list_len_spec(elems)),
                                    Part::Text(" element(s) but the array is `["),
                                    Part::Const(k),
                                    Part::Text("]`"),
                                ),
                            );
                            st
                        } else {
                            st
                        };
                        (st, Some((crate::list::list_len_spec(elems), repeated_spec(&inner, elems))))
                    },
                }
            },
            Ty::Slice { mutable: _, inner } => (
                st,
                Some((crate::list::list_len_spec(elems), repeated_spec(&inner, elems))),
            ),
            Ty::Tuple(ts) => (st, Some((crate::list::list_len_spec(&ts), *ts))),
            Ty::Nominal { .. } => {
                let (st, l) = crate::types::tuple_struct_tys_spec(st, env, target, (fuel - 1) as u64);
                match l {
                    Some(l) => (st, Some((crate::list::list_len_spec(&l), l))),
                    None => (st, None),
                }
            },
            _ => (st, None),
        }
    }
}

/// [`Inferer::check_positional_body`], as a mathematical function.
pub open spec fn check_positional_body_spec(
    st: InfererV,
    env: &InferCx,
    node: NodeId,
    target: &Ty,
    elems: &List<NodeId>,
    fuel: u64,
) -> InfererV
    decreases fuel,
{
    if fuel == 0 {
        crate::unify::give_up_spec(st)
    } else {
        let (st, found) = positional_members_spec(st, env, node, target, elems, (fuel - 1) as u64);
        match found {
            Some((need, members)) => {
                let st = if need != crate::list::list_len_spec(elems) {
                    let st = crate::unify::report_spec(
                        st,
                        env,
                        node,
                        crate::list::list6_spec(
                            Part::Text("this literal has "),
                            Part::Num(crate::list::list_len_spec(elems)),
                            Part::Text(" element(s) but `"),
                            Part::Ty(crate::unify::resolve_spec(st, target, DEPTH_LIMIT)),
                            Part::Text("` needs "),
                            Part::Num(need),
                        ),
                    );
                    st
                } else {
                    st
                };
                let st = expect_members_spec(st, env, elems, &members, need, (fuel - 1) as u64);
                st
            },
            None => {
                let st = crate::unify::report_spec(
                    st,
                    env,
                    node,
                    crate::diag::say_ty_spec(
                        "`",
                        crate::unify::resolve_spec(st, target, DEPTH_LIMIT),
                        "` cannot be built from a positional literal",
                    ),
                );
                st
            },
        }
    }
}

/// [`Inferer::expect_members`], as a mathematical function.
pub open spec fn expect_members_spec(
    st: InfererV,
    env: &InferCx,
    elems: &List<NodeId>,
    members: &List<Ty>,
    need: u64,
    fuel: u64,
) -> InfererV
    decreases fuel, elems,
{
    if fuel == 0 {
        crate::unify::give_up_spec(st)
    } else {
        if need > 0 {
            match (elems, members) {
                (List::Cons(e, es), List::Cons(m, ms)) => {
                    let (st, ety) = node_ty_spec(st, env, *e, (fuel - 1) as u64);
                    let st = crate::coerce::expect_spec(st, env, *e, &ety, m, (fuel - 1) as u64);
                    let st = expect_members_spec(st, env, es, ms, (need - 1) as u64, fuel);
                    st
                },
                _ => {
                    st
                },
            }
        } else {
            st
        }
    }
}

/// [`Inferer::node_ty`], as a mathematical function.
pub open spec fn node_ty_spec(st: InfererV, env: &InferCx, node: NodeId, fuel: u64) -> (InfererV, Ty)
    decreases fuel,
{
    if fuel == 0 {
        (crate::unify::give_up_spec(st), Ty::Error)
    } else {
        match crate::unify::get_type_spec(st, node) {
            Some(t) => (st, t),
            None => crate::exprs::infer_expr_spec(st, env, node, (fuel - 1) as u64),
        }
    }
}

// Selection.

/// [`consider`], as a mathematical function.
pub open spec fn consider_spec(best: Option<Best>, score: u64, choice: Choice) -> Option<Best> {
    match best {
        Some(b) => if b.score > score {
            Some(b)
        } else if b.score == score {
            Some(Best { score: b.score, choice: b.choice, tied: true })
        } else {
            Some(Best { score: score, choice: choice, tied: false })
        },
        None => Some(Best { score: score, choice: choice, tied: false }),
    }
}

/// Weigh a candidate against the best so far.
pub fn consider(best: Option<Best>, score: u64, choice: Choice) -> (r: Option<Best>)
    ensures
        r == consider_spec(best, score, choice),
{
    match best {
        Some(b) => if b.score > score {
            Some(b)
        } else if b.score == score {
            Some(Best { score: b.score, choice: b.choice, tied: true })
        } else {
            Some(Best { score: score, choice: choice, tied: false })
        },
        None => Some(Best { score: score, choice: choice, tied: false }),
    }
}

/// [`Inferer::consider_impls`], as a mathematical function.
pub open spec fn consider_impls_spec(
    st: InfererV,
    env: &InferCx,
    i: u64,
    s: &Ty,
    trait_def: DefId,
    args: &List<Ty>,
    best: Option<Best>,
    fuel: u64,
) -> (InfererV, Option<Best>)
    decreases fuel, u64::MAX - i,
{
    if fuel == 0 {
        (crate::unify::give_up_spec(st), best)
    } else {
        match get_impl_spec(env, i) {
            Some(imp) => if imp.trait_def == Some(trait_def) {
                let (st, fits) = trial_impl_spec(st, env, i, s, args, (fuel - 1) as u64);
                let score: u64 = if imp.self_is_generic {
                    1
                } else {
                    2
                };
                let next = if fits {
                    consider_spec(best, score, Choice::User(i))
                } else {
                    best
                };
                consider_impls_spec(st, env, crate::list::succ_spec(i), s, trait_def, args, next, fuel)
            } else {
                consider_impls_spec(st, env, crate::list::succ_spec(i), s, trait_def, args, best, fuel)
            },
            None => (st, best),
        }
    }
}

/// [`Inferer::consider_builtin`], as a mathematical function.
pub open spec fn consider_builtin_spec(
    st: InfererV,
    env: &InferCx,
    s: &Ty,
    trait_def: DefId,
) -> Option<Best> {
    match builtin_for_trait_spec(env.tables, trait_def) {
        Some(op) => if builtin_matches_spec(st, op, s) {
            Some(Best { score: 2, choice: Choice::Builtin(op), tied: false })
        } else {
            None
        },
        None => None,
    }
}

/// [`verdict`], as a mathematical function.
pub open spec fn verdict_spec(best: Option<Best>, unknown: bool) -> Select {
    match best {
        Some(b) => if b.tied && unknown {
            Select::Defer
        } else if b.tied {
            Select::Ambiguous
        } else {
            Select::Found(b.choice)
        },
        None => if unknown {
            Select::Defer
        } else {
            Select::NoImpl
        },
    }
}

/// What a search ends in.
pub fn verdict(best: Option<Best>, unknown: bool) -> (r: Select)
    ensures
        r == verdict_spec(best, unknown),
{
    match best {
        Some(b) => if b.tied && unknown {
            Select::Defer
        } else if b.tied {
            Select::Ambiguous
        } else {
            Select::Found(b.choice)
        },
        None => if unknown {
            Select::Defer
        } else {
            Select::NoImpl
        },
    }
}

/// [`Inferer::select_special`], as a mathematical function.
pub open spec fn select_special_spec(
    st: InfererV,
    env: &InferCx,
    s: &Ty,
    trait_def: DefId,
    fuel: u64,
) -> (InfererV, Option<Select>)
    decreases fuel,
{
    if fuel == 0 {
        (crate::unify::give_up_spec(st), None)
    } else {
        if crate::def::lang_def_spec(env.tables, "func") == Some(trait_def) {
            let (st, sig) = func_value_sig_spec(st, env, s, (fuel - 1) as u64);
            if sig.is_some() {
                (st, Some(Select::ByBound))
            } else {
                if is_dyn_of_spec(env.tables, s, trait_def) {
                    (st, Some(Select::ByBound))
                } else {
                    if crate::def::lang_def_spec(env.tables, "sized") == Some(trait_def) {
                        (st, Some(match s {
            Ty::Var(_) => Select::Defer,
            Ty::Dyn { .. } => Select::NoImpl,
            _ => Select::ByBound,
        }))
                    } else {
                        (st, None)
                    }
                }
            }
        } else {
            if is_dyn_of_spec(env.tables, s, trait_def) {
                (st, Some(Select::ByBound))
            } else {
                if crate::def::lang_def_spec(env.tables, "sized") == Some(trait_def) {
                    (st, Some(match s {
            Ty::Var(_) => Select::Defer,
            Ty::Dyn { .. } => Select::NoImpl,
            _ => Select::ByBound,
        }))
                } else {
                    (st, None)
                }
            }
        }
    }
}

/// [`is_dyn_of`], as a mathematical function.
pub open spec fn is_dyn_of_spec(t: &Tables, ty: &Ty, trait_def: DefId) -> bool {
    match ty {
        Ty::Dyn { def, assoc: _ } => crate::def::resolve_alias_spec(t, *def) == trait_def,
        _ => false,
    }
}

/// Whether a type is a trait object of a trait.
pub fn is_dyn_of(t: &Tables, ty: &Ty, trait_def: DefId) -> (r: bool)
    ensures
        r == is_dyn_of_spec(t, ty, trait_def),
{
    match ty {
        Ty::Dyn { def, assoc: _ } => resolve_alias(t, *def) == trait_def,
        _ => false,
    }
}

/// [`is_nominal_of`], as a mathematical function.
pub open spec fn is_nominal_of_spec(ty: &Ty, d: DefId) -> bool {
    match ty {
        Ty::Nominal { def, args: _ } => *def == d,
        _ => false,
    }
}

/// Whether a type is the one a definition names.
pub fn is_nominal_of(ty: &Ty, d: DefId) -> (r: bool)
    ensures
        r == is_nominal_of_spec(ty, d),
{
    match ty {
        Ty::Nominal { def, args: _ } => *def == d,
        _ => false,
    }
}

/// [`Inferer::select`], as a mathematical function.
pub open spec fn select_spec(
    st: InfererV,
    env: &InferCx,
    self_ty: &Ty,
    trait_def: DefId,
    args: &List<Ty>,
    fuel: u64,
) -> (InfererV, Select)
    decreases fuel,
{
    if fuel == 0 {
        (crate::unify::give_up_spec(st), Select::NoImpl)
    } else {
        let s = crate::unify::shallow_spec(st, self_ty, DEPTH_LIMIT);
        if crate::subst::is_error_spec(&s) {
            (st, Select::Error)
        } else {
            let (st, special) = select_special_spec(st, env, &s, trait_def, (fuel - 1) as u64);
            match special {
                Some(x) => {
                    (st, x)
                },
                None => {
                    let start = consider_builtin_spec(st, env, &s, trait_def);
                    let (st, direct) = consider_impls_spec(
                        st,
                        env,
                        0,
                        &s,
                        trait_def,
                        args,
                        start,
                        (fuel - 1) as u64,
                    );
                    let (st, best) = if direct.is_none() && !crate::subst::is_var_spec(&s) {
                        let (st, repr) = crate::types::distinct_repr_spec(st, env, &s, (fuel - 1) as u64);
                        match repr {
                            Some(r) => {
                                let r = crate::unify::shallow_spec(st, &r, DEPTH_LIMIT);
                                let start = consider_builtin_spec(st, env, &r, trait_def);
                                consider_impls_spec(st, env, 0, &r, trait_def, args, start, (fuel - 1) as u64)
                            },
                            None => (st, None),
                        }
                    } else {
                        (st, direct)
                    };
                    if best.is_none()
                        && (crate::types::param_has_bound_spec(st, env, &s, trait_def) || is_nominal_of_spec(&s, trait_def)) {
                        (st, Select::ByBound)
                    } else {
                        (st, verdict_spec(best, crate::subst::is_var_spec(&s)))
                    }
                },
            }
        }
    }
}

/// [`Inferer::unify_trait_args`], as a mathematical function.
pub open spec fn unify_trait_args_spec(
    st: InfererV,
    l: &List<Ty>,
    args: &List<Ty>,
    map: &Subst,
    fuel: u64,
) -> (InfererV, bool)
    decreases fuel, l,
{
    if fuel == 0 {
        (crate::unify::give_up_spec(st), false)
    } else {
        match (l, args) {
            (List::Cons(t, ts), List::Cons(a, rest)) => {
                let (st, c) = crate::unify::unify_spec(
                    st,
                    &crate::subst::subst_ty_spec(t, map),
                    a,
                    (fuel - 1) as u64,
                );
                if c.is_none() {
                    unify_trait_args_spec(st, ts, rest, map, fuel)
                } else {
                    (st, false)
                }
            },
            _ => (st, true),
        }
    }
}

/// [`may_hold`], as a mathematical function.
pub open spec fn may_hold_spec(s: Select) -> bool {
    match s {
        Select::NoImpl => false,
        Select::Ambiguous => false,
        _ => true,
    }
}

/// Whether a selection leaves a bound possible.
pub fn may_hold(s: Select) -> (r: bool)
    ensures
        r == may_hold_spec(s),
{
    match s {
        Select::NoImpl => false,
        Select::Ambiguous => false,
        _ => true,
    }
}

/// [`Inferer::bounds_may_hold`], as a mathematical function.
pub open spec fn bounds_may_hold_spec(
    st: InfererV,
    env: &InferCx,
    ty: &Ty,
    traits: &List<DefId>,
    fuel: u64,
) -> (InfererV, bool)
    decreases fuel, traits,
{
    if fuel == 0 {
        (crate::unify::give_up_spec(st), true)
    } else {
        match traits {
            List::Nil => (st, true),
            List::Cons(t, rest) => {
                let (st, s) = select_spec(st, env, ty, *t, &List::Nil, (fuel - 1) as u64);
                if may_hold_spec(s) {
                    bounds_may_hold_spec(st, env, ty, rest, fuel)
                } else {
                    (st, false)
                }
            },
        }
    }
}

/// [`Inferer::impl_bounds_hold`], as a mathematical function.
pub open spec fn impl_bounds_hold_spec(
    st: InfererV,
    env: &InferCx,
    generics: &List<DefId>,
    map: &Subst,
    fuel: u64,
) -> (InfererV, bool)
    decreases fuel, generics,
{
    if fuel == 0 {
        (crate::unify::give_up_spec(st), true)
    } else {
        match generics {
            List::Nil => (st, true),
            List::Cons(p, rest) => match crate::subst::bound_to_spec(map, *p) {
                Some(t) => if crate::subst::is_var_spec(&crate::unify::shallow_spec(st, &t, DEPTH_LIMIT)) {
                    impl_bounds_hold_spec(st, env, rest, map, fuel)
                } else {
                    let traits = crate::types::param_bound_traits_spec(st, env, *p);
                    let (st, ok) = bounds_may_hold_spec(st, env, &t, &traits, (fuel - 1) as u64);
                    if ok {
                        impl_bounds_hold_spec(st, env, rest, map, fuel)
                    } else {
                        (st, false)
                    }
                },
                None => impl_bounds_hold_spec(st, env, rest, map, fuel),
            },
        }
    }
}

/// [`Inferer::trial_impl`], as a mathematical function.
pub open spec fn trial_impl_spec(
    st: InfererV,
    env: &InferCx,
    i: u64,
    s: &Ty,
    args: &List<Ty>,
    fuel: u64,
) -> (InfererV, bool)
    decreases fuel,
{
    if fuel == 0 {
        (crate::unify::give_up_spec(st), false)
    } else {
        match get_impl_spec(env, i) {
            Some(imp) => {
                let snap = crate::unify::snapshot_spec(st);
                let (st, map) = fresh_impl_map_spec(st, env, &imp.generics, crate::subst::no_subst_spec());
                let (st, impl_self) = impl_self_ty_spec(st, env, imp, &map, (fuel - 1) as u64);
                let (st, ok) = if crate::subst::is_error_spec(&impl_self) {
                    (st, false)
                } else {
                    let (st, c) = crate::unify::unify_spec(st, s, &impl_self, (fuel - 1) as u64);
                    (st, c.is_none())
                };
                let (st, trait_args) = impl_trait_args_spec(st, env, imp, (fuel - 1) as u64);
                let (st, ok) = if ok
                    && !crate::list::is_empty_spec(&trait_args)
                    && crate::list::list_len_spec(&trait_args) == crate::list::list_len_spec(args) {
                    unify_trait_args_spec(st, &trait_args, args, &map, (fuel - 1) as u64)
                } else {
                    (st, ok)
                };
                let (st, ok) = if ok {
                    impl_bounds_hold_spec(st, env, &imp.generics, &map, (fuel - 1) as u64)
                } else {
                    (st, ok)
                };
                let st = crate::unify::rollback_spec(st, snap);
                (st, ok)
            },
            None => (st, false),
        }
    }
}

/// [`Inferer::commit_impl`], as a mathematical function.
pub open spec fn commit_impl_spec(
    st: InfererV,
    env: &InferCx,
    i: u64,
    self_ty: &Ty,
    args: &List<Ty>,
    origin: NodeId,
    fuel: u64,
) -> (InfererV, Subst)
    decreases fuel,
{
    if fuel == 0 {
        (crate::unify::give_up_spec(st), crate::subst::no_subst_spec())
    } else {
        match get_impl_spec(env, i) {
            Some(imp) => {
                let (st, map) = fresh_impl_map_spec(st, env, &imp.generics, crate::subst::no_subst_spec());
                let (st, impl_self) = impl_self_ty_spec(st, env, imp, &map, (fuel - 1) as u64);
                let (st, _clash) = crate::unify::unify_spec(st, self_ty, &impl_self, (fuel - 1) as u64);
                let (st, trait_args) = impl_trait_args_spec(st, env, imp, (fuel - 1) as u64);
                let st = if !crate::list::is_empty_spec(&trait_args)
                    && crate::list::list_len_spec(&trait_args) == crate::list::list_len_spec(args) {
                    let st = unify_all_args_spec(st, &trait_args, args, &map, (fuel - 1) as u64);
                    st
                } else {
                    st
                };
                register_impl_bounds_spec(st, env, origin, &imp.generics, map, (fuel - 1) as u64)
            },
            None => (st, crate::subst::no_subst_spec()),
        }
    }
}

/// [`Inferer::unify_all_args`], as a mathematical function.
pub open spec fn unify_all_args_spec(
    st: InfererV,
    l: &List<Ty>,
    args: &List<Ty>,
    map: &Subst,
    fuel: u64,
) -> InfererV
    decreases fuel, l,
{
    if fuel == 0 {
        crate::unify::give_up_spec(st)
    } else {
        match (l, args) {
            (List::Cons(t, ts), List::Cons(a, rest)) => {
                let (st, _clash) = crate::unify::unify_spec(
                    st,
                    &crate::subst::subst_ty_spec(t, map),
                    a,
                    (fuel - 1) as u64,
                );
                let st = unify_all_args_spec(st, ts, rest, map, fuel);
                st
            },
            _ => {
                st
            },
        }
    }
}

/// [`projection_kids`], as a mathematical function.
pub open spec fn projection_kids_spec(t: &Tables, l: &List<(Symbol, DefId)>) -> List<(Symbol, DefId)>
    decreases l,
{
    match l {
        List::Nil => List::Nil,
        List::Cons(h, rest) => if crate::types::has_projection_spec(t, h.1) {
            List::Cons((h.0, h.1), Box::new(projection_kids_spec(t, rest)))
        } else {
            projection_kids_spec(t, rest)
        },
    }
}

/// The associated-type parameters among some members, by name.
pub fn projection_kids(t: &Tables, l: &List<(Symbol, DefId)>) -> (r: List<(Symbol, DefId)>)
    ensures
        r == projection_kids_spec(t, l),
    decreases l,
{
    match l {
        List::Nil => List::Nil,
        List::Cons(h, rest) => if has_projection(t, h.1) {
            List::Cons((dup_sym(&h.0), h.1), Box::new(projection_kids(t, rest)))
        } else {
            projection_kids(t, rest)
        },
    }
}

/// [`member_defs`], as a mathematical function.
pub open spec fn member_defs_spec(l: &List<(Symbol, DefId)>) -> List<DefId>
    decreases l,
{
    match l {
        List::Nil => List::Nil,
        List::Cons(h, t) => List::Cons(h.1, Box::new(member_defs_spec(t))),
    }
}

/// The definitions of a list of members.
pub fn member_defs(l: &List<(Symbol, DefId)>) -> (r: List<DefId>)
    ensures
        r == member_defs_spec(l),
    decreases l,
{
    match l {
        List::Nil => List::Nil,
        List::Cons(h, t) => List::Cons(h.1, Box::new(member_defs(t))),
    }
}

/// [`sorted_projections`], as a mathematical function.
pub open spec fn sorted_projections_spec(t: &Tables, d: DefId) -> List<DefId> {
    match crate::def::get_def_spec(t, d) {
        Some(def) => member_defs_spec(
            &crate::subst::sort_by_name_spec(projection_kids_spec(t, &def.members)),
        ),
        None => List::Nil,
    }
}

/// The associated-type parameters of a definition, in dictionary order.
pub fn sorted_projections(t: &Tables, d: DefId) -> (r: List<DefId>)
    ensures
        r == sorted_projections_spec(t, d),
{
    match get_def(t, d) {
        Some(def) => member_defs(&sort_by_name(projection_kids(t, &def.members))),
        None => List::Nil,
    }
}

/// [`close_over_projections`], as a mathematical function.
pub open spec fn close_over_projections_spec(t: &Tables, order: List<DefId>, i: u64, fuel: u64) -> List<DefId>
    decreases fuel,
{
    if fuel == 0 {
        order
    } else {
        match nth_def_spec(&order, i) {
            Some(d) => {
                let kids = sorted_projections_spec(t, d);
                close_over_projections_spec(
                    t,
                    crate::lower::merge_defs_spec(order, &kids),
                    crate::list::succ_spec(i),
                    (fuel - 1) as u64,
                )
            },
            None => order,
        }
    }
}

/// A list of generic parameters, with every associated-type parameter reachable
/// from it added behind it, from position `i` on.
pub fn close_over_projections(t: &Tables, order: List<DefId>, i: u64, fuel: u64) -> (r: List<DefId>)
    ensures
        r == close_over_projections_spec(t, order, i, fuel),
    decreases fuel,
{
    if fuel == 0 {
        return order;
    }
    match nth_def(&order, i) {
        Some(d) => {
            let kids = sorted_projections(t, d);
            close_over_projections(t, merge_defs(order, &kids), succ(i), (fuel - 1) as u64)
        },
        None => order,
    }
}

/// [`nth_def`], as a mathematical function.
pub open spec fn nth_def_spec(l: &List<DefId>, i: u64) -> Option<DefId> {
    match crate::list::nth_spec(l, i) {
        Some(d) => Some(*d),
        None => None,
    }
}

/// The definition at a position of a list.
pub fn nth_def(l: &List<DefId>, i: u64) -> (r: Option<DefId>)
    ensures
        r == nth_def_spec(l, i),
{
    match nth(l, i) {
        Some(d) => Some(*d),
        None => None,
    }
}

/// [`skip_defs`], as a mathematical function.
pub open spec fn skip_defs_spec(l: &List<DefId>, n: u64) -> List<DefId>
    decreases l,
{
    match l {
        List::Nil => List::Nil,
        List::Cons(h, t) => if n == 0 {
            List::Cons(*h, Box::new((**t)))
        } else {
            skip_defs_spec(t, (n - 1) as u64)
        },
    }
}

/// A list without its first `n` elements.
pub fn skip_defs(l: &List<DefId>, n: u64) -> (r: List<DefId>)
    ensures
        r == skip_defs_spec(l, n),
    decreases l,
{
    match l {
        List::Nil => List::Nil,
        List::Cons(h, t) => if n == 0 {
            List::Cons(*h, Box::new(dup_defs(&**t)))
        } else {
            skip_defs(t, (n - 1) as u64)
        },
    }
}

/// A copy of what an associated-type parameter stands for.
pub fn dup_projection(p: &Projection) -> (r: Projection)
    ensures
        r == *p,
{
    Projection { base: p.base, trait_def: p.trait_def, assoc: dup_sym(&p.assoc), pinned: p.pinned }
}

/// [`projection_of`], as a mathematical function.
pub open spec fn projection_of_spec(t: &Tables, d: DefId) -> Option<Projection> {
    match crate::def::get_def_spec(t, d) {
        Some(def) => match &def.projection {
            Some(p) => Some((*p)),
            None => None,
        },
        None => None,
    }
}

/// What an associated-type parameter stands for.
pub fn projection_of(t: &Tables, d: DefId) -> (r: Option<Projection>)
    ensures
        r == projection_of_spec(t, d),
{
    match get_def(t, d) {
        Some(def) => match &def.projection {
            Some(p) => Some(dup_projection(p)),
            None => None,
        },
        None => None,
    }
}

/// [`Inferer::open_projections`], as a mathematical function.
pub open spec fn open_projections_spec(
    st: InfererV,
    env: &InferCx,
    l: &List<DefId>,
    origin: NodeId,
    map: Subst,
) -> (InfererV, Subst)
    decreases l,
{
    match l {
        List::Nil => (st, map),
        List::Cons(d, rest) => {
            let (st, out) = crate::unify::fresh_spec(st);
            let map = crate::subst::bind_ty_spec(map, *d, out);
            let st = match projection_of_spec(env.tables, *d) {
                Some(p) => match crate::subst::bound_to_spec(&map, p.base) {
                    Some(base) => {
                        let st = crate::unify::register_spec(
                            st,
                            Obligation::Projection {
                                self_ty: base,
                                trait_def: p.trait_def,
                                args: List::Nil,
                                assoc: p.assoc,
                                out: out,
                                origin: origin,
                                method: None,
                            },
                        );
                        st
                    },
                    None => {
                        st
                    },
                },
                None => {
                    st
                },
            };
            open_projections_spec(st, env, rest, origin, map)
        },
    }
}

/// [`Inferer::register_impl_bounds`], as a mathematical function.
pub open spec fn register_impl_bounds_spec(
    st: InfererV,
    env: &InferCx,
    origin: NodeId,
    generics: &List<DefId>,
    map: Subst,
    fuel: u64,
) -> (InfererV, Subst)
    decreases fuel,
{
    if fuel == 0 {
        (crate::unify::give_up_spec(st), map)
    } else {
        let order = close_over_projections_spec(env.tables, (*generics), 0, DEPTH_LIMIT);
        let (st, map) = open_projections_spec(
            st,
            env,
            &skip_defs_spec(&order, crate::list::list_len_spec(generics)),
            origin,
            map,
        );
        let st = register_bounds_spec(st, env, origin, generics, &map, (fuel - 1) as u64);
        (st, map)
    }
}

/// [`Inferer::impl_self_ty`], as a mathematical function.
pub open spec fn impl_self_ty_spec(
    st: InfererV,
    env: &InferCx,
    imp: &ImplInfo,
    map: &Subst,
    fuel: u64,
) -> (InfererV, Ty)
    decreases fuel,
{
    if fuel == 0 {
        (crate::unify::give_up_spec(st), Ty::Error)
    } else {
        let (st, raw) = match &imp.typed {
            Some(t) => (st, t.self_ty),
            None => match &imp.syntax {
                Some(sx) => crate::types::ty_from_node_in_spec(
                    st,
                    env,
                    imp.file,
                    sx.self_node,
                    (fuel - 1) as u64,
                ),
                None => (st, Ty::Error),
            },
        };
        (st, crate::subst::subst_ty_spec(&raw, map))
    }
}

/// [`Inferer::impl_trait_args`], as a mathematical function.
pub open spec fn impl_trait_args_spec(
    st: InfererV,
    env: &InferCx,
    imp: &ImplInfo,
    fuel: u64,
) -> (InfererV, List<Ty>)
    decreases fuel,
{
    if fuel == 0 {
        (crate::unify::give_up_spec(st), List::Nil)
    } else {
        match &imp.typed {
            Some(t) => (st, t.trait_args),
            None => match &imp.syntax {
                Some(sx) => crate::types::tys_from_nodes_spec(
                    st,
                    env,
                    &sx.trait_args,
                    imp.file,
                    (fuel - 1) as u64,
                ),
                None => (st, List::Nil),
            },
        }
    }
}

/// [`find_assoc_node`], as a mathematical function.
pub open spec fn find_assoc_node_spec(l: &List<(Symbol, NodeId)>, name: &Symbol) -> Option<NodeId>
    decreases l,
{
    match l {
        List::Nil => None,
        List::Cons(h, t) => if crate::symbol::sym_eq_spec(&h.0, name) {
            Some(h.1)
        } else {
            find_assoc_node_spec(t, name)
        },
    }
}

/// Where an impl wrote an associated type.
pub fn find_assoc_node(l: &List<(Symbol, NodeId)>, name: &Symbol) -> (r: Option<NodeId>)
    ensures
        r == find_assoc_node_spec(l, name),
    decreases l,
{
    match l {
        List::Nil => None,
        List::Cons(h, t) => if sym_eq(&h.0, name) {
            Some(h.1)
        } else {
            find_assoc_node(t, name)
        },
    }
}

/// [`Inferer::impl_assoc`], as a mathematical function.
pub open spec fn impl_assoc_spec(
    st: InfererV,
    env: &InferCx,
    imp: &ImplInfo,
    name: &Symbol,
    fuel: u64,
) -> (InfererV, Option<Ty>)
    decreases fuel,
{
    if fuel == 0 {
        (crate::unify::give_up_spec(st), None)
    } else {
        match &imp.typed {
            Some(t) => match crate::ty::find_named_spec(&t.assoc, name) {
                Some(ty) => (st, Some((*ty))),
                None => (st, None),
            },
            None => match &imp.syntax {
                Some(sx) => match find_assoc_node_spec(&sx.assoc, name) {
                    Some(n) => {
                        let (st, ty) = crate::types::ty_from_node_in_spec(
                            st,
                            env,
                            imp.file,
                            n,
                            (fuel - 1) as u64,
                        );
                        (st, Some(ty))
                    },
                    None => (st, None),
                },
                None => (st, None),
            },
        }
    }
}

/// [`Inferer::fresh_impl_map`], as a mathematical function.
pub open spec fn fresh_impl_map_spec(
    st: InfererV,
    env: &InferCx,
    generics: &List<DefId>,
    map: Subst,
) -> (InfererV, Subst)
    decreases generics,
{
    match generics {
        List::Nil => (st, map),
        List::Cons(g, rest) => if crate::def::def_kind_spec(env.tables, *g) == DefKind::ConstParam {
            let (st, k) = crate::unify::fresh_const_spec(st);
            fresh_impl_map_spec(st, env, rest, crate::subst::bind_const_spec(map, *g, k))
        } else {
            let (st, t) = crate::unify::fresh_spec(st);
            fresh_impl_map_spec(st, env, rest, crate::subst::bind_ty_spec(map, *g, t))
        },
    }
}

/// [`Inferer::expect_args_at`], as a mathematical function.
pub open spec fn expect_args_at_spec(
    st: InfererV,
    env: &InferCx,
    origin: NodeId,
    params: &List<Ty>,
    args: &List<Ty>,
    fuel: u64,
) -> InfererV
    decreases fuel, params,
{
    if fuel == 0 {
        crate::unify::give_up_spec(st)
    } else {
        match (params, args) {
            (List::Cons(p, ps), List::Cons(a, rest)) => {
                let st = crate::coerce::expect_spec(st, env, origin, a, p, (fuel - 1) as u64);
                let st = expect_args_at_spec(st, env, origin, ps, rest, fuel);
                st
            },
            _ => {
                st
            },
        }
    }
}

/// [`Inferer::check_op_operands`], as a mathematical function.
pub open spec fn check_op_operands_spec(
    st: InfererV,
    env: &InferCx,
    i: u64,
    name: &Symbol,
    self_ty: &Ty,
    args: &List<Ty>,
    map: &Subst,
    origin: NodeId,
    fuel: u64,
) -> InfererV
    decreases fuel,
{
    if fuel == 0 {
        crate::unify::give_up_spec(st)
    } else {
        match impl_member_spec(env, i, name) {
            Some(m) => {
                let (st, sig) = crate::types::func_def_ty_spec(st, env, m, (fuel - 1) as u64);
                match crate::unify::shallow_spec(st, &crate::subst::subst_ty_spec(&sig, map), DEPTH_LIMIT) {
                    Ty::Func { params, ret: _, c: _ } => match &*params {
                        List::Cons(p, rest) => {
                            let st = crate::calls::unify_self_param_spec(st, p, self_ty);
                            let st = expect_args_at_spec(st, env, origin, rest, args, (fuel - 1) as u64);
                            st
                        },
                        List::Nil => {
                            st
                        },
                    },
                    _ => {
                        st
                    },
                }
            },
            None => {
                st
            },
        }
    }
}

/// [`Inferer::user_assoc`], as a mathematical function.
pub open spec fn user_assoc_spec(
    st: InfererV,
    env: &InferCx,
    i: u64,
    origin: NodeId,
    assoc: &Symbol,
    map: &Subst,
    fuel: u64,
) -> (InfererV, Ty)
    decreases fuel,
{
    if fuel == 0 {
        (crate::unify::give_up_spec(st), Ty::Error)
    } else {
        match get_impl_spec(env, i) {
            Some(imp) => {
                let (st, t) = impl_assoc_spec(st, env, imp, assoc, (fuel - 1) as u64);
                match t {
                    Some(t) => (st, crate::subst::subst_ty_spec(&t, map)),
                    None => {
                        let st = crate::unify::report_spec(
                            st,
                            env,
                            origin,
                            crate::diag::say_name_spec("impl does not define associated type `", assoc, "`"),
                        );
                        (st, Ty::Error)
                    },
                }
            },
            None => (st, Ty::Error),
        }
    }
}

/// [`Inferer::stamp_op`], as a mathematical function.
pub open spec fn stamp_op_spec(
    st: InfererV,
    env: &InferCx,
    origin: NodeId,
    choice: Choice,
    trait_def: DefId,
    name: &Symbol,
) -> InfererV {
    let (method, builtin) = match choice {
        Choice::Builtin(op) => (
            crate::def::member_of_spec(env.tables, trait_def, &builtin_method_spec(op)),
            Some(op),
        ),
        Choice::User(i) => (impl_member_spec(env, i, name), None),
    };
    match method {
        Some(m) => {
            let st = crate::unify::set_op_resolution_spec(
                st,
                st.file,
                origin,
                OpResolution { method: m, trait_def: trait_def, builtin: builtin },
            );
            st
        },
        None => {
            st
        },
    }
}

/// [`pinned_members`], as a mathematical function.
pub open spec fn pinned_members_spec(
    t: &Tables,
    l: &List<(Symbol, DefId)>,
    trait_def: DefId,
) -> List<(Symbol, DefId)>
    decreases l,
{
    match l {
        List::Nil => List::Nil,
        List::Cons(h, rest) => if pins_spec(t, h.1, trait_def) {
            List::Cons((h.0, h.1), Box::new(pinned_members_spec(t, rest, trait_def)))
        } else {
            pinned_members_spec(t, rest, trait_def)
        },
    }
}

/// The members of a parameter that a bound on a trait pinned.
pub fn pinned_members(t: &Tables, l: &List<(Symbol, DefId)>, trait_def: DefId) -> (r: List<(Symbol, DefId)>)
    ensures
        r == pinned_members_spec(t, l, trait_def),
    decreases l,
{
    match l {
        List::Nil => List::Nil,
        List::Cons(h, rest) => if pins(t, h.1, trait_def) {
            List::Cons((dup_sym(&h.0), h.1), Box::new(pinned_members(t, rest, trait_def)))
        } else {
            pinned_members(t, rest, trait_def)
        },
    }
}

/// [`pins`], as a mathematical function.
pub open spec fn pins_spec(t: &Tables, m: DefId, trait_def: DefId) -> bool {
    match projection_of_spec(t, m) {
        Some(p) => p.trait_def == trait_def
            && (p.pinned.is_some() || crate::decls::recorded_pinned_spec(t, m).is_some()),
        None => false,
    }
}

/// Whether an associated-type parameter of a trait is pinned.
pub fn pins(t: &Tables, m: DefId, trait_def: DefId) -> (r: bool)
    ensures
        r == pins_spec(t, m, trait_def),
{
    match projection_of(t, m) {
        Some(p) => p.trait_def == trait_def && (p.pinned.is_some() || recorded_pinned(t, m).is_some()),
        None => false,
    }
}

/// [`Inferer::register_pins`], as a mathematical function.
pub open spec fn register_pins_spec(
    st: InfererV,
    env: &InferCx,
    l: &List<(Symbol, DefId)>,
    at: NodeId,
    self_ty: &Ty,
    trait_def: DefId,
    args: &List<Ty>,
    map: &Subst,
    fuel: u64,
) -> InfererV
    decreases fuel, l,
{
    if fuel == 0 {
        crate::unify::give_up_spec(st)
    } else {
        match l {
            List::Nil => {
                st
            },
            List::Cons(h, rest) => {
                let (st, out) = crate::types::param_ty_spec(st, env, h.1, (fuel - 1) as u64);
                let st = crate::unify::register_spec(
                    st,
                    Obligation::Projection {
                        self_ty: (*self_ty),
                        trait_def: trait_def,
                        args: (*args),
                        assoc: h.0,
                        out: crate::subst::subst_ty_spec(&out, map),
                        origin: at,
                        method: None,
                    },
                );
                let st = register_pins_spec(st, env, rest, at, self_ty, trait_def, args, map, fuel);
                st
            },
        }
    }
}

/// [`Inferer::register_traits`], as a mathematical function.
pub open spec fn register_traits_spec(
    st: InfererV,
    env: &InferCx,
    l: &List<DefId>,
    at: NodeId,
    p: DefId,
    self_ty: &Ty,
    map: &Subst,
    fuel: u64,
) -> InfererV
    decreases fuel, l,
{
    if fuel == 0 {
        crate::unify::give_up_spec(st)
    } else {
        match l {
            List::Nil => {
                st
            },
            List::Cons(t, rest) => {
                let (st, written) = crate::types::bound_args_spec(st, env, p, *t, (fuel - 1) as u64);
                let args = crate::subst::subst_tys_spec(&written, map);
                let st = crate::unify::register_spec(
                    st,
                    Obligation::Trait {
                        self_ty: (*self_ty),
                        trait_def: *t,
                        args: args,
                        origin: at,
                        stamp: None,
                    },
                );
                let st = match crate::def::get_def_spec(env.tables, p) {
                    Some(d) => {
                        let pinned = pinned_members_spec(env.tables, &d.members, *t);
                        let st = register_pins_spec(
                            st,
                            env,
                            &pinned,
                            at,
                            self_ty,
                            *t,
                            &args,
                            map,
                            (fuel - 1) as u64,
                        );
                        st
                    },
                    None => {
                        st
                    },
                };
                let st = register_traits_spec(st, env, rest, at, p, self_ty, map, fuel);
                st
            },
        }
    }
}

/// [`Inferer::register_bounds`], as a mathematical function.
pub open spec fn register_bounds_spec(
    st: InfererV,
    env: &InferCx,
    at: NodeId,
    params: &List<DefId>,
    map: &Subst,
    fuel: u64,
) -> InfererV
    decreases fuel, params,
{
    if fuel == 0 {
        crate::unify::give_up_spec(st)
    } else {
        match params {
            List::Nil => {
                st
            },
            List::Cons(p, rest) => {
                let st = if crate::def::def_kind_spec(env.tables, *p) == DefKind::TypeParam {
                    match crate::subst::bound_to_spec(map, *p) {
                        Some(self_ty) => {
                            let traits = crate::types::param_bound_traits_spec(st, env, *p);
                            let st = register_traits_spec(
                                st,
                                env,
                                &traits,
                                at,
                                *p,
                                &self_ty,
                                map,
                                (fuel - 1) as u64,
                            );
                            st
                        },
                        None => {
                            st
                        },
                    }
                } else {
                    st
                };
                let st = register_bounds_spec(st, env, at, rest, map, fuel);
                st
            },
        }
    }
}

// The `Func` trait, which no impl is written for.

/// [`trait_parts`], as a mathematical function.
pub open spec fn trait_parts_spec(ob: &Obligation) -> Option<(Ty, DefId, NodeId)> {
    match ob {
        Obligation::Trait { self_ty, trait_def, args: _, origin, stamp: _ } => {
            Some(((*self_ty), *trait_def, *origin))
        },
        Obligation::Projection { self_ty, trait_def, args: _, assoc: _, out: _, origin, method: _ } => {
            Some(((*self_ty), *trait_def, *origin))
        },
        _ => None,
    }
}

/// The parts of an obligation on a trait.
pub fn trait_parts(ob: &Obligation) -> (r: Option<(Ty, DefId, NodeId)>)
    ensures
        r == trait_parts_spec(ob),
{
    match ob {
        Obligation::Trait { self_ty, trait_def, args: _, origin, stamp: _ } => {
            Some((dup_ty(self_ty), *trait_def, *origin))
        },
        Obligation::Projection { self_ty, trait_def, args: _, assoc: _, out: _, origin, method: _ } => {
            Some((dup_ty(self_ty), *trait_def, *origin))
        },
        _ => None,
    }
}

/// [`Inferer::try_solve_func`], as a mathematical function.
pub open spec fn try_solve_func_spec(
    st: InfererV,
    env: &InferCx,
    ob: &Obligation,
    fuel: u64,
) -> (InfererV, Option<Outcome>)
    decreases fuel,
{
    if fuel == 0 {
        (crate::unify::give_up_spec(st), None)
    } else {
        match trait_parts_spec(ob) {
            Some((self_ty, trait_def, origin)) => {
                if crate::def::lang_def_spec(env.tables, "func") != Some(trait_def) {
                    (st, None)
                } else {
                    let s = crate::unify::shallow_spec(st, &self_ty, DEPTH_LIMIT);
                    if crate::subst::is_var_spec(&s) {
                        (st, Some(Outcome::Deferred))
                    } else {
                        if crate::subst::is_error_spec(&s) {
                            let st = match ob {
                                Obligation::Projection {
                                    self_ty: _,
                                    trait_def: _,
                                    args: _,
                                    assoc: _,
                                    out,
                                    origin: _,
                                    method: _,
                                } => {
                                    let (st, _clash) = crate::unify::unify_spec(
                                        st,
                                        out,
                                        &Ty::Error,
                                        (fuel - 1) as u64,
                                    );
                                    st
                                },
                                _ => {
                                    st
                                },
                            };
                            (st, Some(Outcome::Solved))
                        } else {
                            let (st, sig) = func_value_sig_spec(st, env, &s, (fuel - 1) as u64);
                            match sig {
                                Some((params, ret)) => {
                                    let st = match ob {
                                        Obligation::Projection {
                                            self_ty: _,
                                            trait_def: _,
                                            args: _,
                                            assoc,
                                            out,
                                            origin: _,
                                            method: _,
                                        } => {
                                            let have = if crate::symbol::sym_is_spec(assoc, "Args") {
                                                crate::subst::args_tuple_spec(&params)
                                            } else {
                                                ret
                                            };
                                            let st = crate::coerce::expect_spec(
                                                st,
                                                env,
                                                origin,
                                                &have,
                                                out,
                                                (fuel - 1) as u64,
                                            );
                                            st
                                        },
                                        _ => {
                                            st
                                        },
                                    };
                                    (st, Some(Outcome::Solved))
                                },
                                _ => {
                                    (st, None)
                                },
                            }
                        }
                    }
                }
            },
            _ => {
                (st, None)
            },
        }
    }
}

/// [`Inferer::func_value_sig`], as a mathematical function.
pub open spec fn func_value_sig_spec(
    st: InfererV,
    env: &InferCx,
    ty: &Ty,
    fuel: u64,
) -> (InfererV, Option<(List<Ty>, Ty)>)
    decreases fuel,
{
    if fuel == 0 {
        (crate::unify::give_up_spec(st), None)
    } else {
        match crate::unify::shallow_spec(st, ty, DEPTH_LIMIT) {
            Ty::Func { params, ret, c: _ } => (st, Some((*params, *ret))),
            Ty::Ptr { mutable: _, inner } => (st, func_object_sig_spec(env.tables, &inner)),
            Ty::Nominal { def, args } => match crate::def::def_kind_spec(env.tables, def) {
                DefKind::Closure => (st, closure_value_sig_spec(st, env, def, &args)),
                DefKind::TypeParam => param_value_sig_spec(st, env, def, &args, (fuel - 1) as u64),
                _ => (st, None),
            },
            _ => (st, None),
        }
    }
}

/// [`func_object_sig`], as a mathematical function.
pub open spec fn func_object_sig_spec(t: &Tables, ty: &Ty) -> Option<(List<Ty>, Ty)> {
    match ty {
        Ty::Dyn { def, assoc } => if crate::def::lang_def_spec(t, "func") == Some(*def) {
            let params = match crate::ty::find_named_spec(assoc, &crate::symbol::sym_spec("Args")) {
                Some(a) => crate::subst::tuple_elems_spec(a),
                None => List::Nil,
            };
            let ret = match crate::ty::find_named_spec(assoc, &crate::symbol::sym_spec("Output")) {
                Some(o) => (*o),
                None => Ty::Void,
            };
            Some((params, ret))
        } else {
            None
        },
        _ => None,
    }
}

/// The call a trait object of `Func` takes.
pub fn func_object_sig(t: &Tables, ty: &Ty) -> (r: Option<(List<Ty>, Ty)>)
    ensures
        r == func_object_sig_spec(t, ty),
{
    match ty {
        Ty::Dyn { def, assoc } => if lang_def(t, "func") == Some(*def) {
            let params = match find_named(assoc, &sym("Args")) {
                Some(a) => tuple_elems(a),
                None => List::Nil,
            };
            let ret = match find_named(assoc, &sym("Output")) {
                Some(o) => dup_ty(o),
                None => Ty::Void,
            };
            Some((params, ret))
        } else {
            None
        },
        _ => None,
    }
}

/// [`Inferer::closure_value_sig`], as a mathematical function.
pub open spec fn closure_value_sig_spec(
    st: InfererV,
    env: &InferCx,
    def: DefId,
    args: &List<Ty>,
) -> Option<(List<Ty>, Ty)> {
    match crate::def::def_place_spec(env.tables, def) {
        Some((file, node)) => match crate::unify::get_closure_sig_spec(st, file, node) {
            Some(sig) => {
                let map = crate::subst::of_types_spec(crate::subst::zip_subst_spec(&sig.generics, args));
                Some(
                    (
                        crate::subst::subst_tys_spec(&sig.params, &map),
                        crate::subst::subst_ty_spec(&sig.ret, &map),
                    ),
                )
            },
            None => None,
        },
        None => None,
    }
}

/// [`Inferer::param_value_sig`], as a mathematical function.
pub open spec fn param_value_sig_spec(
    st: InfererV,
    env: &InferCx,
    def: DefId,
    args: &List<Ty>,
    fuel: u64,
) -> (InfererV, Option<(List<Ty>, Ty)>)
    decreases fuel,
{
    if fuel == 0 {
        (crate::unify::give_up_spec(st), None)
    } else {
        match crate::def::lang_def_spec(env.tables, "func") {
            Some(func) => {
                if !crate::def::def_in_spec(&crate::types::param_bound_traits_spec(st, env, def), func) {
                    (st, None)
                } else {
                    let (st, params) = match crate::def::member_of_spec(
                        env.tables,
                        def,
                        &crate::symbol::sym_spec("Args"),
                    ) {
                        Some(synth) => {
                            let (st, t) = crate::types::param_ty_spec(st, env, synth, (fuel - 1) as u64);
                            (st, crate::subst::tuple_elems_spec(&t))
                        },
                        None => (st, List::Nil),
                    };
                    let (st, ret) = match crate::def::member_of_spec(
                        env.tables,
                        def,
                        &crate::symbol::sym_spec("Output"),
                    ) {
                        Some(synth) => crate::types::param_ty_spec(st, env, synth, (fuel - 1) as u64),
                        None => (st, Ty::Void),
                    };
                    let map = crate::subst::of_types_spec(
                        crate::subst::zip_subst_spec(&crate::decls::opaque_params_spec(st, env, def), args),
                    );
                    (
                        st,
                        Some(
                            (
                                crate::subst::subst_tys_spec(&params, &map),
                                crate::subst::subst_ty_spec(&ret, &map),
                            ),
                        ),
                    )
                }
            },
            _ => {
                (st, None)
            },
        }
    }
}

// Reporting.

/// [`Inferer::report_unsolved`], as a mathematical function.
pub open spec fn report_unsolved_spec(st: InfererV, env: &InferCx, ob: &Obligation, fuel: u64) -> InfererV
    decreases fuel,
{
    if fuel == 0 {
        crate::unify::give_up_spec(st)
    } else {
        match ob {
            Obligation::Trait { self_ty, trait_def, args, origin, stamp: _ } => {
                if !crate::subst::is_var_spec(&crate::unify::shallow_spec(st, self_ty, DEPTH_LIMIT)) {
                    let st = report_no_impl_spec(st, env, *origin, self_ty, *trait_def, args);
                    st
                } else {
                    st
                }
            },
            Obligation::Projection { self_ty, trait_def, args, assoc: _, out, origin, method: _ } => {
                let st = if !crate::subst::is_var_spec(
                    &crate::unify::shallow_spec(st, self_ty, DEPTH_LIMIT),
                ) {
                    let st = report_no_impl_spec(st, env, *origin, self_ty, *trait_def, args);
                    st
                } else {
                    st
                };
                let (st, _clash) = crate::unify::unify_spec(st, out, &Ty::Error, (fuel - 1) as u64);
                st
            },
            _ => {
                st
            },
        }
    }
}

/// [`Inferer::report_each_unsolved`], as a mathematical function.
pub open spec fn report_each_unsolved_spec(
    st: InfererV,
    env: &InferCx,
    l: &List<Obligation>,
    fuel: u64,
) -> InfererV
    decreases fuel, l,
{
    if fuel == 0 {
        crate::unify::give_up_spec(st)
    } else {
        match l {
            List::Nil => {
                st
            },
            List::Cons(ob, rest) => {
                let st = report_unsolved_spec(st, env, ob, (fuel - 1) as u64);
                let st = report_each_unsolved_spec(st, env, rest, fuel);
                st
            },
        }
    }
}

/// [`Inferer::listed_types`], as a mathematical function.
pub open spec fn listed_types_spec(st: InfererV, l: &List<Ty>) -> List<Part>
    decreases l,
{
    match l {
        List::Nil => List::Nil,
        List::Cons(h, t) => if crate::list::is_empty_spec(t) {
            crate::list::single_spec(Part::Ty(crate::unify::resolve_spec(st, h, DEPTH_LIMIT)))
        } else {
            List::Cons(
                Part::Ty(crate::unify::resolve_spec(st, h, DEPTH_LIMIT)),
                Box::new(List::Cons(Part::Text(", "), Box::new(listed_types_spec(st, t)))),
            )
        },
    }
}

/// [`Inferer::trait_parts_of`], as a mathematical function.
pub open spec fn trait_parts_of_spec(st: InfererV, trait_def: DefId, args: &List<Ty>) -> List<Part> {
    if crate::list::is_empty_spec(args) {
        crate::list::single_spec(Part::Path(trait_def))
    } else {
        crate::list::append_spec(
            crate::list::list2_spec(Part::Path(trait_def), Part::Text(".<")),
            crate::list::append_spec(listed_types_spec(st, args), crate::list::single_spec(Part::Text(">"))),
        )
    }
}

/// [`Inferer::report_no_impl`], as a mathematical function.
pub open spec fn report_no_impl_spec(
    st: InfererV,
    env: &InferCx,
    node: NodeId,
    self_ty: &Ty,
    trait_def: DefId,
    args: &List<Ty>,
) -> InfererV {
    let msg = crate::list::append_spec(
        crate::list::list3_spec(
            Part::Text("`"),
            Part::Ty(crate::unify::resolve_spec(st, self_ty, DEPTH_LIMIT)),
            Part::Text("` does not implement `"),
        ),
        crate::list::append_spec(
            trait_parts_of_spec(st, trait_def, args),
            crate::list::single_spec(Part::Text("`")),
        ),
    );
    let st = crate::unify::report_spec(st, env, node, msg);
    st
}

/// [`Inferer::report_ambiguous`], as a mathematical function.
pub open spec fn report_ambiguous_spec(
    st: InfererV,
    env: &InferCx,
    node: NodeId,
    self_ty: &Ty,
    trait_def: DefId,
    args: &List<Ty>,
) -> InfererV {
    let msg = crate::list::append_spec(
        crate::list::single_spec(Part::Text("multiple applicable impls of `")),
        crate::list::append_spec(
            trait_parts_of_spec(st, trait_def, args),
            crate::list::list3_spec(
                Part::Text("` for `"),
                Part::Ty(crate::unify::resolve_spec(st, self_ty, DEPTH_LIMIT)),
                Part::Text("`"),
            ),
        ),
    );
    let st = crate::unify::report_spec(st, env, node, msg);
    st
}

impl Inferer {
    /// Whether a machine operation applies to a type, or to a literal that is still
    /// to become one of its types.
    pub fn builtin_matches(&self, op: BuiltinOp, ty: &Ty) -> (r: bool)
        ensures
            r == builtin_matches_spec(self@, op, ty),
    {
        if is_int(ty) || (is_float(ty) && works_on_floats(op)) {
            true
        } else {
            match self.var_kind(ty) {
                Some(TyVarKind::Int) => true,
                Some(TyVarKind::Float) => works_on_floats(op),
                _ => false,
            }
        }
    }

    /// A type with its head known where the solver can find it out.
    pub fn settle(&mut self, env: &InferCx, ty: &Ty, fuel: u64) -> (r: Ty)
        ensures
            (final(self)@, r) == settle_spec(old(self)@, env, ty, fuel),
            crate::keeping::kept(old(self)@, final(self)@),
        decreases fuel,
    {
        if fuel == 0 {
            self.give_up();
            return dup_ty(ty);
        }
        let s = self.shallow(ty, DEPTH_LIMIT);
        if !is_var(&s) {
            return s;
        }
        self.solve_to_fixpoint(env, (fuel - 1) as u64);
        self.shallow(ty, DEPTH_LIMIT)
    }

    /// Attempt a list of obligations: which of them are still blocked, and whether
    /// any was decided.
    pub fn try_each(&mut self, env: &InferCx, l: List<Obligation>, fuel: u64) -> (r: (List<Obligation>, bool))
        ensures
            (final(self)@, r) == try_each_spec(old(self)@, env, l, fuel),
            crate::keeping::kept(old(self)@, final(self)@),
        decreases fuel, l,
    {
        if fuel == 0 {
            self.give_up();
            return (l, false);
        }
        match l {
            List::Nil => (List::Nil, false),
            List::Cons(ob, rest) => {
                let outcome = self.try_solve(env, &ob, (fuel - 1) as u64);
                let (deferred, progressed) = self.try_each(env, *rest, fuel);
                if outcome == Outcome::Deferred {
                    (List::Cons(ob, Box::new(deferred)), progressed)
                } else {
                    (deferred, true)
                }
            },
        }
    }

    /// Put back a list of obligations.
    pub fn register_all(&mut self, l: List<Obligation>)
        ensures
            final(self)@ == register_all_spec(old(self)@, l),
            crate::keeping::kept(old(self)@, final(self)@),
        decreases l,
    {
        match l {
            List::Nil => {},
            List::Cons(ob, rest) => {
                self.register(ob);
                self.register_all(*rest);
            },
        }
    }

    /// Discharge what is queued until a whole sweep decides nothing: solving one
    /// obligation can solve a variable that another waits for.
    pub fn solve_to_fixpoint(&mut self, env: &InferCx, fuel: u64)
        ensures
            final(self)@ == solve_to_fixpoint_spec(old(self)@, env, fuel),
            crate::keeping::kept(old(self)@, final(self)@),
        decreases fuel,
    {
        if fuel == 0 {
            self.give_up();
            return;
        }
        if is_empty(&self.obligations) {
            return;
        }
        let obligations = self.take_obligations();
        let (deferred, progressed) = self.try_each(env, obligations, (fuel - 1) as u64);
        self.register_all(deferred);
        if progressed {
            self.solve_to_fixpoint(env, (fuel - 1) as u64);
        } else {
            let changed = self.default_anon_structs(env, (fuel - 1) as u64);
            if changed {
                self.solve_to_fixpoint(env, (fuel - 1) as u64);
            }
        }
    }

    /// The fields of a record literal, each with the type inferred for its value.
    pub fn written_fields(&mut self, env: &InferCx, l: &List<NodeId>, fuel: u64) -> (r: List<(Symbol, Ty)>)
        ensures
            (final(self)@, r) == written_fields_spec(old(self)@, env, l, fuel),
            crate::keeping::kept(old(self)@, final(self)@),
        decreases fuel, l,
    {
        if fuel == 0 {
            self.give_up();
            return List::Nil;
        }
        match l {
            List::Nil => List::Nil,
            List::Cons(f, rest) => match kind_of(env.tables, self.file, *f) {
                Some(NodeKind::FieldInit { name, value }) => {
                    let t = self.node_ty(env, *value, (fuel - 1) as u64);
                    let others = self.written_fields(env, rest, fuel);
                    List::Cons((dup_sym(name), t), Box::new(others))
                },
                _ => self.written_fields(env, rest, fuel),
            },
        }
    }

    /// Give one untyped record literal the anonymous struct type it has on its own,
    /// and say whether that decided anything.
    pub fn default_anon(&mut self, env: &InferCx, ob: &Obligation, fuel: u64) -> (r: bool)
        ensures
            (final(self)@, r) == default_anon_spec(old(self)@, env, ob, fuel),
            crate::keeping::kept(old(self)@, final(self)@),
        decreases fuel,
    {
        if fuel == 0 {
            self.give_up();
            return false;
        }
        match ob {
            Obligation::CompositeBody { recv, origin } => if is_var(&self.shallow(recv, DEPTH_LIMIT)) {
                match kind_of(env.tables, self.file, *origin) {
                    Some(
                        NodeKind::CompositeLit {
                            ty: None,
                            body: CompositeBody::Named { fields, spread: None },
                        },
                    ) => {
                        let named = self.written_fields(env, fields, (fuel - 1) as u64);
                        let c = self.unify(recv, &Ty::Struct(Box::new(sort_named(named))), (fuel - 1) as u64);
                        c.is_none()
                    },
                    _ => false,
                }
            } else {
                false
            },
            _ => false,
        }
    }

    /// The same for each of a list.
    pub fn default_each_anon(&mut self, env: &InferCx, l: &List<Obligation>, fuel: u64) -> (r: bool)
        ensures
            (final(self)@, r) == default_each_anon_spec(old(self)@, env, l, fuel),
            crate::keeping::kept(old(self)@, final(self)@),
        decreases fuel, l,
    {
        if fuel == 0 {
            self.give_up();
            return false;
        }
        match l {
            List::Nil => false,
            List::Cons(ob, rest) => {
                let first = self.default_anon(env, ob, (fuel - 1) as u64);
                let others = self.default_each_anon(env, rest, fuel);
                first || others
            },
        }
    }

    /// Give each record literal that nothing typed the anonymous struct type it has
    /// on its own, and say whether that unstuck anything. A positional body, and one
    /// with a spread, has nothing to fall back to.
    pub fn default_anon_structs(&mut self, env: &InferCx, fuel: u64) -> (r: bool)
        ensures
            (final(self)@, r) == default_anon_structs_spec(old(self)@, env, fuel),
            crate::keeping::kept(old(self)@, final(self)@),
        decreases fuel,
    {
        if fuel == 0 {
            self.give_up();
            return false;
        }
        let pending = self.take_obligations();
        let changed = self.default_each_anon(env, &pending, (fuel - 1) as u64);
        self.register_all(pending);
        changed
    }

    /// Attempt to discharge one obligation.
    pub fn try_solve(&mut self, env: &InferCx, ob: &Obligation, fuel: u64) -> (r: Outcome)
        ensures
            (final(self)@, r) == try_solve_spec(old(self)@, env, ob, fuel),
            r is Failed ==> old(self)@.diags.len() < final(self)@.diags.len(),
            crate::keeping::kept(old(self)@, final(self)@),
        decreases fuel,
    {
        if fuel == 0 {
            self.give_up();
            return Outcome::Deferred;
        }
        proof {
            reveal(crate::keeping::kept);
        }
        let func = self.try_solve_func(env, ob, (fuel - 1) as u64);
        match func {
            Some(outcome) => {
                return outcome;
            },
            None => {},
        }
        match ob {
            Obligation::Trait { self_ty, trait_def, args, origin, stamp } => {
                self.solve_trait(env, self_ty, *trait_def, args, *origin, stamp, (fuel - 1) as u64)
            },
            Obligation::Projection { self_ty, trait_def, args, assoc, out, origin, method } => {
                self.solve_projection(
                    env,
                    self_ty,
                    *trait_def,
                    args,
                    assoc,
                    out,
                    *origin,
                    method,
                    (fuel - 1) as u64,
                )
            },
            Obligation::VariantPayload { recv, variant, args, origin } => {
                self.solve_variant(env, recv, variant, args, *origin, (fuel - 1) as u64)
            },
            Obligation::CompositeBody { recv, origin } => {
                let target = self.shallow(recv, DEPTH_LIMIT);
                if is_var(&target) {
                    Outcome::Deferred
                } else {
                    self.check_composite_body(env, *origin, &target, (fuel - 1) as u64);
                    Outcome::Solved
                }
            },
            Obligation::Field { recv, name, out, origin } => self.solve_field(
                env,
                recv,
                name,
                out,
                *origin,
                (fuel - 1) as u64,
            ),
            Obligation::Comparison { self_ty, op, origin } => if is_var(&self.shallow(self_ty, DEPTH_LIMIT)) {
                Outcome::Deferred
            } else {
                self.check_order_bound(env, *origin, *op, self_ty);
                Outcome::Solved
            },
        }
    }

    /// A type implements a trait. A written impl that wins is committed to, and the
    /// member to record is taken from it.
    pub fn solve_trait(
        &mut self,
        env: &InferCx,
        self_ty: &Ty,
        trait_def: DefId,
        args: &List<Ty>,
        origin: NodeId,
        stamp: &Option<Symbol>,
        fuel: u64,
    ) -> (r: Outcome)
        ensures
            (final(self)@, r) == solve_trait_spec(
                old(self)@,
                env,
                self_ty,
                trait_def,
                args,
                origin,
                stamp,
                fuel,
            ),
            r is Failed ==> old(self)@.diags.len() < final(self)@.diags.len(),
            crate::keeping::kept(old(self)@, final(self)@),
        decreases fuel,
    {
        if fuel == 0 {
            self.give_up();
            return Outcome::Deferred;
        }
        proof {
            reveal(crate::keeping::kept);
        }
        let s = self.select(env, self_ty, trait_def, args, (fuel - 1) as u64);
        match s {
            Select::Found(Choice::User(i)) => {
                let _map = self.commit_impl(env, i, self_ty, args, origin, (fuel - 1) as u64);
                match stamp {
                    Some(name) => match impl_member(env, i, name) {
                        Some(method) => {
                            self.set_op_resolution(
                                self.file,
                                origin,
                                OpResolution { method: method, trait_def: trait_def, builtin: None },
                            );
                        },
                        None => {
                            self.report(env, origin, say_name("impl does not define `", name, "`"));
                        },
                    },
                    None => {},
                }
                Outcome::Solved
            },
            Select::Found(Choice::Builtin(_)) => Outcome::Solved,
            Select::Error => Outcome::Solved,
            Select::ByBound => {
                if stamp.is_some() {
                    self.set_static_trait_self(
                        self.file,
                        origin,
                        StaticTraitSelf {
                            trait_def: trait_def,
                            self_ty: dup_ty(self_ty),
                            trait_args: dup_tys(args),
                        },
                    );
                }
                Outcome::Solved
            },
            Select::Defer => Outcome::Deferred,
            Select::NoImpl => {
                self.report_no_impl(env, origin, self_ty, trait_def, args);
                Outcome::Failed
            },
            Select::Ambiguous => {
                self.report_ambiguous(env, origin, self_ty, trait_def, args);
                Outcome::Failed
            },
        }
    }

    /// A type's associated type. Once the impl is chosen its operands are held to
    /// the signature it declares.
    pub fn solve_projection(
        &mut self,
        env: &InferCx,
        self_ty: &Ty,
        trait_def: DefId,
        args: &List<Ty>,
        assoc: &Symbol,
        out: &Ty,
        origin: NodeId,
        method: &Option<Symbol>,
        fuel: u64,
    ) -> (r: Outcome)
        ensures
            (final(self)@, r) == solve_projection_spec(
                old(self)@,
                env,
                self_ty,
                trait_def,
                args,
                assoc,
                out,
                origin,
                method,
                fuel,
            ),
            r is Failed ==> old(self)@.diags.len() < final(self)@.diags.len(),
            crate::keeping::kept(old(self)@, final(self)@),
        decreases fuel,
    {
        if fuel == 0 {
            self.give_up();
            return Outcome::Deferred;
        }
        proof {
            reveal(crate::keeping::kept);
        }
        let s = self.select(env, self_ty, trait_def, args, (fuel - 1) as u64);
        match s {
            Select::Found(choice) => {
                let assoc_ty = match choice {
                    Choice::Builtin(_) => self.shallow(self_ty, DEPTH_LIMIT),
                    Choice::User(i) => {
                        let map = self.commit_impl(env, i, self_ty, args, origin, (fuel - 1) as u64);
                        match method {
                            Some(name) => {
                                self.check_op_operands(
                                    env,
                                    i,
                                    name,
                                    self_ty,
                                    args,
                                    &map,
                                    origin,
                                    (fuel - 1) as u64,
                                );
                            },
                            None => {},
                        }
                        self.user_assoc(env, i, origin, assoc, &map, (fuel - 1) as u64)
                    },
                };
                self.expect(env, origin, &assoc_ty, out, (fuel - 1) as u64);
                match method {
                    Some(name) => {
                        self.stamp_op(env, origin, choice, trait_def, name);
                    },
                    None => {},
                }
                Outcome::Solved
            },
            Select::Error => {
                let _clash = self.unify(out, &Ty::Error, (fuel - 1) as u64);
                Outcome::Solved
            },
            Select::Defer => Outcome::Deferred,
            Select::ByBound => self.project_bound(
                env,
                self_ty,
                trait_def,
                args,
                assoc,
                out,
                origin,
                (fuel - 1) as u64,
            ),
            Select::NoImpl => {
                self.report_no_impl(env, origin, self_ty, trait_def, args);
                let _clash = self.unify(out, &Ty::Error, (fuel - 1) as u64);
                Outcome::Failed
            },
            Select::Ambiguous => {
                self.report_ambiguous(env, origin, self_ty, trait_def, args);
                let _clash = self.unify(out, &Ty::Error, (fuel - 1) as u64);
                Outcome::Failed
            },
        }
    }

    /// What a bound projects: what a trait object pins, or the parameter the bound
    /// minted for the associated type.
    pub fn project_bound(
        &mut self,
        env: &InferCx,
        self_ty: &Ty,
        trait_def: DefId,
        args: &List<Ty>,
        assoc: &Symbol,
        out: &Ty,
        origin: NodeId,
        fuel: u64,
    ) -> (r: Outcome)
        ensures
            (final(self)@, r) == project_bound_spec(
                old(self)@,
                env,
                self_ty,
                trait_def,
                args,
                assoc,
                out,
                origin,
                fuel,
            ),
            r is Failed ==> old(self)@.diags.len() < final(self)@.diags.len(),
            crate::keeping::kept(old(self)@, final(self)@),
        decreases fuel,
    {
        if fuel == 0 {
            self.give_up();
            return Outcome::Deferred;
        }
        proof {
            reveal(crate::keeping::kept);
        }
        let head = self.shallow(self_ty, DEPTH_LIMIT);
        match pin_of(&head, assoc) {
            Some(t) => {
                self.expect(env, origin, &t, out, (fuel - 1) as u64);
                return Outcome::Solved;
            },
            None => {},
        }
        let minted = match &head {
            Ty::Nominal { def, args: _ } => member_of(env.tables, *def, assoc),
            _ => None,
        };
        match minted {
            Some(synth) => {
                let t = self.param_ty(env, synth, (fuel - 1) as u64);
                self.expect(env, origin, &t, out, (fuel - 1) as u64);
                Outcome::Solved
            },
            None => {
                self.report_no_impl(env, origin, self_ty, trait_def, args);
                let _clash = self.unify(out, &Ty::Error, (fuel - 1) as u64);
                Outcome::Failed
            },
        }
    }

    /// Hold a variant literal's arguments to the payload, by name or by position.
    pub fn check_payload(
        &mut self,
        env: &InferCx,
        args: &List<(Option<Symbol>, Ty)>,
        i: u64,
        payload: &List<(Option<Symbol>, Ty)>,
        variant: &Symbol,
        origin: NodeId,
        fuel: u64,
    )
        ensures
            final(self)@ == check_payload_spec(old(self)@, env, args, i, payload, variant, origin, fuel),
            crate::keeping::kept(old(self)@, final(self)@),
        decreases fuel, args,
    {
        if fuel == 0 {
            self.give_up();
            return;
        }
        match args {
            List::Nil => {},
            List::Cons(a, rest) => {
                let target = match &a.0 {
                    Some(n) => payload_named(payload, n),
                    None => payload_at(payload, i),
                };
                match target {
                    Some(t) => {
                        self.expect(env, origin, &a.1, &t, (fuel - 1) as u64);
                    },
                    None => match &a.0 {
                        Some(n) => {
                            self.report(
                                env,
                                origin,
                                list5(
                                    Part::Text("variant `."),
                                    Part::Name(dup_sym(variant)),
                                    Part::Text("` has no field `"),
                                    Part::Name(dup_sym(n)),
                                    Part::Text("`"),
                                ),
                            );
                        },
                        None => {},
                    },
                }
                self.check_payload(env, rest, succ(i), payload, variant, origin, fuel);
            },
        }
    }

    /// A variant literal names a variant of an enum, and its arguments fit.
    pub fn solve_variant(
        &mut self,
        env: &InferCx,
        recv: &Ty,
        variant: &Symbol,
        args: &List<(Option<Symbol>, Ty)>,
        origin: NodeId,
        fuel: u64,
    ) -> (r: Outcome)
        ensures
            (final(self)@, r) == solve_variant_spec(old(self)@, env, recv, variant, args, origin, fuel),
            r is Failed ==> old(self)@.diags.len() < final(self)@.diags.len(),
            crate::keeping::kept(old(self)@, final(self)@),
        decreases fuel,
    {
        if fuel == 0 {
            self.give_up();
            return Outcome::Deferred;
        }
        proof {
            reveal(crate::keeping::kept);
        }
        let base = self.shallow(recv, DEPTH_LIMIT);
        match &base {
            Ty::Var(_) => Outcome::Deferred,
            Ty::Error => Outcome::Solved,
            Ty::Nominal { .. } => {
                let payload = self.variant_payload(env, &base, variant, (fuel - 1) as u64);
                match payload {
                    Some(payload) => {
                        if all_unnamed(args) && list_len(&payload) != list_len(args) {
                            self.report(
                                env,
                                origin,
                                list7(
                                    Part::Text("variant `."),
                                    Part::Name(dup_sym(variant)),
                                    Part::Text("` takes "),
                                    Part::Num(list_len(&payload)),
                                    Part::Text(" value(s) but "),
                                    Part::Num(list_len(args)),
                                    Part::Text(" were supplied"),
                                ),
                            );
                        }
                        self.check_payload(env, args, 0, &payload, variant, origin, (fuel - 1) as u64);
                    },
                    None => {
                        self.report(
                            env,
                            origin,
                            list5(
                                Part::Text("`"),
                                Part::Ty(self.resolve(&base, DEPTH_LIMIT)),
                                Part::Text("` has no variant `."),
                                Part::Name(dup_sym(variant)),
                                Part::Text("`"),
                            ),
                        );
                    },
                }
                Outcome::Solved
            },
            _ => {
                self.report(
                    env,
                    origin,
                    say_ty(
                        "a variant literal needs an enum type, but this position wants `",
                        dup_ty(&base),
                        "`",
                    ),
                );
                Outcome::Solved
            },
        }
    }

    /// The element of a tuple a name spells the position of.
    pub fn tuple_elem_named(&self, ty: &Ty, name: &Symbol) -> (r: Option<Ty>)
        ensures
            r == tuple_elem_named_spec(self@, ty, name),
    {
        match (self.autoderef(ty, DEPTH_LIMIT), position_of(name)) {
            (Ty::Tuple(elems), Some(i)) => match nth(&elems, i) {
                Some(t) => Some(dup_ty(t)),
                None => None,
            },
            _ => None,
        }
    }

    /// A field read whose base was not known where it was written.
    pub fn solve_field(
        &mut self,
        env: &InferCx,
        recv: &Ty,
        name: &Symbol,
        out: &Ty,
        origin: NodeId,
        fuel: u64,
    ) -> (r: Outcome)
        ensures
            (final(self)@, r) == solve_field_spec(old(self)@, env, recv, name, out, origin, fuel),
            r is Failed ==> old(self)@.diags.len() < final(self)@.diags.len(),
            crate::keeping::kept(old(self)@, final(self)@),
        decreases fuel,
    {
        if fuel == 0 {
            self.give_up();
            return Outcome::Deferred;
        }
        proof {
            reveal(crate::keeping::kept);
        }
        let target = self.shallow(recv, DEPTH_LIMIT);
        if is_var(&target) {
            return Outcome::Deferred;
        }
        match self.tuple_elem_named(&target, name) {
            Some(t) => {
                self.expect(env, origin, &t, out, (fuel - 1) as u64);
                return Outcome::Solved;
            },
            None => {},
        }
        let found = self.field_ty_at(env, Some(origin), &target, name, (fuel - 1) as u64);
        match found {
            Some(t) => {
                self.expect(env, origin, &t, out, (fuel - 1) as u64);
            },
            None => {
                let _ = self.no_such_field(env, origin, &target, name);
            },
        }
        Outcome::Solved
    }

    /// Match a composite literal's body against the type it turned out to have.
    pub fn check_composite_body(&mut self, env: &InferCx, node: NodeId, target: &Ty, fuel: u64)
        ensures
            final(self)@ == check_composite_body_spec(old(self)@, env, node, target, fuel),
            crate::keeping::kept(old(self)@, final(self)@),
        decreases fuel,
    {
        if fuel == 0 {
            self.give_up();
            return;
        }
        if is_error(target) {
            return;
        }
        match kind_of(env.tables, self.file, node) {
            Some(NodeKind::CompositeLit { ty: _, body }) => match body {
                CompositeBody::Named { fields, spread } => {
                    self.check_record_body(env, node, target, fields, *spread, (fuel - 1) as u64);
                },
                CompositeBody::Positional(elems) => {
                    self.check_positional_body(env, node, target, elems, (fuel - 1) as u64);
                },
                CompositeBody::Repeat { value, count } => {
                    self.check_repeat_body(env, node, target, *value, *count, (fuel - 1) as u64);
                },
            },
            _ => {},
        }
    }

    /// `value ; count` against an array or a slice. The count is the array's length.
    pub fn check_repeat_body(
        &mut self,
        env: &InferCx,
        node: NodeId,
        target: &Ty,
        value: NodeId,
        count: NodeId,
        fuel: u64,
    )
        ensures
            final(self)@ == check_repeat_body_spec(old(self)@, env, node, target, value, count, fuel),
            crate::keeping::kept(old(self)@, final(self)@),
        decreases fuel,
    {
        if fuel == 0 {
            self.give_up();
            return;
        }
        match self.autoderef(target, DEPTH_LIMIT) {
            Ty::Array { len, mutable: _, inner } => {
                let vty = self.node_ty(env, value, (fuel - 1) as u64);
                self.expect(env, value, &vty, &inner, (fuel - 1) as u64);
                let k = self.const_len_in(env, self.file, count, (fuel - 1) as u64);
                if !const_is_error(&k) {
                    let same = self.unify_const(&len, &k);
                    if !same {
                        self.report(
                            env,
                            node,
                            list5(
                                Part::Text("this literal repeats "),
                                Part::Const(k),
                                Part::Text(" time(s) but the array is `["),
                                Part::Const(self.shallow_const(&len, DEPTH_LIMIT)),
                                Part::Text("]`"),
                            ),
                        );
                    }
                }
            },
            Ty::Slice { mutable: _, inner } => {
                let vty = self.node_ty(env, value, (fuel - 1) as u64);
                self.expect(env, value, &vty, &inner, (fuel - 1) as u64);
            },
            _ => {
                self.report(env, node, say("a `value ; count` literal builds an array"));
            },
        }
        let cty = self.node_ty(env, count, (fuel - 1) as u64);
        let want = self.usize_ty();
        self.expect(env, count, &cty, &want, (fuel - 1) as u64);
    }

    /// Hold each written field to the one it names, and give back the names that
    /// were seen. Where nothing is complained about, those are the names that were
    /// written, none of them twice.
    #[verifier::rlimit(30)]
    pub fn check_record_fields(
        &mut self,
        env: &InferCx,
        target: &Ty,
        owner: &Part,
        fields: &List<NodeId>,
        seen: List<Symbol>,
        fuel: u64,
    ) -> (r: List<Symbol>)
        ensures
            (final(self)@, r) == check_record_fields_spec(old(self)@, env, target, owner, fields, seen, fuel),
            fuel > 0
                && final(self)@.diags.len() == old(self)@.diags.len() ==> r@ == seen@ + written_fields_of(env.tables, old(self)@.file, fields)
                && (seen@.no_duplicates() ==> r@.no_duplicates()),
            crate::keeping::kept(old(self)@, final(self)@),
        decreases fuel, fields,
    {
        if fuel == 0 {
            self.give_up();
            return seen;
        }
        proof {
            reveal(crate::keeping::kept);
        }
        proof {
            field_names_line_up(env.tables, self@.file, *fields, seen);
        }
        match fields {
            List::Nil => seen,
            List::Cons(f, rest) => match kind_of(env.tables, self.file, *f) {
                Some(NodeKind::FieldInit { name, value }) => {
                    let found = self.field_ty_at(env, Some(*f), target, name, (fuel - 1) as u64);
                    match found {
                        Some(ft) => {
                            let vty = self.node_ty(env, *value, (fuel - 1) as u64);
                            self.expect(env, *value, &vty, &ft, (fuel - 1) as u64);
                            if sym_in(&seen, name) {
                                self.report(env, *f, say_name("field `", name, "` is given more than once"));
                                self.check_record_fields(env, target, owner, rest, seen, fuel)
                            } else {
                                self.check_record_fields(
                                    env,
                                    target,
                                    owner,
                                    rest,
                                    append(seen, single(dup_sym(name))),
                                    fuel,
                                )
                            }
                        },
                        None => {
                            self.report(
                                env,
                                *f,
                                list5(
                                    Part::Text("`"),
                                    dup_part(owner),
                                    Part::Text("` has no field `"),
                                    Part::Name(dup_sym(name)),
                                    Part::Text("`"),
                                ),
                            );
                            self.check_record_fields(env, target, owner, rest, seen, fuel)
                        },
                    }
                },
                _ => self.check_record_fields(env, target, owner, rest, seen, fuel),
            },
        }
    }

    /// Named fields against a struct, declared or anonymous: every name must be one
    /// of its fields, and every field must be given exactly once, unless a spread
    /// supplies the rest.
    #[verifier::rlimit(40)]
    pub fn check_record_body(
        &mut self,
        env: &InferCx,
        node: NodeId,
        target: &Ty,
        fields: &List<NodeId>,
        spread: Option<NodeId>,
        fuel: u64,
    )
        ensures
            final(self)@ == check_record_body_spec(old(self)@, env, node, target, fields, spread, fuel),
            fuel > 1
                && final(self)@.diags.len() == old(self)@.diags.len() ==> written_fields_of(env.tables, old(self)@.file, fields).no_duplicates(),
            fuel > 1 && final(self)@.diags.len() == old(self)@.diags.len() && spread is None ==> match record_target(old(self)@, target, crate::list::DEPTH_LIMIT) {
                Some(def) => crate::def::def_kind_spec(env.tables, def) == DefKind::Struct ==> all_given(
                    crate::lower::record_field_names_spec(env.tables, def),
                    written_fields_of(env.tables, old(self)@.file, fields),
                ),
                None => true,
            },
            crate::keeping::kept(old(self)@, final(self)@),
        decreases fuel,
    {
        if fuel == 0 {
            self.give_up();
            return;
        }
        proof {
            reveal(crate::keeping::kept);
        }
        let found = match self.autoderef(target, DEPTH_LIMIT) {
            Ty::Nominal { def, args: _ } => if def_kind(env.tables, def) == DefKind::Struct {
                Some((Part::Path(def), record_field_names(env.tables, def)))
            } else {
                None
            },
            Ty::Struct(fs) => Some((Part::Ty(self.resolve(target, DEPTH_LIMIT)), names_of(&fs))),
            _ => None,
        };
        match found {
            Some((owner, declared)) => {
                let seen = self.check_record_fields(
                    env,
                    target,
                    &owner,
                    fields,
                    List::Nil,
                    (fuel - 1) as u64,
                );
                proof {
                    assert(
                        List::<Symbol>::Nil@ + written_fields_of(
                            env.tables,
                            old(self)@.file,
                            fields,
                        ) =~= written_fields_of(env.tables, old(self)@.file, fields)
                    );
                }
                match spread {
                    Some(s) => {
                        let sty = self.node_ty(env, s, (fuel - 1) as u64);
                        let want = self.autoderef(target, DEPTH_LIMIT);
                        self.expect(env, s, &sty, &want, (fuel - 1) as u64);
                    },
                    None => {
                        let missing = names_missing(&declared, &seen);
                        proof {
                            if crate::list::is_empty_spec(&missing) { nothing_missing_is_all_given(declared, seen); }
                        }
                        if !is_empty(&missing) {
                            let plural: &'static str = if list_len(&missing) == 1 {
                                " "
                            } else {
                                "s "
                            };
                            self.report(
                                env,
                                node,
                                append(
                                    list2(Part::Text("missing field"), Part::Text(plural)),
                                    append(
                                        quoted_names(&missing),
                                        list3(Part::Text(" in `"), owner, Part::Text("`")),
                                    ),
                                ),
                            );
                        }
                    },
                }
            },
            None => {
                self.report(
                    env,
                    node,
                    say_ty(
                        "`",
                        self.resolve(target, DEPTH_LIMIT),
                        "` is not a struct, so it cannot be built from named fields",
                    ),
                );
            },
        }
    }

    /// How many members a positional literal must have, and their types: `None`
    /// where the target is built some other way.
    pub fn positional_members(
        &mut self,
        env: &InferCx,
        node: NodeId,
        target: &Ty,
        elems: &List<NodeId>,
        fuel: u64,
    ) -> (r: Option<(u64, List<Ty>)>)
        ensures
            (final(self)@, r) == positional_members_spec(old(self)@, env, node, target, elems, fuel),
            crate::keeping::kept(old(self)@, final(self)@),
        decreases fuel,
    {
        if fuel == 0 {
            self.give_up();
            return None;
        }
        match self.autoderef(target, DEPTH_LIMIT) {
            Ty::Array { len, mutable: _, inner } => {
                let k = self.shallow_const(&len, DEPTH_LIMIT);
                match const_value(&k) {
                    Some(n) => Some((n, repeated(&inner, elems))),
                    None => if const_is_error(&k) {
                        Some((list_len(elems), repeated(&inner, elems)))
                    } else {
                        let count = Const::Value(
                            Box::new(self.usize_ty()),
                            ConstValue::Int(int_of(list_len(elems))),
                        );
                        let same = self.unify_const(&k, &count);
                        if !same {
                            self.report(
                                env,
                                node,
                                list5(
                                    Part::Text("this literal has "),
                                    Part::Num(list_len(elems)),
                                    Part::Text(" element(s) but the array is `["),
                                    Part::Const(k),
                                    Part::Text("]`"),
                                ),
                            );
                        }
                        Some((list_len(elems), repeated(&inner, elems)))
                    },
                }
            },
            Ty::Slice { mutable: _, inner } => Some((list_len(elems), repeated(&inner, elems))),
            Ty::Tuple(ts) => Some((list_len(&ts), *ts)),
            Ty::Nominal { .. } => {
                let l = self.tuple_struct_tys(env, target, (fuel - 1) as u64);
                match l {
                    Some(l) => Some((list_len(&l), l)),
                    None => None,
                }
            },
            _ => None,
        }
    }

    /// Positional elements against an array or slice, a tuple, or a tuple struct.
    pub fn check_positional_body(
        &mut self,
        env: &InferCx,
        node: NodeId,
        target: &Ty,
        elems: &List<NodeId>,
        fuel: u64,
    )
        ensures
            final(self)@ == check_positional_body_spec(old(self)@, env, node, target, elems, fuel),
            crate::keeping::kept(old(self)@, final(self)@),
        decreases fuel,
    {
        if fuel == 0 {
            self.give_up();
            return;
        }
        let found = self.positional_members(env, node, target, elems, (fuel - 1) as u64);
        match found {
            Some((need, members)) => {
                if need != list_len(elems) {
                    self.report(
                        env,
                        node,
                        list6(
                            Part::Text("this literal has "),
                            Part::Num(list_len(elems)),
                            Part::Text(" element(s) but `"),
                            Part::Ty(self.resolve(target, DEPTH_LIMIT)),
                            Part::Text("` needs "),
                            Part::Num(need),
                        ),
                    );
                }
                self.expect_members(env, elems, &members, need, (fuel - 1) as u64);
            },
            None => {
                self.report(
                    env,
                    node,
                    say_ty(
                        "`",
                        self.resolve(target, DEPTH_LIMIT),
                        "` cannot be built from a positional literal",
                    ),
                );
            },
        }
    }

    /// Hold the first `need` elements to their members.
    pub fn expect_members(
        &mut self,
        env: &InferCx,
        elems: &List<NodeId>,
        members: &List<Ty>,
        need: u64,
        fuel: u64,
    )
        ensures
            final(self)@ == expect_members_spec(old(self)@, env, elems, members, need, fuel),
            crate::keeping::kept(old(self)@, final(self)@),
        decreases fuel, elems,
    {
        if fuel == 0 {
            self.give_up();
            return;
        }
        if need > 0 {
            match (elems, members) {
                (List::Cons(e, es), List::Cons(m, ms)) => {
                    let ety = self.node_ty(env, *e, (fuel - 1) as u64);
                    self.expect(env, *e, &ety, m, (fuel - 1) as u64);
                    self.expect_members(env, es, ms, (need - 1) as u64, fuel);
                },
                _ => {},
            }
        }
    }

    /// The type inferred for a node, inferring it now if nothing has.
    pub fn node_ty(&mut self, env: &InferCx, node: NodeId, fuel: u64) -> (r: Ty)
        ensures
            (final(self)@, r) == node_ty_spec(old(self)@, env, node, fuel),
            crate::keeping::kept(old(self)@, final(self)@),
        decreases fuel,
    {
        if fuel == 0 {
            self.give_up();
            return Ty::Error;
        }
        match self.get_type(node) {
            Some(t) => t,
            None => self.infer_expr(env, node, (fuel - 1) as u64),
        }
    }

    /// Weigh every written impl of a trait that fits. A concrete one beats a blanket
    /// one.
    pub fn consider_impls(
        &mut self,
        env: &InferCx,
        i: u64,
        s: &Ty,
        trait_def: DefId,
        args: &List<Ty>,
        best: Option<Best>,
        fuel: u64,
    ) -> (r: Option<Best>)
        ensures
            (final(self)@, r) == consider_impls_spec(old(self)@, env, i, s, trait_def, args, best, fuel),
            crate::keeping::kept(old(self)@, final(self)@),
        decreases fuel, u64::MAX - i,
    {
        if fuel == 0 {
            self.give_up();
            return best;
        }
        match get_impl(env, i) {
            Some(imp) => if imp.trait_def == Some(trait_def) {
                let fits = self.trial_impl(env, i, s, args, (fuel - 1) as u64);
                let score: u64 = if imp.self_is_generic {
                    1
                } else {
                    2
                };
                let next = if fits {
                    consider(best, score, Choice::User(i))
                } else {
                    best
                };
                self.consider_impls(env, succ(i), s, trait_def, args, next, fuel)
            } else {
                self.consider_impls(env, succ(i), s, trait_def, args, best, fuel)
            },
            None => best,
        }
    }

    /// Weigh the machine's own impl of a trait.
    pub fn consider_builtin(&self, env: &InferCx, s: &Ty, trait_def: DefId) -> (r: Option<Best>)
        ensures
            r == consider_builtin_spec(self@, env, s, trait_def),
    {
        match builtin_for_trait(env.tables, trait_def) {
            Some(op) => if self.builtin_matches(op, s) {
                Some(Best { score: 2, choice: Choice::Builtin(op), tied: false })
            } else {
                None
            },
            None => None,
        }
    }

    /// What a trait the compiler answers for itself says of a type: being callable
    /// is the proof of `Func`, a trait object implements its own trait, and every
    /// type but a trait object is `Sized`.
    pub fn select_special(
        &mut self,
        env: &InferCx,
        s: &Ty,
        trait_def: DefId,
        fuel: u64,
    ) -> (r: Option<Select>)
        ensures
            (final(self)@, r) == select_special_spec(old(self)@, env, s, trait_def, fuel),
            crate::keeping::kept(old(self)@, final(self)@),
        decreases fuel,
    {
        if fuel == 0 {
            self.give_up();
            return None;
        }
        if lang_def(env.tables, "func") == Some(trait_def) {
            let sig = self.func_value_sig(env, s, (fuel - 1) as u64);
            if sig.is_some() {
                return Some(Select::ByBound);
            }
        }
        if is_dyn_of(env.tables, s, trait_def) {
            return Some(Select::ByBound);
        }
        if lang_def(env.tables, "sized") == Some(trait_def) {
            return Some(match s {
            Ty::Var(_) => Select::Defer,
            Ty::Dyn { .. } => Select::NoImpl,
            _ => Select::ByBound,
        });
        }
        None
    }

    /// Pick the impl of a trait that applies to a type. The machine's own and the
    /// written ones are weighed alike. A `distinct` type falls back to the type it
    /// is distinct from only where nothing fits directly, and a type parameter to
    /// its own bound.
    pub fn select(
        &mut self,
        env: &InferCx,
        self_ty: &Ty,
        trait_def: DefId,
        args: &List<Ty>,
        fuel: u64,
    ) -> (r: Select)
        ensures
            (final(self)@, r) == select_spec(old(self)@, env, self_ty, trait_def, args, fuel),
            crate::keeping::kept(old(self)@, final(self)@),
        decreases fuel,
    {
        if fuel == 0 {
            self.give_up();
            return Select::NoImpl;
        }
        let s = self.shallow(self_ty, DEPTH_LIMIT);
        if is_error(&s) {
            return Select::Error;
        }
        let special = self.select_special(env, &s, trait_def, (fuel - 1) as u64);
        match special {
            Some(x) => {
                return x;
            },
            None => {},
        }
        let start = self.consider_builtin(env, &s, trait_def);
        let direct = self.consider_impls(env, 0, &s, trait_def, args, start, (fuel - 1) as u64);
        let best = if direct.is_none() && !is_var(&s) {
            let repr = self.distinct_repr(env, &s, (fuel - 1) as u64);
            match repr {
                Some(r) => {
                    let r = self.shallow(&r, DEPTH_LIMIT);
                    let start = self.consider_builtin(env, &r, trait_def);
                    self.consider_impls(env, 0, &r, trait_def, args, start, (fuel - 1) as u64)
                },
                None => None,
            }
        } else {
            direct
        };
        if best.is_none() && (self.param_has_bound(env, &s, trait_def) || is_nominal_of(&s, trait_def)) {
            Select::ByBound
        } else {
            verdict(best, is_var(&s))
        }
    }

    /// Unify an impl's trait arguments with what is asked for.
    pub fn unify_trait_args(&mut self, l: &List<Ty>, args: &List<Ty>, map: &Subst, fuel: u64) -> (r: bool)
        ensures
            (final(self)@, r) == unify_trait_args_spec(old(self)@, l, args, map, fuel),
            crate::keeping::kept(old(self)@, final(self)@),
        decreases fuel, l,
    {
        if fuel == 0 {
            self.give_up();
            return false;
        }
        match (l, args) {
            (List::Cons(t, ts), List::Cons(a, rest)) => {
                let c = self.unify(&subst_ty(t, map), a, (fuel - 1) as u64);
                if c.is_none() {
                    self.unify_trait_args(ts, rest, map, fuel)
                } else {
                    false
                }
            },
            _ => true,
        }
    }

    /// Whether a type may implement each of some traits.
    pub fn bounds_may_hold(&mut self, env: &InferCx, ty: &Ty, traits: &List<DefId>, fuel: u64) -> (r: bool)
        ensures
            (final(self)@, r) == bounds_may_hold_spec(old(self)@, env, ty, traits, fuel),
            crate::keeping::kept(old(self)@, final(self)@),
        decreases fuel, traits,
    {
        if fuel == 0 {
            self.give_up();
            return true;
        }
        match traits {
            List::Nil => true,
            List::Cons(t, rest) => {
                let s = self.select(env, ty, *t, &List::Nil, (fuel - 1) as u64);
                if may_hold(s) {
                    self.bounds_may_hold(env, ty, rest, fuel)
                } else {
                    false
                }
            },
        }
    }

    /// Whether what a trial bound an impl's parameters to meets their bounds. One
    /// still unsolved is no failure.
    pub fn impl_bounds_hold(
        &mut self,
        env: &InferCx,
        generics: &List<DefId>,
        map: &Subst,
        fuel: u64,
    ) -> (r: bool)
        ensures
            (final(self)@, r) == impl_bounds_hold_spec(old(self)@, env, generics, map, fuel),
            crate::keeping::kept(old(self)@, final(self)@),
        decreases fuel, generics,
    {
        if fuel == 0 {
            self.give_up();
            return true;
        }
        match generics {
            List::Nil => true,
            List::Cons(p, rest) => match bound_to(map, *p) {
                Some(t) => if is_var(&self.shallow(&t, DEPTH_LIMIT)) {
                    self.impl_bounds_hold(env, rest, map, fuel)
                } else {
                    let traits = self.param_bound_traits(env, *p);
                    let ok = self.bounds_may_hold(env, &t, &traits, (fuel - 1) as u64);
                    if ok {
                        self.impl_bounds_hold(env, rest, map, fuel)
                    } else {
                        false
                    }
                },
                None => self.impl_bounds_hold(env, rest, map, fuel),
            },
        }
    }

    /// Whether an impl fits, without binding anything: its self type, its trait
    /// arguments, and its own bounds.
    pub fn trial_impl(&mut self, env: &InferCx, i: u64, s: &Ty, args: &List<Ty>, fuel: u64) -> (r: bool)
        ensures
            (final(self)@, r) == trial_impl_spec(old(self)@, env, i, s, args, fuel),
            crate::unify::undone(old(self)@, final(self)@),
            crate::keeping::kept(old(self)@, final(self)@),
        decreases fuel,
    {
        if fuel == 0 {
            self.give_up();
            return false;
        }
        proof {
            reveal(crate::keeping::kept);
        }
        match get_impl(env, i) {
            Some(imp) => {
                let snap = self.snapshot();
                let map = self.fresh_impl_map(env, &imp.generics, no_subst());
                let impl_self = self.impl_self_ty(env, imp, &map, (fuel - 1) as u64);
                let ok = if is_error(&impl_self) {
                    false
                } else {
                    let c = self.unify(s, &impl_self, (fuel - 1) as u64);
                    c.is_none()
                };
                let trait_args = self.impl_trait_args(env, imp, (fuel - 1) as u64);
                let ok = if ok && !is_empty(&trait_args) && list_len(&trait_args) == list_len(args) {
                    self.unify_trait_args(&trait_args, args, &map, (fuel - 1) as u64)
                } else {
                    ok
                };
                let ok = if ok {
                    self.impl_bounds_hold(env, &imp.generics, &map, (fuel - 1) as u64)
                } else {
                    ok
                };
                self.rollback(snap);
                ok
            },
            None => false,
        }
    }

    /// Commit to an impl, binding its generics, with its own bounds registered
    /// against what they were bound to.
    pub fn commit_impl(
        &mut self,
        env: &InferCx,
        i: u64,
        self_ty: &Ty,
        args: &List<Ty>,
        origin: NodeId,
        fuel: u64,
    ) -> (r: Subst)
        ensures
            (final(self)@, r) == commit_impl_spec(old(self)@, env, i, self_ty, args, origin, fuel),
            crate::keeping::kept(old(self)@, final(self)@),
        decreases fuel,
    {
        if fuel == 0 {
            self.give_up();
            return no_subst();
        }
        match get_impl(env, i) {
            Some(imp) => {
                let map = self.fresh_impl_map(env, &imp.generics, no_subst());
                let impl_self = self.impl_self_ty(env, imp, &map, (fuel - 1) as u64);
                let _clash = self.unify(self_ty, &impl_self, (fuel - 1) as u64);
                let trait_args = self.impl_trait_args(env, imp, (fuel - 1) as u64);
                if !is_empty(&trait_args) && list_len(&trait_args) == list_len(args) {
                    self.unify_all_args(&trait_args, args, &map, (fuel - 1) as u64);
                }
                self.register_impl_bounds(env, origin, &imp.generics, map, (fuel - 1) as u64)
            },
            None => no_subst(),
        }
    }

    /// Unify every one of an impl's trait arguments, whether or not they agree.
    pub fn unify_all_args(&mut self, l: &List<Ty>, args: &List<Ty>, map: &Subst, fuel: u64)
        ensures
            final(self)@ == unify_all_args_spec(old(self)@, l, args, map, fuel),
            crate::keeping::kept(old(self)@, final(self)@),
        decreases fuel, l,
    {
        if fuel == 0 {
            self.give_up();
            return;
        }
        match (l, args) {
            (List::Cons(t, ts), List::Cons(a, rest)) => {
                let _clash = self.unify(&subst_ty(t, map), a, (fuel - 1) as u64);
                self.unify_all_args(ts, rest, map, fuel);
            },
            _ => {},
        }
    }

    /// Give each associated-type parameter a variable, and register the projection
    /// that solves it.
    pub fn open_projections(
        &mut self,
        env: &InferCx,
        l: &List<DefId>,
        origin: NodeId,
        map: Subst,
    ) -> (r: Subst)
        ensures
            (final(self)@, r) == open_projections_spec(old(self)@, env, l, origin, map),
            crate::keeping::kept(old(self)@, final(self)@),
        decreases l,
    {
        match l {
            List::Nil => map,
            List::Cons(d, rest) => {
                let out = self.fresh();
                let map = bind_ty(map, *d, dup_ty(&out));
                match projection_of(env.tables, *d) {
                    Some(p) => match bound_to(&map, p.base) {
                        Some(base) => {
                            self.register(
                                Obligation::Projection {
                                    self_ty: base,
                                    trait_def: p.trait_def,
                                    args: List::Nil,
                                    assoc: p.assoc,
                                    out: out,
                                    origin: origin,
                                    method: None,
                                },
                            );
                        },
                        None => {},
                    },
                    None => {},
                }
                self.open_projections(env, rest, origin, map)
            },
        }
    }

    /// Register an impl's bounds, first giving each of its associated-type
    /// parameters a variable and the projection that solves it.
    pub fn register_impl_bounds(
        &mut self,
        env: &InferCx,
        origin: NodeId,
        generics: &List<DefId>,
        map: Subst,
        fuel: u64,
    ) -> (r: Subst)
        ensures
            (final(self)@, r) == register_impl_bounds_spec(old(self)@, env, origin, generics, map, fuel),
            crate::keeping::kept(old(self)@, final(self)@),
        decreases fuel,
    {
        if fuel == 0 {
            self.give_up();
            return map;
        }
        let order = close_over_projections(env.tables, dup_defs(generics), 0, DEPTH_LIMIT);
        let map = self.open_projections(env, &skip_defs(&order, list_len(generics)), origin, map);
        self.register_bounds(env, origin, generics, &map, (fuel - 1) as u64);
        map
    }

    /// An impl's self type, with its generics replaced.
    pub fn impl_self_ty(&mut self, env: &InferCx, imp: &ImplInfo, map: &Subst, fuel: u64) -> (r: Ty)
        ensures
            (final(self)@, r) == impl_self_ty_spec(old(self)@, env, imp, map, fuel),
            crate::keeping::kept(old(self)@, final(self)@),
        decreases fuel,
    {
        if fuel == 0 {
            self.give_up();
            return Ty::Error;
        }
        let raw = match &imp.typed {
            Some(t) => dup_ty(&t.self_ty),
            None => match &imp.syntax {
                Some(sx) => self.ty_from_node_in(env, imp.file, sx.self_node, (fuel - 1) as u64),
                None => Ty::Error,
            },
        };
        subst_ty(&raw, map)
    }

    /// An impl's trait arguments, its generics still rigid.
    pub fn impl_trait_args(&mut self, env: &InferCx, imp: &ImplInfo, fuel: u64) -> (r: List<Ty>)
        ensures
            (final(self)@, r) == impl_trait_args_spec(old(self)@, env, imp, fuel),
            crate::keeping::kept(old(self)@, final(self)@),
        decreases fuel,
    {
        if fuel == 0 {
            self.give_up();
            return List::Nil;
        }
        match &imp.typed {
            Some(t) => dup_tys(&t.trait_args),
            None => match &imp.syntax {
                Some(sx) => self.tys_from_nodes(env, &sx.trait_args, imp.file, (fuel - 1) as u64),
                None => List::Nil,
            },
        }
    }

    /// What an impl binds an associated type to, its generics still rigid.
    pub fn impl_assoc(&mut self, env: &InferCx, imp: &ImplInfo, name: &Symbol, fuel: u64) -> (r: Option<Ty>)
        ensures
            (final(self)@, r) == impl_assoc_spec(old(self)@, env, imp, name, fuel),
            crate::keeping::kept(old(self)@, final(self)@),
        decreases fuel,
    {
        if fuel == 0 {
            self.give_up();
            return None;
        }
        match &imp.typed {
            Some(t) => match find_named(&t.assoc, name) {
                Some(ty) => Some(dup_ty(ty)),
                None => None,
            },
            None => match &imp.syntax {
                Some(sx) => match find_assoc_node(&sx.assoc, name) {
                    Some(n) => {
                        let ty = self.ty_from_node_in(env, imp.file, n, (fuel - 1) as u64);
                        Some(ty)
                    },
                    None => None,
                },
                None => None,
            },
        }
    }

    /// A new variable for each of an impl's generics.
    pub fn fresh_impl_map(&mut self, env: &InferCx, generics: &List<DefId>, map: Subst) -> (r: Subst)
        ensures
            (final(self)@, r) == fresh_impl_map_spec(old(self)@, env, generics, map),
            crate::keeping::kept(old(self)@, final(self)@),
        decreases generics,
    {
        match generics {
            List::Nil => map,
            List::Cons(g, rest) => if def_kind(env.tables, *g) == DefKind::ConstParam {
                let k = self.fresh_const();
                self.fresh_impl_map(env, rest, bind_const(map, *g, k))
            } else {
                let t = self.fresh();
                self.fresh_impl_map(env, rest, bind_ty(map, *g, t))
            },
        }
    }

    /// Hold each argument to the parameter at its position, complaining at one node.
    pub fn expect_args_at(
        &mut self,
        env: &InferCx,
        origin: NodeId,
        params: &List<Ty>,
        args: &List<Ty>,
        fuel: u64,
    )
        ensures
            final(self)@ == expect_args_at_spec(old(self)@, env, origin, params, args, fuel),
            crate::keeping::kept(old(self)@, final(self)@),
        decreases fuel, params,
    {
        if fuel == 0 {
            self.give_up();
            return;
        }
        match (params, args) {
            (List::Cons(p, ps), List::Cons(a, rest)) => {
                self.expect(env, origin, a, p, (fuel - 1) as u64);
                self.expect_args_at(env, origin, ps, rest, fuel);
            },
            _ => {},
        }
    }

    /// Unify an operator's operands with the parameters of the method the selected
    /// impl supplies.
    pub fn check_op_operands(
        &mut self,
        env: &InferCx,
        i: u64,
        name: &Symbol,
        self_ty: &Ty,
        args: &List<Ty>,
        map: &Subst,
        origin: NodeId,
        fuel: u64,
    )
        ensures
            final(self)@ == check_op_operands_spec(
                old(self)@,
                env,
                i,
                name,
                self_ty,
                args,
                map,
                origin,
                fuel,
            ),
            crate::keeping::kept(old(self)@, final(self)@),
        decreases fuel,
    {
        if fuel == 0 {
            self.give_up();
            return;
        }
        match impl_member(env, i, name) {
            Some(m) => {
                let sig = self.func_def_ty(env, m, (fuel - 1) as u64);
                match self.shallow(&subst_ty(&sig, map), DEPTH_LIMIT) {
                    Ty::Func { params, ret: _, c: _ } => match &*params {
                        List::Cons(p, rest) => {
                            self.unify_self_param(p, self_ty);
                            self.expect_args_at(env, origin, rest, args, (fuel - 1) as u64);
                        },
                        List::Nil => {},
                    },
                    _ => {},
                }
            },
            None => {},
        }
    }

    /// The associated type an impl binds, with its generics replaced.
    pub fn user_assoc(
        &mut self,
        env: &InferCx,
        i: u64,
        origin: NodeId,
        assoc: &Symbol,
        map: &Subst,
        fuel: u64,
    ) -> (r: Ty)
        ensures
            (final(self)@, r) == user_assoc_spec(old(self)@, env, i, origin, assoc, map, fuel),
            crate::keeping::kept(old(self)@, final(self)@),
        decreases fuel,
    {
        if fuel == 0 {
            self.give_up();
            return Ty::Error;
        }
        match get_impl(env, i) {
            Some(imp) => {
                let t = self.impl_assoc(env, imp, assoc, (fuel - 1) as u64);
                match t {
                    Some(t) => subst_ty(&t, map),
                    None => {
                        self.report(
                            env,
                            origin,
                            say_name("impl does not define associated type `", assoc, "`"),
                        );
                        Ty::Error
                    },
                }
            },
            None => Ty::Error,
        }
    }

    /// Record how an operator resolved.
    pub fn stamp_op(&mut self, env: &InferCx, origin: NodeId, choice: Choice, trait_def: DefId, name: &Symbol)
        ensures
            final(self)@ == stamp_op_spec(old(self)@, env, origin, choice, trait_def, name),
            crate::keeping::kept(old(self)@, final(self)@),
    {
        let (method, builtin) = match choice {
            Choice::Builtin(op) => (member_of(env.tables, trait_def, &builtin_method(op)), Some(op)),
            Choice::User(i) => (impl_member(env, i, name), None),
        };
        match method {
            Some(m) => {
                self.set_op_resolution(
                    self.file,
                    origin,
                    OpResolution { method: m, trait_def: trait_def, builtin: builtin },
                );
            },
            None => {},
        }
    }

    /// Register what each pinned associated type must be.
    pub fn register_pins(
        &mut self,
        env: &InferCx,
        l: &List<(Symbol, DefId)>,
        at: NodeId,
        self_ty: &Ty,
        trait_def: DefId,
        args: &List<Ty>,
        map: &Subst,
        fuel: u64,
    )
        ensures
            final(self)@ == register_pins_spec(old(self)@, env, l, at, self_ty, trait_def, args, map, fuel),
            crate::keeping::kept(old(self)@, final(self)@),
        decreases fuel, l,
    {
        if fuel == 0 {
            self.give_up();
            return;
        }
        match l {
            List::Nil => {},
            List::Cons(h, rest) => {
                let out = self.param_ty(env, h.1, (fuel - 1) as u64);
                self.register(
                    Obligation::Projection {
                        self_ty: dup_ty(self_ty),
                        trait_def: trait_def,
                        args: dup_tys(args),
                        assoc: dup_sym(&h.0),
                        out: subst_ty(&out, map),
                        origin: at,
                        method: None,
                    },
                );
                self.register_pins(env, rest, at, self_ty, trait_def, args, map, fuel);
            },
        }
    }

    /// Register each of a parameter's bounds.
    pub fn register_traits(
        &mut self,
        env: &InferCx,
        l: &List<DefId>,
        at: NodeId,
        p: DefId,
        self_ty: &Ty,
        map: &Subst,
        fuel: u64,
    )
        ensures
            final(self)@ == register_traits_spec(old(self)@, env, l, at, p, self_ty, map, fuel),
            crate::keeping::kept(old(self)@, final(self)@),
        decreases fuel, l,
    {
        if fuel == 0 {
            self.give_up();
            return;
        }
        match l {
            List::Nil => {},
            List::Cons(t, rest) => {
                let written = self.bound_args(env, p, *t, (fuel - 1) as u64);
                let args = subst_tys(&written, map);
                self.register(
                    Obligation::Trait {
                        self_ty: dup_ty(self_ty),
                        trait_def: *t,
                        args: dup_tys(&args),
                        origin: at,
                        stamp: None,
                    },
                );
                match get_def(env.tables, p) {
                    Some(d) => {
                        let pinned = pinned_members(env.tables, &d.members, *t);
                        self.register_pins(env, &pinned, at, self_ty, *t, &args, map, (fuel - 1) as u64);
                    },
                    None => {},
                }
                self.register_traits(env, rest, at, p, self_ty, map, fuel);
            },
        }
    }

    /// What a use owes its callee's bounds: that each parameter's argument implements
    /// every trait bounding it, with the arguments the bound wrote and the associated
    /// types it pinned.
    pub fn register_bounds(&mut self, env: &InferCx, at: NodeId, params: &List<DefId>, map: &Subst, fuel: u64)
        ensures
            final(self)@ == register_bounds_spec(old(self)@, env, at, params, map, fuel),
            crate::keeping::kept(old(self)@, final(self)@),
        decreases fuel, params,
    {
        if fuel == 0 {
            self.give_up();
            return;
        }
        match params {
            List::Nil => {},
            List::Cons(p, rest) => {
                if def_kind(env.tables, *p) == DefKind::TypeParam {
                    match bound_to(map, *p) {
                        Some(self_ty) => {
                            let traits = self.param_bound_traits(env, *p);
                            self.register_traits(env, &traits, at, *p, &self_ty, map, (fuel - 1) as u64);
                        },
                        None => {},
                    }
                }
                self.register_bounds(env, at, rest, map, fuel);
            },
        }
    }

    /// Discharge an obligation on `Func`: a function pointer and a closure implement
    /// it by being what they are. `None` for any other trait, and for a type this
    /// does not answer for.
    pub fn try_solve_func(&mut self, env: &InferCx, ob: &Obligation, fuel: u64) -> (r: Option<Outcome>)
        ensures
            (final(self)@, r) == try_solve_func_spec(old(self)@, env, ob, fuel),
            crate::keeping::kept(old(self)@, final(self)@),
        decreases fuel,
    {
        if fuel == 0 {
            self.give_up();
            return None;
        }
        match trait_parts(ob) {
            Some((self_ty, trait_def, origin)) => {
                if lang_def(env.tables, "func") != Some(trait_def) {
                    return None;
                }
                let s = self.shallow(&self_ty, DEPTH_LIMIT);
                if is_var(&s) {
                    return Some(Outcome::Deferred);
                }
                if is_error(&s) {
                    match ob {
                        Obligation::Projection {
                            self_ty: _,
                            trait_def: _,
                            args: _,
                            assoc: _,
                            out,
                            origin: _,
                            method: _,
                        } => {
                            let _clash = self.unify(out, &Ty::Error, (fuel - 1) as u64);
                        },
                        _ => {},
                    }
                    return Some(Outcome::Solved);
                }
                let sig = self.func_value_sig(env, &s, (fuel - 1) as u64);
                match sig {
                    Some((params, ret)) => {
                        match ob {
                            Obligation::Projection {
                                self_ty: _,
                                trait_def: _,
                                args: _,
                                assoc,
                                out,
                                origin: _,
                                method: _,
                            } => {
                                let have = if sym_is(assoc, "Args") {
                                    args_tuple(&params)
                                } else {
                                    ret
                                };
                                self.expect(env, origin, &have, out, (fuel - 1) as u64);
                            },
                            _ => {},
                        }
                        Some(Outcome::Solved)
                    },
                    _ => {
                        None
                    },
                }
            },
            _ => {
                None
            },
        }
    }

    /// What a value of a type takes and answers when it is called, if it can be.
    pub fn func_value_sig(&mut self, env: &InferCx, ty: &Ty, fuel: u64) -> (r: Option<(List<Ty>, Ty)>)
        ensures
            (final(self)@, r) == func_value_sig_spec(old(self)@, env, ty, fuel),
            crate::keeping::kept(old(self)@, final(self)@),
        decreases fuel,
    {
        if fuel == 0 {
            self.give_up();
            return None;
        }
        match self.shallow(ty, DEPTH_LIMIT) {
            Ty::Func { params, ret, c: _ } => Some((*params, *ret)),
            Ty::Ptr { mutable: _, inner } => func_object_sig(env.tables, &inner),
            Ty::Nominal { def, args } => match def_kind(env.tables, def) {
                DefKind::Closure => self.closure_value_sig(env, def, &args),
                DefKind::TypeParam => self.param_value_sig(env, def, &args, (fuel - 1) as u64),
                _ => None,
            },
            _ => None,
        }
    }

    /// The call a closure takes.
    pub fn closure_value_sig(&self, env: &InferCx, def: DefId, args: &List<Ty>) -> (r: Option<(List<Ty>, Ty)>)
        ensures
            r == closure_value_sig_spec(self@, env, def, args),
    {
        match def_place(env.tables, def) {
            Some((file, node)) => match self.get_closure_sig(file, node) {
                Some(sig) => {
                    let map = of_types(zip_subst(&sig.generics, args));
                    Some((subst_tys(&sig.params, &map), subst_ty(&sig.ret, &map)))
                },
                None => None,
            },
            None => None,
        }
    }

    /// The call a type parameter bounded by `Func` takes.
    pub fn param_value_sig(
        &mut self,
        env: &InferCx,
        def: DefId,
        args: &List<Ty>,
        fuel: u64,
    ) -> (r: Option<(List<Ty>, Ty)>)
        ensures
            (final(self)@, r) == param_value_sig_spec(old(self)@, env, def, args, fuel),
            crate::keeping::kept(old(self)@, final(self)@),
        decreases fuel,
    {
        if fuel == 0 {
            self.give_up();
            return None;
        }
        match lang_def(env.tables, "func") {
            Some(func) => {
                if !def_in(&self.param_bound_traits(env, def), func) {
                    return None;
                }
                let params = match member_of(env.tables, def, &sym("Args")) {
                    Some(synth) => {
                        let t = self.param_ty(env, synth, (fuel - 1) as u64);
                        tuple_elems(&t)
                    },
                    None => List::Nil,
                };
                let ret = match member_of(env.tables, def, &sym("Output")) {
                    Some(synth) => self.param_ty(env, synth, (fuel - 1) as u64),
                    None => Ty::Void,
                };
                let map = of_types(zip_subst(&self.opaque_params(env, def), args));
                Some((subst_tys(&params, &map), subst_ty(&ret, &map)))
            },
            _ => {
                None
            },
        }
    }

    /// Report an obligation that stayed stuck. One whose self type is still unknown
    /// surfaces elsewhere, and what it projects is pinned so that it does not
    /// cascade.
    pub fn report_unsolved(&mut self, env: &InferCx, ob: &Obligation, fuel: u64)
        ensures
            final(self)@ == report_unsolved_spec(old(self)@, env, ob, fuel),
            crate::keeping::kept(old(self)@, final(self)@),
        decreases fuel,
    {
        if fuel == 0 {
            self.give_up();
            return;
        }
        match ob {
            Obligation::Trait { self_ty, trait_def, args, origin, stamp: _ } => {
                if !is_var(&self.shallow(self_ty, DEPTH_LIMIT)) {
                    self.report_no_impl(env, *origin, self_ty, *trait_def, args);
                }
            },
            Obligation::Projection { self_ty, trait_def, args, assoc: _, out, origin, method: _ } => {
                if !is_var(&self.shallow(self_ty, DEPTH_LIMIT)) {
                    self.report_no_impl(env, *origin, self_ty, *trait_def, args);
                }
                let _clash = self.unify(out, &Ty::Error, (fuel - 1) as u64);
            },
            _ => {},
        }
    }

    /// The same for each of a list.
    pub fn report_each_unsolved(&mut self, env: &InferCx, l: &List<Obligation>, fuel: u64)
        ensures
            final(self)@ == report_each_unsolved_spec(old(self)@, env, l, fuel),
            crate::keeping::kept(old(self)@, final(self)@),
        decreases fuel, l,
    {
        if fuel == 0 {
            self.give_up();
            return;
        }
        match l {
            List::Nil => {},
            List::Cons(ob, rest) => {
                self.report_unsolved(env, ob, (fuel - 1) as u64);
                self.report_each_unsolved(env, rest, fuel);
            },
        }
    }

    /// Types with commas between them.
    pub fn listed_types(&self, l: &List<Ty>) -> (r: List<Part>)
        ensures
            r == listed_types_spec(self@, l),
        decreases l,
    {
        match l {
            List::Nil => List::Nil,
            List::Cons(h, t) => if is_empty(t) {
                single(Part::Ty(self.resolve(h, DEPTH_LIMIT)))
            } else {
                List::Cons(
                    Part::Ty(self.resolve(h, DEPTH_LIMIT)),
                    Box::new(List::Cons(Part::Text(", "), Box::new(self.listed_types(t)))),
                )
            },
        }
    }

    /// A trait with its arguments, as a use writes it.
    pub fn trait_parts_of(&self, trait_def: DefId, args: &List<Ty>) -> (r: List<Part>)
        ensures
            r == trait_parts_of_spec(self@, trait_def, args),
    {
        if is_empty(args) {
            single(Part::Path(trait_def))
        } else {
            append(
                list2(Part::Path(trait_def), Part::Text(".<")),
                append(self.listed_types(args), single(Part::Text(">"))),
            )
        }
    }

    /// Complain that a type does not implement a trait.
    pub fn report_no_impl(
        &mut self,
        env: &InferCx,
        node: NodeId,
        self_ty: &Ty,
        trait_def: DefId,
        args: &List<Ty>,
    )
        ensures
            final(self)@ == report_no_impl_spec(old(self)@, env, node, self_ty, trait_def, args),
            crate::keeping::kept(old(self)@, final(self)@),
    {
        let msg = append(
            list3(
                Part::Text("`"),
                Part::Ty(self.resolve(self_ty, DEPTH_LIMIT)),
                Part::Text("` does not implement `"),
            ),
            append(self.trait_parts_of(trait_def, args), single(Part::Text("`"))),
        );
        self.report(env, node, msg);
    }

    /// Complain that several impls apply.
    pub fn report_ambiguous(
        &mut self,
        env: &InferCx,
        node: NodeId,
        self_ty: &Ty,
        trait_def: DefId,
        args: &List<Ty>,
    )
        ensures
            final(self)@ == report_ambiguous_spec(old(self)@, env, node, self_ty, trait_def, args),
            crate::keeping::kept(old(self)@, final(self)@),
    {
        let msg = append(
            single(Part::Text("multiple applicable impls of `")),
            append(
                self.trait_parts_of(trait_def, args),
                list3(Part::Text("` for `"), Part::Ty(self.resolve(self_ty, DEPTH_LIMIT)), Part::Text("`")),
            ),
        );
        self.report(env, node, msg);
    }
}

} // verus!
