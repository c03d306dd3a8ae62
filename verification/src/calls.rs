//! Calls: which function is meant, how its parameters are instantiated, and how
//! the arguments bind to them.

use vstd::prelude::*;

use crate::ast::{dup_nodes, NodeKind};
use crate::bigint::{int_le, int_neg, int_of};
use crate::coerce::{is_found, using_field_of};
use crate::decls::{param_defaults, param_names, trait_default_method};
use crate::def::{
    def_in, def_kind, def_name, def_parent, dup_defs, find_member, get_def, intrinsic_of, kind_of, member_of,
    resolve_alias, DefKind, ImplInfo, Tables,
};
use crate::diag::{quoted_names, say, say_name, say_ty, Part};
use crate::exprs::{
    consider_member, generic_args, impl_reachable, impl_score, is_c_variadic, type_param_of, BestMember,
};
use crate::facts::{
    dup_slots, dup_upcast, ArgOrder, Coercion, DistinctRecv, FuncCall, Instantiation, MethodDispatch,
    MethodRes, RecvAdjust, Resolution, Upcast,
};
use crate::ids::{DefId, FileId, NodeId};
use crate::intrinsics::{special_rule, Special};
use crate::list::{
    append, is_empty, list3, list4, list5, list7, list_len, nth, single, succ, DEPTH_LIMIT, List,
};
use crate::lower::{merge_defs, sized_self, written_slots};
use crate::solve::{close_over_projections, get_impl, projection_of};
use crate::subst::{
    bind_const, bind_ty, bound_to, dup_opt_sym, dup_subst, find_const, find_ty, has_len, is_error, is_var,
    no_subst, of_types, rebind_ty, sort_by_name, subst_ty, Subst,
};
use crate::symbol::{dup_sym, sym_eq, sym_in, Symbol};
use crate::ty::{const_value, dup_ty, dup_tys, int_ty, nominal, tys_eq, Const, FloatWidth, Ty};
use crate::types::plain_args;
use crate::unify::{InferCx, Inferer, InfererV, Obligation, TyVarKind};

verus! {

broadcast use {
    crate::keeping::kept_by_both,
    crate::keeping::kept_by_nothing,
    crate::keeping::loops_stand_on,
    crate::keeping::loops_stand_still,
};

/// What binding a call's arguments to its parameters produced.
pub enum ArgBinding {
    /// A purely positional call: the arguments exactly as written.
    AsWritten,
    /// Bound, in parameter order, with a hole for each defaulted parameter the
    /// call left out.
    Bound(List<Option<NodeId>>),
    /// Did not bind, which has been reported.
    Failed,
}

/// A static trait call's `Self`, opened up before its instantiation.
pub struct OpenedSelf {
    pub trait_def: DefId,
    pub self_ty: Ty,
    /// A variable per associated type, by name.
    pub assocs: List<(Symbol, Ty)>,
    /// `Self` and each associated type to its variable.
    pub subst: Subst,
}

// Calls.

/// [`peel_generics`], as a mathematical function.
pub open spec fn peel_generics_spec(t: &Tables, file: FileId, callee: NodeId) -> (NodeId, List<NodeId>) {
    match crate::def::kind_of_spec(t, file, callee) {
        Some(NodeKind::GenericApply { base, args }) => (*base, (*args)),
        _ => (callee, List::Nil),
    }
}

/// The callee a call's explicit generic arguments are applied to, and those
/// arguments.
pub fn peel_generics(t: &Tables, file: FileId, callee: NodeId) -> (r: (NodeId, List<NodeId>))
    ensures
        r == peel_generics_spec(t, file, callee),
{
    match kind_of(t, file, callee) {
        Some(NodeKind::GenericApply { base, args }) => (*base, dup_nodes(args)),
        _ => (callee, List::Nil),
    }
}

/// [`Inferer::infer_call`], as a mathematical function.
pub open spec fn infer_call_spec(
    st: InfererV,
    env: &InferCx,
    callee: NodeId,
    args: &List<NodeId>,
    fuel: u64,
) -> (InfererV, Ty)
    decreases fuel,
{
    if fuel == 0 {
        (crate::unify::give_up_spec(st), Ty::Error)
    } else {
        let (callee, targs) = peel_generics_spec(env.tables, st.file, callee);
        match callee_type_def_spec(st, env, callee) {
            Some(def) => {
                let (st, nominal_ty) = crate::types::nominal_of_spec(st, env, def);
                let st = check_construction_spec(st, env, callee, &nominal_ty, args, (fuel - 1) as u64);
                let st = crate::unify::set_type_spec(st, callee, nominal_ty);
                (st, nominal_ty)
            },
            None => {
                match crate::def::kind_of_spec(env.tables, st.file, callee) {
                    Some(NodeKind::FieldAccess { base, name }) => {
                        if crate::decls::failed_resolution_spec(st, callee) {
                            let st = crate::exprs::infer_exprs_spec(st, env, args, (fuel - 1) as u64).0;
                            (st, Ty::Error)
                        } else {
                            if crate::decls::resolved_def_spec(st, env, callee).is_none() {
                                let (st, done) = infer_member_call_spec(
                                    st,
                                    env,
                                    callee,
                                    *base,
                                    name,
                                    args,
                                    &targs,
                                    (fuel - 1) as u64,
                                );
                                match done {
                                    Some(t) => (st, t),
                                    None => infer_value_call_spec(st, env, callee, args, (fuel - 1) as u64),
                                }
                            } else {
                                infer_named_call_spec(st, env, callee, args, &targs, (fuel - 1) as u64)
                            }
                        }
                    },
                    _ => {
                        infer_named_call_spec(st, env, callee, args, &targs, (fuel - 1) as u64)
                    },
                }
            },
        }
    }
}

/// [`Inferer::infer_value_call`], as a mathematical function.
pub open spec fn infer_value_call_spec(
    st: InfererV,
    env: &InferCx,
    callee: NodeId,
    args: &List<NodeId>,
    fuel: u64,
) -> (InfererV, Ty)
    decreases fuel,
{
    if fuel == 0 {
        (crate::unify::give_up_spec(st), Ty::Error)
    } else {
        let (st, cty) = crate::exprs::infer_expr_spec(st, env, callee, (fuel - 1) as u64);
        let (st, cty) = crate::solve::settle_spec(st, env, &cty, (fuel - 1) as u64);
        let st = reject_named_args_spec(
            st,
            env,
            args,
            "this call goes through a function value, which has parameter types but no parameter names",
        );
        apply_call_with_spec(
            st,
            env,
            callee,
            &cty,
            &crate::lower::written_slots_spec(args),
            false,
            (fuel - 1) as u64,
        )
    }
}

/// [`Inferer::infer_named_call`], as a mathematical function.
pub open spec fn infer_named_call_spec(
    st: InfererV,
    env: &InferCx,
    callee: NodeId,
    args: &List<NodeId>,
    targs: &List<NodeId>,
    fuel: u64,
) -> (InfererV, Ty)
    decreases fuel,
{
    if fuel == 0 {
        (crate::unify::give_up_spec(st), Ty::Error)
    } else {
        match crate::decls::resolved_def_spec(st, env, callee) {
            Some(named) => {
                let (st, chosen) = if crate::def::def_kind_spec(env.tables, named) == DefKind::Overload {
                    select_overload_spec(st, env, callee, named, args, (fuel - 1) as u64)
                } else {
                    (st, Some(named))
                };
                match chosen {
                    Some(def) => if crate::def::def_kind_spec(env.tables, def) == DefKind::Func {
                        infer_func_call_spec(st, env, callee, def, args, targs, (fuel - 1) as u64)
                    } else {
                        infer_value_call_spec(st, env, callee, args, (fuel - 1) as u64)
                    },
                    None => {
                        let st = crate::exprs::infer_exprs_spec(st, env, args, (fuel - 1) as u64).0;
                        (st, Ty::Error)
                    },
                }
            },
            None => infer_value_call_spec(st, env, callee, args, (fuel - 1) as u64),
        }
    }
}

/// [`ret_of`], as a mathematical function.
pub open spec fn ret_of_spec(ty: Ty) -> Ty {
    match ty {
        Ty::Func { params: _, ret, c: _ } => *ret,
        _ => Ty::Error,
    }
}

/// What a signature answers.
pub fn ret_of(ty: Ty) -> (r: Ty)
    ensures
        r == ret_of_spec(ty),
{
    match ty {
        Ty::Func { params: _, ret, c: _ } => *ret,
        _ => Ty::Error,
    }
}

/// [`Inferer::infer_func_call`], as a mathematical function.
pub open spec fn infer_func_call_spec(
    st: InfererV,
    env: &InferCx,
    callee: NodeId,
    def: DefId,
    args: &List<NodeId>,
    targs: &List<NodeId>,
    fuel: u64,
) -> (InfererV, Ty)
    decreases fuel,
{
    if fuel == 0 {
        (crate::unify::give_up_spec(st), Ty::Error)
    } else {
        let (st, sig) = crate::types::func_def_ty_spec(st, env, def, (fuel - 1) as u64);
        let (st, opened) = open_trait_self_spec(st, env, def);
        let seed = match &opened {
            Some(o) => o.subst,
            None => crate::subst::no_subst_spec(),
        };
        let (st, (inst, map)) = instantiate_parts_spec(
            st,
            env,
            callee,
            &sig,
            def,
            targs,
            seed,
            (fuel - 1) as u64,
        );
        let st = match opened {
            Some(o) => {
                let st = settle_trait_self_spec(st, env, callee, def, o, &map);
                st
            },
            None => {
                st
            },
        };
        let st = crate::unify::set_type_spec(st, callee, inst);
        let (st, binding) = bind_args_spec(st, env, callee, def, args);
        match binding {
            ArgBinding::Failed => {
                let st = crate::exprs::infer_exprs_spec(st, env, args, (fuel - 1) as u64).0;
                (st, ret_of_spec(crate::unify::shallow_spec(st, &inst, DEPTH_LIMIT)))
            },
            ArgBinding::AsWritten => finish_func_call_spec(
                st,
                env,
                callee,
                def,
                &inst,
                crate::lower::written_slots_spec(args),
                (fuel - 1) as u64,
            ),
            ArgBinding::Bound(slots) => finish_func_call_spec(
                st,
                env,
                callee,
                def,
                &inst,
                slots,
                (fuel - 1) as u64,
            ),
        }
    }
}

/// [`Inferer::finish_func_call`], as a mathematical function.
pub open spec fn finish_func_call_spec(
    st: InfererV,
    env: &InferCx,
    callee: NodeId,
    def: DefId,
    inst: &Ty,
    slots: List<Option<NodeId>>,
    fuel: u64,
) -> (InfererV, Ty)
    decreases fuel,
{
    if fuel == 0 {
        (crate::unify::give_up_spec(st), Ty::Error)
    } else {
        let (st, result) = apply_call_with_spec(
            st,
            env,
            callee,
            inst,
            &slots,
            crate::exprs::is_c_variadic_spec(env.tables, def),
            (fuel - 1) as u64,
        );
        intrinsic_result_spec(st, env, def, result, &slots, (fuel - 1) as u64)
    }
}

/// [`Inferer::infer_member_call`], as a mathematical function.
pub open spec fn infer_member_call_spec(
    st: InfererV,
    env: &InferCx,
    callee: NodeId,
    base: NodeId,
    name: &Symbol,
    args: &List<NodeId>,
    targs: &List<NodeId>,
    fuel: u64,
) -> (InfererV, Option<Ty>)
    decreases fuel,
{
    if fuel == 0 {
        (crate::unify::give_up_spec(st), None)
    } else {
        let (st, recv) = crate::exprs::infer_expr_spec(st, env, base, (fuel - 1) as u64);
        let (st, recv) = crate::unify::pin_str_spec(st, &recv);
        let (st, recv) = crate::solve::settle_spec(st, env, &recv, (fuel - 1) as u64);
        let settled_lit = crate::unify::var_kind_spec(st, &recv);
        let (st, recv) = crate::unify::pin_numeric_spec(st, &recv);
        match method_def_spec(st, env, &recv, name) {
            Some(m) => {
                let (st, t) = infer_method_call_spec(
                    st,
                    env,
                    callee,
                    &recv,
                    m,
                    MethodDispatch::Static,
                    args,
                    targs,
                    (fuel - 1) as u64,
                );
                (st, Some(t))
            },
            None => {
                let (st, bound) = bound_method_def_spec(st, env, &recv, name, (fuel - 1) as u64);
                match bound {
                    Some((m, bound_args)) => {
                        let d = bound_dispatch_spec(env.tables, m, bound_args);
                        let (st, t) = infer_method_call_spec(
                            st,
                            env,
                            callee,
                            &recv,
                            m,
                            d,
                            args,
                            targs,
                            (fuel - 1) as u64,
                        );
                        (st, Some(t))
                    },
                    None => {
                        match dyn_method_def_spec(st, env, &recv, name) {
                            Some(m) => {
                                let (st, t) = infer_dyn_call_spec(
                                    st,
                                    env,
                                    callee,
                                    &recv,
                                    m,
                                    name,
                                    args,
                                    targs,
                                    (fuel - 1) as u64,
                                );
                                (st, Some(t))
                            },
                            None => {
                                infer_supplied_call_spec(
                                    st,
                                    env,
                                    callee,
                                    base,
                                    recv,
                                    name,
                                    args,
                                    targs,
                                    settled_lit,
                                    (fuel - 1) as u64,
                                )
                            },
                        }
                    },
                }
            },
        }
    }
}

/// [`Inferer::infer_supplied_call`], as a mathematical function.
pub open spec fn infer_supplied_call_spec(
    st: InfererV,
    env: &InferCx,
    callee: NodeId,
    base: NodeId,
    recv: Ty,
    name: &Symbol,
    args: &List<NodeId>,
    targs: &List<NodeId>,
    settled_lit: Option<TyVarKind>,
    fuel: u64,
) -> (InfererV, Option<Ty>)
    decreases fuel,
{
    if fuel == 0 {
        (crate::unify::give_up_spec(st), None)
    } else {
        let (st, written) = impl_method_def_spec(st, env, &recv, name, (fuel - 1) as u64);
        match written {
            Some(m) => {
                let (st, t) = infer_method_call_spec(
                    st,
                    env,
                    callee,
                    &recv,
                    m,
                    MethodDispatch::Static,
                    args,
                    targs,
                    (fuel - 1) as u64,
                );
                (st, Some(t))
            },
            None => {
                let (st, using) = using_method_def_spec(st, env, &recv, name, (fuel - 1) as u64);
                match using {
                    Some((m, up)) => {
                        let st = crate::unify::set_upcast_spec(st, st.file, base, up);
                        let (st, t) = infer_method_call_spec(
                            st,
                            env,
                            callee,
                            &up.target,
                            m,
                            MethodDispatch::Static,
                            args,
                            targs,
                            (fuel - 1) as u64,
                        );
                        (st, Some(t))
                    },
                    None => {
                        let (st, inherited) = distinct_method_def_spec(
                            st,
                            env,
                            &recv,
                            name,
                            (fuel - 1) as u64,
                        );
                        match inherited {
                            Some((m, repr)) => {
                                let st = crate::unify::set_distinct_recv_spec(
                                    st,
                                    st.file,
                                    base,
                                    DistinctRecv { repr: repr },
                                );
                                let distinct = crate::unify::shallow_spec(st, &recv, DEPTH_LIMIT);
                                let (st, t) = infer_method_call_rebound_spec(
                                    st,
                                    env,
                                    callee,
                                    &repr,
                                    m,
                                    MethodDispatch::Static,
                                    args,
                                    targs,
                                    Some((repr, distinct)),
                                    (fuel - 1) as u64,
                                );
                                (st, Some(t))
                            },
                            None => {
                                no_such_method_spec(
                                    st,
                                    env,
                                    callee,
                                    &recv,
                                    name,
                                    args,
                                    settled_lit,
                                    (fuel - 1) as u64,
                                )
                            },
                        }
                    },
                }
            },
        }
    }
}

/// [`Inferer::no_such_method`], as a mathematical function.
pub open spec fn no_such_method_spec(
    st: InfererV,
    env: &InferCx,
    callee: NodeId,
    recv: &Ty,
    name: &Symbol,
    args: &List<NodeId>,
    settled_lit: Option<TyVarKind>,
    fuel: u64,
) -> (InfererV, Option<Ty>)
    decreases fuel,
{
    if fuel == 0 {
        (crate::unify::give_up_spec(st), None)
    } else {
        let (st, field) = crate::types::field_ty_spec(st, env, recv, name, (fuel - 1) as u64);
        if field.is_some() {
            (st, None)
        } else {
            let r = crate::unify::resolve_spec(st, recv, DEPTH_LIMIT);
            if crate::subst::is_error_spec(&r) {
                let st = crate::exprs::infer_exprs_spec(st, env, args, (fuel - 1) as u64).0;
                (st, Some(Ty::Error))
            } else {
                if crate::subst::is_var_spec(&r) {
                    (st, None)
                } else {
                    let st = crate::exprs::infer_exprs_spec(st, env, args, (fuel - 1) as u64).0;
                    let msg = match crate::unify::get_format_call_spec(st, st.file, callee) {
                        Some(f) => crate::list::list3_spec(
                            Part::Chars(f.before),
                            Part::Ty(r),
                            Part::Chars(f.after),
                        ),
                        None => crate::list::list5_spec(
                            Part::Text("no method `"),
                            Part::Name((*name)),
                            Part::Text("` on `"),
                            Part::Ty(r),
                            Part::Text("`"),
                        ),
                    };
                    let st = if settled_lit == Some(TyVarKind::Int) || settled_lit == Some(TyVarKind::Float) {
                        let st = crate::unify::report_with_note_spec(
                            st,
                            env,
                            callee,
                            msg,
                            crate::diag::say_ty_spec(
                                "a literal with nothing to constrain it is `",
                                r,
                                "`; write the type you meant, as in `cast.<i32>(..)`",
                            ),
                        );
                        st
                    } else {
                        let st = crate::unify::report_spec(st, env, callee, msg);
                        st
                    };
                    (st, Some(Ty::Error))
                }
            }
        }
    }
}

/// [`Inferer::infer_dyn_call`], as a mathematical function.
pub open spec fn infer_dyn_call_spec(
    st: InfererV,
    env: &InferCx,
    callee: NodeId,
    recv: &Ty,
    m: DefId,
    name: &Symbol,
    args: &List<NodeId>,
    targs: &List<NodeId>,
    fuel: u64,
) -> (InfererV, Ty)
    decreases fuel,
{
    if fuel == 0 {
        (crate::unify::give_up_spec(st), Ty::Error)
    } else {
        if !crate::lower::sized_self_spec(env.tables, m) {
            infer_method_call_spec(
                st,
                env,
                callee,
                recv,
                m,
                virtual_dispatch_spec(env.tables, m),
                args,
                targs,
                (fuel - 1) as u64,
            )
        } else {
            let (st, through_ptr) = match (
                crate::unify::shallow_spec(st, recv, DEPTH_LIMIT),
                crate::def::def_parent_spec(env.tables, m),
            ) {
                (Ty::Ptr { .. }, Some(t)) => {
                    let (st, s) = crate::solve::select_spec(st, env, recv, t, &List::Nil, (fuel - 1) as u64);
                    (st, crate::coerce::is_found_spec(s))
                },
                _ => (st, false),
            };
            if through_ptr {
                infer_method_call_spec(
                    st,
                    env,
                    callee,
                    recv,
                    m,
                    MethodDispatch::Static,
                    args,
                    targs,
                    (fuel - 1) as u64,
                )
            } else {
                let st = crate::unify::report_spec(
                    st,
                    env,
                    callee,
                    crate::list::list5_spec(
                        Part::Text("`"),
                        Part::Name((*name)),
                        Part::Text("` cannot be called on `"),
                        Part::Ty(crate::unify::resolve_spec(st, recv, DEPTH_LIMIT)),
                        Part::Text("`: it is bounded `Self: Sized`, and a trait object's size is not known"),
                    ),
                );
                let st = crate::exprs::infer_exprs_spec(st, env, args, (fuel - 1) as u64).0;
                (st, Ty::Error)
            }
        }
    }
}

/// [`declaring_trait`], as a mathematical function.
pub open spec fn declaring_trait_spec(t: &Tables, method: DefId) -> Option<DefId> {
    match crate::def::def_parent_spec(t, method) {
        Some(p) => if crate::def::def_kind_spec(t, p) == DefKind::Trait {
            Some(p)
        } else {
            None
        },
        None => None,
    }
}

/// The trait a method is declared in.
pub fn declaring_trait(t: &Tables, method: DefId) -> (r: Option<DefId>)
    ensures
        r == declaring_trait_spec(t, method),
{
    match def_parent(t, method) {
        Some(p) => if def_kind(t, p) == DefKind::Trait {
            Some(p)
        } else {
            None
        },
        None => None,
    }
}

/// [`bound_dispatch`], as a mathematical function.
pub open spec fn bound_dispatch_spec(t: &Tables, method: DefId, args: List<Ty>) -> MethodDispatch {
    match declaring_trait_spec(t, method) {
        Some(p) => MethodDispatch::Generic { trait_def: p, args: args },
        None => MethodDispatch::Static,
    }
}

/// The dispatch of a call through a bound.
pub fn bound_dispatch(t: &Tables, method: DefId, args: List<Ty>) -> (r: MethodDispatch)
    ensures
        r == bound_dispatch_spec(t, method, args),
{
    match declaring_trait(t, method) {
        Some(p) => MethodDispatch::Generic { trait_def: p, args: args },
        None => MethodDispatch::Static,
    }
}

/// [`virtual_dispatch`], as a mathematical function.
pub open spec fn virtual_dispatch_spec(t: &Tables, method: DefId) -> MethodDispatch {
    match declaring_trait_spec(t, method) {
        Some(p) => MethodDispatch::Virtual(p),
        None => MethodDispatch::Static,
    }
}

/// The dispatch of a call through a vtable.
pub fn virtual_dispatch(t: &Tables, method: DefId) -> (r: MethodDispatch)
    ensures
        r == virtual_dispatch_spec(t, method),
{
    match declaring_trait(t, method) {
        Some(p) => MethodDispatch::Virtual(p),
        None => MethodDispatch::Static,
    }
}

/// [`Inferer::callee_type_def`], as a mathematical function.
pub open spec fn callee_type_def_spec(st: InfererV, env: &InferCx, callee: NodeId) -> Option<DefId> {
    match crate::def::kind_of_spec(env.tables, st.file, callee) {
        Some(NodeKind::Path { .. }) => match crate::decls::resolved_def_spec(st, env, callee) {
            Some(def) => match crate::def::def_kind_spec(env.tables, def) {
                DefKind::Struct => Some(def),
                DefKind::Enum => Some(def),
                _ => None,
            },
            None => None,
        },
        _ => None,
    }
}

// Overloads.

/// [`Inferer::arg_name`], as a mathematical function.
pub open spec fn arg_name_spec(st: InfererV, env: &InferCx, arg: NodeId) -> Option<Symbol> {
    match crate::def::kind_of_spec(env.tables, st.file, arg) {
        Some(NodeKind::Arg { name, value: _ }) => (*name),
        _ => None,
    }
}

/// [`Inferer::written_names`], as a mathematical function.
pub open spec fn written_names_spec(st: InfererV, env: &InferCx, args: &List<NodeId>) -> List<Symbol>
    decreases args,
{
    match args {
        List::Nil => List::Nil,
        List::Cons(h, t) => match arg_name_spec(st, env, *h) {
            Some(n) => List::Cons(n, Box::new(written_names_spec(st, env, t))),
            None => written_names_spec(st, env, t),
        },
    }
}

/// [`names_within`], as a mathematical function.
pub open spec fn names_within_spec(l: &List<Symbol>, names: &List<Symbol>) -> bool
    decreases l,
{
    match l {
        List::Nil => true,
        List::Cons(h, t) => crate::symbol::sym_in_spec(names, h) && names_within_spec(t, names),
    }
}

/// Whether every name of one list is in another.
pub fn names_within(l: &List<Symbol>, names: &List<Symbol>) -> (r: bool)
    ensures
        r == names_within_spec(l, names),
    decreases l,
{
    match l {
        List::Nil => true,
        List::Cons(h, t) => sym_in(names, h) && names_within(t, names),
    }
}

/// [`count_down`], as a mathematical function.
pub open spec fn count_down_spec(l: &List<bool>) -> u64
    decreases l,
{
    match l {
        List::Nil => 0,
        List::Cons(h, t) => if *h {
            count_down_spec(t)
        } else {
            crate::list::succ_spec(count_down_spec(t))
        },
    }
}

/// How many flags of a list are down.
pub fn count_down(l: &List<bool>) -> (r: u64)
    ensures
        r == count_down_spec(l),
    decreases l,
{
    match l {
        List::Nil => 0,
        List::Cons(h, t) => if *h {
            count_down(t)
        } else {
            succ(count_down(t))
        },
    }
}

/// [`call_shape_fits`], as a mathematical function.
pub open spec fn call_shape_fits_spec(t: &Tables, def: DefId, count: u64, written: &List<Symbol>) -> bool {
    match crate::decls::param_names_spec(t, def) {
        Some(names) => {
            let required = match crate::decls::param_defaults_spec(t, def) {
                Some(l) => count_down_spec(&l),
                None => 0,
            };
            let total = crate::list::list_len_spec(&names);
            if crate::exprs::is_c_variadic_spec(t, def) {
                count >= total
            } else {
                count <= total && count >= required && names_within_spec(written, &names)
            }
        },
        None => true,
    }
}

/// Whether a candidate could take a call of so many arguments naming these
/// parameters.
pub fn call_shape_fits(t: &Tables, def: DefId, count: u64, written: &List<Symbol>) -> (r: bool)
    ensures
        r == call_shape_fits_spec(t, def, count, written),
{
    match param_names(t, def) {
        Some(names) => {
            let required = match param_defaults(t, def) {
                Some(l) => count_down(&l),
                None => 0,
            };
            let total = list_len(&names);
            if is_c_variadic(t, def) {
                count >= total
            } else {
                count <= total && count >= required && names_within(written, &names)
            }
        },
        None => true,
    }
}

/// [`shaped`], as a mathematical function.
pub open spec fn shaped_spec(t: &Tables, l: &List<DefId>, count: u64, written: &List<Symbol>) -> List<DefId>
    decreases l,
{
    match l {
        List::Nil => List::Nil,
        List::Cons(h, rest) => if call_shape_fits_spec(t, *h, count, written) {
            List::Cons(*h, Box::new(shaped_spec(t, rest, count, written)))
        } else {
            shaped_spec(t, rest, count, written)
        },
    }
}

/// The candidates whose shape fits a call.
pub fn shaped(t: &Tables, l: &List<DefId>, count: u64, written: &List<Symbol>) -> (r: List<DefId>)
    ensures
        r == shaped_spec(t, l, count, written),
    decreases l,
{
    match l {
        List::Nil => List::Nil,
        List::Cons(h, rest) => if call_shape_fits(t, *h, count, written) {
            List::Cons(*h, Box::new(shaped(t, rest, count, written)))
        } else {
            shaped(t, rest, count, written)
        },
    }
}

/// [`Inferer::declaration_lines`], as a mathematical function.
pub open spec fn declaration_lines_spec(
    st: InfererV,
    env: &InferCx,
    l: &List<DefId>,
    fuel: u64,
) -> (InfererV, List<Part>)
    decreases fuel, l,
{
    if fuel == 0 {
        (crate::unify::give_up_spec(st), List::Nil)
    } else {
        match l {
            List::Nil => (st, List::Nil),
            List::Cons(h, t) => {
                let (st, sig) = crate::types::func_def_ty_spec(st, env, *h, (fuel - 1) as u64);
                let line = crate::diag::say_ty_spec(
                    "`",
                    crate::unify::resolve_spec(st, &sig, DEPTH_LIMIT),
                    "`",
                );
                let (st, rest) = declaration_lines_spec(st, env, t, fuel);
                if crate::list::is_empty_spec(t) {
                    (st, line)
                } else {
                    (st, crate::list::append_spec(line, List::Cons(Part::Text(", "), Box::new(rest))))
                }
            },
        }
    }
}

/// [`Inferer::select_overload`], as a mathematical function.
pub open spec fn select_overload_spec(
    st: InfererV,
    env: &InferCx,
    callee: NodeId,
    def: DefId,
    args: &List<NodeId>,
    fuel: u64,
) -> (InfererV, Option<DefId>)
    decreases fuel,
{
    if fuel == 0 {
        (crate::unify::give_up_spec(st), None)
    } else {
        let candidates = crate::decls::overload_candidates_spec(st, env, def, DEPTH_LIMIT);
        if crate::list::is_empty_spec(&candidates) {
            (st, None)
        } else {
            let by_shape = shaped_spec(
                env.tables,
                &candidates,
                crate::list::list_len_spec(args),
                &written_names_spec(st, env, args),
            );
            let (st, fit) = if crate::list::list_len_spec(&by_shape) > 1 {
                overloads_matching_spec(st, env, callee, &by_shape, args, (fuel - 1) as u64)
            } else {
                (st, by_shape)
            };
            match &fit {
                List::Nil => {
                    let st = report_overloads_spec(
                        st,
                        env,
                        callee,
                        def,
                        "no overload of `",
                        "` takes these arguments; it has ",
                        &candidates,
                        (fuel - 1) as u64,
                    );
                    (st, None)
                },
                List::Cons(first, rest) => {
                    let st = report_ambiguous_call_spec(
                        st,
                        env,
                        callee,
                        def,
                        *first,
                        rest,
                        &fit,
                        (fuel - 1) as u64,
                    );
                    let st = stamp_overload_spec(st, callee, *first);
                    (st, Some(*first))
                },
            }
        }
    }
}

/// [`Inferer::report_overloads`], as a mathematical function.
pub open spec fn report_overloads_spec(
    st: InfererV,
    env: &InferCx,
    callee: NodeId,
    def: DefId,
    before: &'static str,
    after: &'static str,
    l: &List<DefId>,
    fuel: u64,
) -> InfererV
    decreases fuel,
{
    if fuel == 0 {
        crate::unify::give_up_spec(st)
    } else {
        let (st, how) = declaration_lines_spec(st, env, l, (fuel - 1) as u64);
        let st = crate::unify::report_spec(
            st,
            env,
            callee,
            crate::list::append_spec(
                crate::diag::say_name_spec(before, &crate::def::def_name_spec(env.tables, def), after),
                how,
            ),
        );
        st
    }
}

/// [`Inferer::report_ambiguous_call`], as a mathematical function.
pub open spec fn report_ambiguous_call_spec(
    st: InfererV,
    env: &InferCx,
    callee: NodeId,
    def: DefId,
    first: DefId,
    rest: &List<DefId>,
    fit: &List<DefId>,
    fuel: u64,
) -> InfererV
    decreases fuel,
{
    if fuel == 0 {
        crate::unify::give_up_spec(st)
    } else {
        if !crate::list::is_empty_spec(rest) {
            let (st, same) = overloads_are_duplicates_spec(st, env, first, rest, (fuel - 1) as u64);
            if !same {
                let st = report_overloads_spec(
                    st,
                    env,
                    callee,
                    def,
                    "this call to `",
                    "` matches more than one of its overloads: ",
                    fit,
                    (fuel - 1) as u64,
                );
                st
            } else {
                st
            }
        } else {
            st
        }
    }
}

/// [`Inferer::stamp_overload`], as a mathematical function.
pub open spec fn stamp_overload_spec(st: InfererV, callee: NodeId, def: DefId) -> InfererV {
    let st = crate::unify::set_resolution_spec(st, st.file, callee, Resolution::Def(def));
    st
}

/// [`Inferer::labelled`], as a mathematical function.
pub open spec fn labelled_spec(
    st: InfererV,
    env: &InferCx,
    args: &List<NodeId>,
    tys: &List<Ty>,
) -> List<(Option<Symbol>, Ty)>
    decreases args,
{
    match (args, tys) {
        (List::Cons(a, s), List::Cons(ty, u)) => {
            List::Cons((arg_name_spec(st, env, *a), (*ty)), Box::new(labelled_spec(st, env, s, u)))
        },
        _ => List::Nil,
    }
}

/// [`param_of`], as a mathematical function.
pub open spec fn param_of_spec(names: &List<Symbol>, label: &Option<Symbol>, i: u64) -> Option<u64> {
    match label {
        Some(n) => name_position_spec(names, n, 0),
        None => Some(i),
    }
}

/// Which parameter an argument is for: the one it names, or the one it stands at.
pub fn param_of(names: &List<Symbol>, label: &Option<Symbol>, i: u64) -> (r: Option<u64>)
    ensures
        r == param_of_spec(names, label, i),
{
    match label {
        Some(n) => name_position(names, n, 0),
        None => Some(i),
    }
}

/// [`Inferer::unify_written`], as a mathematical function.
pub open spec fn unify_written_spec(
    st: InfererV,
    args: &List<(Option<Symbol>, Ty)>,
    names: &List<Symbol>,
    params: &List<Ty>,
    i: u64,
    fuel: u64,
) -> (InfererV, bool)
    decreases fuel, args,
{
    if fuel == 0 {
        (crate::unify::give_up_spec(st), false)
    } else {
        match args {
            List::Nil => (st, true),
            List::Cons(a, rest) => match param_of_spec(names, &a.0, i) {
                Some(k) => match crate::list::nth_spec(params, k) {
                    Some(p) => {
                        let (st, c) = crate::unify::unify_spec(st, &a.1, p, (fuel - 1) as u64);
                        if c.is_none() {
                            unify_written_spec(st, rest, names, params, crate::list::succ_spec(i), fuel)
                        } else {
                            (st, false)
                        }
                    },
                    None => unify_written_spec(st, rest, names, params, crate::list::succ_spec(i), fuel),
                },
                None => (st, false),
            },
        }
    }
}

/// [`is_written`], as a mathematical function.
pub open spec fn is_written_spec(args: &List<(Option<Symbol>, Ty)>, name: &Symbol, at: u64, i: u64) -> bool
    decreases args,
{
    match args {
        List::Nil => false,
        List::Cons(a, rest) => match &a.0 {
            Some(n) => crate::symbol::sym_eq_spec(n, name)
                || is_written_spec(rest, name, at, crate::list::succ_spec(i)),
            None => i == at || is_written_spec(rest, name, at, crate::list::succ_spec(i)),
        },
    }
}

/// Whether a parameter is written among arguments from position `i` on.
pub fn is_written(args: &List<(Option<Symbol>, Ty)>, name: &Symbol, at: u64, i: u64) -> (r: bool)
    ensures
        r == is_written_spec(args, name, at, i),
    decreases args,
{
    match args {
        List::Nil => false,
        List::Cons(a, rest) => match &a.0 {
            Some(n) => sym_eq(n, name) || is_written(rest, name, at, succ(i)),
            None => i == at || is_written(rest, name, at, succ(i)),
        },
    }
}

/// [`rest_defaulted`], as a mathematical function.
pub open spec fn rest_defaulted_spec(
    names: &List<Symbol>,
    defaults: &List<bool>,
    args: &List<(Option<Symbol>, Ty)>,
    at: u64,
) -> bool
    decreases names,
{
    match names {
        List::Nil => true,
        List::Cons(n, rest) => (is_written_spec(args, n, at, 0) || crate::list::nth_spec(defaults, at) == Some(&true))
            && rest_defaulted_spec(rest, defaults, args, crate::list::succ_spec(at)),
    }
}

/// Whether every parameter from position `at` on is written, or has a default.
pub fn rest_defaulted(
    names: &List<Symbol>,
    defaults: &List<bool>,
    args: &List<(Option<Symbol>, Ty)>,
    at: u64,
) -> (r: bool)
    ensures
        r == rest_defaulted_spec(names, defaults, args, at),
    decreases names,
{
    match names {
        List::Nil => true,
        List::Cons(n, rest) => (is_written(args, n, at, 0) || nth(defaults, at) == Some(&true))
            && rest_defaulted(rest, defaults, args, succ(at)),
    }
}

/// [`known_defaults`], as a mathematical function.
pub open spec fn known_defaults_spec(t: &Tables, c: DefId) -> List<bool> {
    match crate::decls::param_defaults_spec(t, c) {
        Some(l) => l,
        None => List::Nil,
    }
}

/// Which of a function's parameters are known to have a default.
pub fn known_defaults(t: &Tables, c: DefId) -> (r: List<bool>)
    ensures
        r == known_defaults_spec(t, c),
{
    match param_defaults(t, c) {
        Some(l) => l,
        None => List::Nil,
    }
}

/// [`arity_takes`], as a mathematical function.
pub open spec fn arity_takes_spec(
    t: &Tables,
    c: DefId,
    total: u64,
    args: &List<(Option<Symbol>, Ty)>,
) -> bool {
    let given = crate::list::list_len_spec(args);
    if crate::exprs::is_c_variadic_spec(t, c) {
        given >= total
    } else {
        match crate::decls::param_names_spec(t, c) {
            Some(names) => if crate::list::list_len_spec(&names) == total {
                given <= total && rest_defaulted_spec(&names, &known_defaults_spec(t, c), args, 0)
            } else {
                given == total
            },
            None => given == total,
        }
    }
}

/// Whether a candidate of so many parameters can do with the arguments a call
/// writes: what it leaves out has a default.
pub fn arity_takes(t: &Tables, c: DefId, total: u64, args: &List<(Option<Symbol>, Ty)>) -> (r: bool)
    ensures
        r == arity_takes_spec(t, c, total, args),
{
    let given = list_len(args);
    if is_c_variadic(t, c) {
        given >= total
    } else {
        match param_names(t, c) {
            Some(names) => if list_len(&names) == total {
                given <= total && rest_defaulted(&names, &known_defaults(t, c), args, 0)
            } else {
                given == total
            },
            None => given == total,
        }
    }
}

/// [`Inferer::overload_takes`], as a mathematical function.
pub open spec fn overload_takes_spec(
    st: InfererV,
    env: &InferCx,
    callee: NodeId,
    c: DefId,
    args: &List<(Option<Symbol>, Ty)>,
    fuel: u64,
) -> (InfererV, bool)
    decreases fuel,
{
    if fuel == 0 {
        (crate::unify::give_up_spec(st), false)
    } else {
        let snap = crate::unify::snapshot_spec(st);
        let (st, sig) = crate::types::func_def_ty_spec(st, env, c, (fuel - 1) as u64);
        let (st, (inst, map)) = instantiate_parts_spec(
            st,
            env,
            callee,
            &sig,
            c,
            &List::Nil,
            crate::subst::no_subst_spec(),
            (fuel - 1) as u64,
        );
        let (st, fits) = match crate::unify::shallow_spec(st, &inst, DEPTH_LIMIT) {
            Ty::Func { params, ret: _, c: _ } => if arity_takes_spec(
                env.tables,
                c,
                crate::list::list_len_spec(&params),
                args,
            ) {
                let (st, ok) = unify_written_spec(
                    st,
                    args,
                    &names_or_none_spec(env.tables, c),
                    &params,
                    0,
                    (fuel - 1) as u64,
                );
                if ok {
                    bounds_hold_spec(
                        st,
                        env,
                        &crate::decls::declared_generics_spec(st, env, c),
                        &map,
                        (fuel - 1) as u64,
                    )
                } else {
                    (st, false)
                }
            } else {
                (st, false)
            },
            _ => (st, false),
        };
        let st = crate::unify::rollback_spec(st, snap);
        (st, fits)
    }
}

/// [`names_or_none`], as a mathematical function.
pub open spec fn names_or_none_spec(t: &Tables, c: DefId) -> List<Symbol> {
    match crate::decls::param_names_spec(t, c) {
        Some(l) => l,
        None => List::Nil,
    }
}

/// The names of a function's parameters, where they are known.
pub fn names_or_none(t: &Tables, c: DefId) -> (r: List<Symbol>)
    ensures
        r == names_or_none_spec(t, c),
{
    match param_names(t, c) {
        Some(l) => l,
        None => List::Nil,
    }
}

/// [`Inferer::overloads_taking`], as a mathematical function.
pub open spec fn overloads_taking_spec(
    st: InfererV,
    env: &InferCx,
    callee: NodeId,
    l: &List<DefId>,
    args: &List<(Option<Symbol>, Ty)>,
    fuel: u64,
) -> (InfererV, List<DefId>)
    decreases fuel, l,
{
    if fuel == 0 {
        (crate::unify::give_up_spec(st), List::Nil)
    } else {
        match l {
            List::Nil => (st, List::Nil),
            List::Cons(c, rest) => {
                let (st, fits) = overload_takes_spec(st, env, callee, *c, args, (fuel - 1) as u64);
                let (st, others) = overloads_taking_spec(st, env, callee, rest, args, fuel);
                if fits {
                    (st, List::Cons(*c, Box::new(others)))
                } else {
                    (st, others)
                }
            },
        }
    }
}

/// [`Inferer::concrete_ones`], as a mathematical function.
pub open spec fn concrete_ones_spec(st: InfererV, env: &InferCx, l: &List<DefId>) -> List<DefId>
    decreases l,
{
    match l {
        List::Nil => List::Nil,
        List::Cons(h, t) => if crate::list::is_empty_spec(
            &crate::decls::declared_generics_spec(st, env, *h),
        ) {
            List::Cons(*h, Box::new(concrete_ones_spec(st, env, t)))
        } else {
            concrete_ones_spec(st, env, t)
        },
    }
}

/// [`Inferer::overload_trial`], as a mathematical function.
pub open spec fn overload_trial_spec(
    st: InfererV,
    env: &InferCx,
    callee: NodeId,
    fit: &List<DefId>,
    args: &List<NodeId>,
    fuel: u64,
) -> (InfererV, List<DefId>)
    decreases fuel,
{
    if fuel == 0 {
        (crate::unify::give_up_spec(st), List::Nil)
    } else {
        let mark = crate::unify::diag_count_spec(st);
        let outer = crate::unify::snapshot_spec(st);
        let (st, arg_tys) = crate::exprs::infer_exprs_spec(st, env, args, (fuel - 1) as u64);
        let (st, matched) = overloads_taking_spec(
            st,
            env,
            callee,
            fit,
            &labelled_spec(st, env, args, &arg_tys),
            (fuel - 1) as u64,
        );
        let st = crate::unify::rollback_spec(st, outer);
        let st = crate::unify::forget_since_spec(st, mark);
        (st, matched)
    }
}

/// [`Inferer::overloads_matching`], as a mathematical function.
pub open spec fn overloads_matching_spec(
    st: InfererV,
    env: &InferCx,
    callee: NodeId,
    fit: &List<DefId>,
    args: &List<NodeId>,
    fuel: u64,
) -> (InfererV, List<DefId>)
    decreases fuel,
{
    if fuel == 0 {
        (crate::unify::give_up_spec(st), List::Nil)
    } else {
        let (st, matched) = overload_trial_spec(st, env, callee, fit, args, (fuel - 1) as u64);
        let concrete = concrete_ones_spec(st, env, &matched);
        if crate::list::is_empty_spec(&concrete) {
            (st, matched)
        } else {
            (st, concrete)
        }
    }
}

/// [`Inferer::signature_params`], as a mathematical function.
pub open spec fn signature_params_spec(
    st: InfererV,
    env: &InferCx,
    d: DefId,
    fuel: u64,
) -> (InfererV, Option<List<Ty>>)
    decreases fuel,
{
    if fuel == 0 {
        (crate::unify::give_up_spec(st), None)
    } else {
        let (st, sig) = crate::types::func_def_ty_spec(st, env, d, (fuel - 1) as u64);
        match crate::unify::shallow_spec(st, &sig, DEPTH_LIMIT) {
            Ty::Func { params, ret: _, c: _ } => (st, Some(*params)),
            _ => (st, None),
        }
    }
}

/// [`Inferer::all_take`], as a mathematical function.
pub open spec fn all_take_spec(
    st: InfererV,
    env: &InferCx,
    l: &List<DefId>,
    first: &List<Ty>,
    fuel: u64,
) -> (InfererV, bool)
    decreases fuel, l,
{
    if fuel == 0 {
        (crate::unify::give_up_spec(st), true)
    } else {
        match l {
            List::Nil => (st, true),
            List::Cons(c, rest) => {
                let (st, ps) = signature_params_spec(st, env, *c, (fuel - 1) as u64);
                match ps {
                    Some(ps) => if crate::ty::tys_eq_spec(first, &ps) {
                        all_take_spec(st, env, rest, first, fuel)
                    } else {
                        (st, false)
                    },
                    None => (st, false),
                }
            },
        }
    }
}

/// [`Inferer::overloads_are_duplicates`], as a mathematical function.
pub open spec fn overloads_are_duplicates_spec(
    st: InfererV,
    env: &InferCx,
    first: DefId,
    rest: &List<DefId>,
    fuel: u64,
) -> (InfererV, bool)
    decreases fuel,
{
    if fuel == 0 {
        (crate::unify::give_up_spec(st), false)
    } else {
        let (st, ps) = signature_params_spec(st, env, first, (fuel - 1) as u64);
        match ps {
            Some(ps) => all_take_spec(st, env, rest, &ps, (fuel - 1) as u64),
            None => (st, false),
        }
    }
}

/// [`recorded_bounds`], as a mathematical function.
pub open spec fn recorded_bounds_spec(t: &Tables, d: DefId) -> Option<List<DefId>> {
    match crate::def::get_def_spec(t, d) {
        Some(def) => match &def.param_bounds {
            Some(l) => Some((*l)),
            None => None,
        },
        None => None,
    }
}

/// The bounds recorded for a parameter.
pub fn recorded_bounds(t: &Tables, d: DefId) -> (r: Option<List<DefId>>)
    ensures
        r == recorded_bounds_spec(t, d),
{
    match get_def(t, d) {
        Some(def) => match &def.param_bounds {
            Some(l) => Some(dup_defs(l)),
            None => None,
        },
        None => None,
    }
}

/// [`Inferer::bounds_hold`], as a mathematical function.
pub open spec fn bounds_hold_spec(
    st: InfererV,
    env: &InferCx,
    generics: &List<DefId>,
    map: &Subst,
    fuel: u64,
) -> (InfererV, bool)
    decreases fuel, generics,
{
    if fuel == 0 {
        (crate::unify::give_up_spec(st), true)
    } else {
        match generics {
            List::Nil => (st, true),
            List::Cons(g, rest) => match (
                recorded_bounds_spec(env.tables, *g),
                crate::subst::bound_to_spec(map, *g),
            ) {
                (Some(bounds), Some(arg)) => {
                    let arg = crate::unify::resolve_spec(st, &arg, DEPTH_LIMIT);
                    if crate::subst::is_var_spec(&arg) || crate::subst::is_error_spec(&arg) {
                        bounds_hold_spec(st, env, rest, map, fuel)
                    } else {
                        let (st, ok) = crate::solve::bounds_may_hold_spec(
                            st,
                            env,
                            &arg,
                            &bounds,
                            (fuel - 1) as u64,
                        );
                        if ok {
                            bounds_hold_spec(st, env, rest, map, fuel)
                        } else {
                            (st, false)
                        }
                    }
                },
                _ => bounds_hold_spec(st, env, rest, map, fuel),
            },
        }
    }
}

// Construction.

/// [`Inferer::construct_fields`], as a mathematical function.
pub open spec fn construct_fields_spec(
    st: InfererV,
    env: &InferCx,
    args: &List<NodeId>,
    fields: &List<Ty>,
    fuel: u64,
) -> InfererV
    decreases fuel, args,
{
    if fuel == 0 {
        crate::unify::give_up_spec(st)
    } else {
        match (args, fields) {
            (List::Cons(a, s), List::Cons(want, t)) => {
                let (st, got) = crate::exprs::infer_expr_spec(st, env, *a, (fuel - 1) as u64);
                let st = crate::coerce::expect_spec(st, env, *a, &got, want, (fuel - 1) as u64);
                let st = construct_fields_spec(st, env, s, t, fuel);
                st
            },
            _ => {
                st
            },
        }
    }
}

/// [`Inferer::check_construction`], as a mathematical function.
pub open spec fn check_construction_spec(
    st: InfererV,
    env: &InferCx,
    callee: NodeId,
    nominal_ty: &Ty,
    args: &List<NodeId>,
    fuel: u64,
) -> InfererV
    decreases fuel,
{
    if fuel == 0 {
        crate::unify::give_up_spec(st)
    } else {
        let st = reject_named_args_spec(
            st,
            env,
            args,
            "a tuple struct's fields are positions — use a composite literal to build one by field name",
        );
        let (st, fields) = crate::types::tuple_struct_tys_spec(st, env, nominal_ty, (fuel - 1) as u64);
        match fields {
            None => {
                let st = crate::exprs::infer_exprs_spec(st, env, args, (fuel - 1) as u64).0;
                if !crate::list::is_empty_spec(args) {
                    let st = crate::unify::report_spec(
                        st,
                        env,
                        callee,
                        crate::diag::say_ty_spec(
                            "`",
                            (*nominal_ty),
                            "` is not a tuple struct, so it cannot be constructed by a call — use a composite literal",
                        ),
                    );
                    st
                } else {
                    st
                }
            },
            Some(fields) => if crate::list::list_len_spec(&fields) != crate::list::list_len_spec(args) {
                let st = crate::exprs::infer_exprs_spec(st, env, args, (fuel - 1) as u64).0;
                let st = crate::unify::report_spec(
                    st,
                    env,
                    callee,
                    crate::list::list7_spec(
                        Part::Text("`"),
                        Part::Ty((*nominal_ty)),
                        Part::Text("` has "),
                        Part::Num(crate::list::list_len_spec(&fields)),
                        Part::Text(" field(s) but "),
                        Part::Num(crate::list::list_len_spec(args)),
                        Part::Text(" were supplied"),
                    ),
                );
                st
            } else {
                let st = construct_fields_spec(st, env, args, &fields, (fuel - 1) as u64);
                st
            },
        }
    }
}

// Binding arguments.

/// [`trailing_up`], as a mathematical function.
pub open spec fn trailing_up_spec(l: &List<bool>) -> u64
    decreases l,
{
    match l {
        List::Nil => 0,
        List::Cons(h, t) => {
            let n = trailing_up_spec(t);
            if n == crate::list::list_len_spec(t) && *h {
                crate::list::succ_spec(n)
            } else {
                n
            }
        },
    }
}

/// How many flags at the end of a list are up.
pub fn trailing_up(l: &List<bool>) -> (r: u64)
    ensures
        r == trailing_up_spec(l),
        l@.len() < u64::MAX ==> r <= l@.len()
            && forall|k: int| l@.len() - r <= k < l@.len() ==> #[trigger] l@[k],
    decreases l,
{
    proof {
        if l@.len() < u64::MAX { crate::laws::calls::the_tail_is_defaulted(*l); }
    }
    match l {
        List::Nil => 0,
        List::Cons(h, t) => {
            let n = trailing_up(t);
            if n == list_len(t) && *h {
                succ(n)
            } else {
                n
            }
        },
    }
}

/// [`required_arity`], as a mathematical function.
pub open spec fn required_arity_spec(t: &Tables, def: DefId, total: u64) -> u64 {
    match crate::decls::param_defaults_spec(t, def) {
        Some(l) => {
            let n = trailing_up_spec(&l);
            if n <= total {
                (total - n) as u64
            } else {
                0
            }
        },
        None => total,
    }
}

/// How many arguments a call must supply: every one but the defaulted tail.
pub fn required_arity(t: &Tables, def: DefId, total: u64) -> (r: u64)
    ensures
        r == required_arity_spec(t, def, total),
        r <= total,
{
    match param_defaults(t, def) {
        Some(l) => {
            let n = trailing_up(&l);
            if n <= total {
                (total - n) as u64
            } else {
                0
            }
        },
        None => total,
    }
}

/// [`name_position`], as a mathematical function.
pub open spec fn name_position_spec(l: &List<Symbol>, n: &Symbol, i: u64) -> Option<u64>
    decreases l,
{
    match l {
        List::Nil => None,
        List::Cons(h, t) => if crate::symbol::sym_eq_spec(h, n) {
            Some(i)
        } else {
            name_position_spec(t, n, crate::list::succ_spec(i))
        },
    }
}

/// Where a name stands in a list.
pub fn name_position(l: &List<Symbol>, n: &Symbol, i: u64) -> (r: Option<u64>)
    ensures
        r == name_position_spec(l, n, i),
        i + l@.len() < u64::MAX ==> match r {
            Some(k) => i <= k < i + l@.len() && l@[k - i] == *n,
            None => !l@.contains(*n),
        },
    decreases l,
{
    proof {
        if i + l@.len() < u64::MAX { crate::laws::calls::a_position_is_a_name(*l, *n, i); }
    }
    match l {
        List::Nil => None,
        List::Cons(h, t) => if sym_eq(h, n) {
            Some(i)
        } else {
            name_position(t, n, succ(i))
        },
    }
}

/// [`empty_slots`], as a mathematical function.
pub open spec fn empty_slots_spec(l: &List<Symbol>) -> List<Option<NodeId>>
    decreases l,
{
    match l {
        List::Nil => List::Nil,
        List::Cons(_, t) => List::Cons(None, Box::new(empty_slots_spec(t))),
    }
}

/// As many empty slots as there are names.
pub fn empty_slots(l: &List<Symbol>) -> (r: List<Option<NodeId>>)
    ensures
        r == empty_slots_spec(l),
    decreases l,
{
    match l {
        List::Nil => List::Nil,
        List::Cons(_, t) => List::Cons(None, Box::new(empty_slots(t))),
    }
}

/// [`fill_slot`], as a mathematical function.
pub open spec fn fill_slot_spec(l: List<Option<NodeId>>, i: u64, a: NodeId) -> List<Option<NodeId>>
    decreases l,
{
    match l {
        List::Nil => List::Nil,
        List::Cons(h, t) => if i == 0 {
            List::Cons(Some(a), t)
        } else {
            List::Cons(h, Box::new(fill_slot_spec(*t, (i - 1) as u64, a)))
        },
    }
}

/// The slots with one of them filled.
pub fn fill_slot(l: List<Option<NodeId>>, i: u64, a: NodeId) -> (r: List<Option<NodeId>>)
    ensures
        r == fill_slot_spec(l, i, a),
        i < l@.len() ==> r@ == l@.update(i as int, Some(a)),
    decreases l,
{
    proof {
        if i < l@.len() { crate::laws::calls::filling_changes_one_slot(l, i, a); }
    }
    match l {
        List::Nil => List::Nil,
        List::Cons(h, t) => if i == 0 {
            List::Cons(Some(a), t)
        } else {
            List::Cons(h, Box::new(fill_slot(*t, (i - 1) as u64, a)))
        },
    }
}

/// [`slot_filled`], as a mathematical function.
pub open spec fn slot_filled_spec(l: &List<Option<NodeId>>, i: u64) -> bool {
    match crate::list::nth_spec(l, i) {
        Some(s) => s.is_some(),
        None => false,
    }
}

/// Whether a slot is filled.
pub fn slot_filled(l: &List<Option<NodeId>>, i: u64) -> (r: bool)
    ensures
        r == slot_filled_spec(l, i),
{
    match nth(l, i) {
        Some(s) => s.is_some(),
        None => false,
    }
}

/// [`padded`], as a mathematical function.
pub open spec fn padded_spec(l: List<Option<NodeId>>, names: &List<Symbol>) -> List<Option<NodeId>>
    decreases names,
{
    match names {
        List::Nil => List::Nil,
        List::Cons(_, rest) => match l {
            List::Nil => List::Cons(None, Box::new(padded_spec(List::Nil, rest))),
            List::Cons(h, t) => List::Cons(h, Box::new(padded_spec(*t, rest))),
        },
    }
}

/// Slots padded with empty ones to a length.
pub fn padded(l: List<Option<NodeId>>, names: &List<Symbol>) -> (r: List<Option<NodeId>>)
    ensures
        r == padded_spec(l, names),
    decreases names,
{
    match names {
        List::Nil => List::Nil,
        List::Cons(_, rest) => match l {
            List::Nil => List::Cons(None, Box::new(padded(List::Nil, rest))),
            List::Cons(h, t) => List::Cons(h, Box::new(padded(*t, rest))),
        },
    }
}

/// [`missing_names`], as a mathematical function.
pub open spec fn missing_names_spec(
    slots: &List<Option<NodeId>>,
    names: &List<Symbol>,
    has_default: &List<bool>,
    i: u64,
) -> List<Symbol>
    decreases slots,
{
    match (slots, names) {
        (List::Cons(s, ss), List::Cons(n, ns)) => {
            let rest = missing_names_spec(ss, ns, has_default, crate::list::succ_spec(i));
            let defaulted = match crate::list::nth_spec(has_default, i) {
                Some(b) => *b,
                None => false,
            };
            if s.is_none() && !defaulted {
                List::Cons((*n), Box::new(rest))
            } else {
                rest
            }
        },
        _ => List::Nil,
    }
}

/// The names of the empty slots that no default fills.
pub fn missing_names(
    slots: &List<Option<NodeId>>,
    names: &List<Symbol>,
    has_default: &List<bool>,
    i: u64,
) -> (r: List<Symbol>)
    ensures
        r == missing_names_spec(slots, names, has_default, i),
    decreases slots,
{
    match (slots, names) {
        (List::Cons(s, ss), List::Cons(n, ns)) => {
            let rest = missing_names(ss, ns, has_default, succ(i));
            let defaulted = match nth(has_default, i) {
                Some(b) => *b,
                None => false,
            };
            if s.is_none() && !defaulted {
                List::Cons(dup_sym(n), Box::new(rest))
            } else {
                rest
            }
        },
        _ => List::Nil,
    }
}

/// [`Inferer::report_arity`], as a mathematical function.
pub open spec fn report_arity_spec(
    st: InfererV,
    env: &InferCx,
    callee: NodeId,
    def: DefId,
    total: u64,
    given: u64,
) -> InfererV {
    let required = required_arity_spec(env.tables, def, total);
    let takes = if required == total {
        crate::list::single_spec(Part::Num(total))
    } else {
        crate::list::list3_spec(Part::Num(required), Part::Text(" to "), Part::Num(total))
    };
    let st = crate::unify::report_spec(
        st,
        env,
        callee,
        crate::list::append_spec(
            crate::diag::say_spec("this function takes "),
            crate::list::append_spec(
                takes,
                crate::list::list3_spec(
                    Part::Text(" argument(s) but "),
                    Part::Num(given),
                    Part::Text(" were supplied"),
                ),
            ),
        ),
    );
    st
}

/// [`Inferer::place_args`], as a mathematical function.
pub open spec fn place_args_spec(
    st: InfererV,
    env: &InferCx,
    callee: NodeId,
    def: DefId,
    given: u64,
    args: &List<NodeId>,
    names: &List<Symbol>,
    i: u64,
    seen_named: bool,
    slots: List<Option<NodeId>>,
) -> (InfererV, Option<List<Option<NodeId>>>)
    decreases args,
{
    match args {
        List::Nil => (st, Some(slots)),
        List::Cons(a, rest) => match arg_name_spec(st, env, *a) {
            None => {
                if seen_named {
                    let st = crate::unify::report_spec(
                        st,
                        env,
                        *a,
                        crate::diag::say_spec(
                            "a positional argument cannot follow a named one — once a call names an argument, the rest must be named too",
                        ),
                    );
                    (st, None)
                } else {
                    if i < crate::list::list_len_spec(names) {
                        place_args_spec(
                            st,
                            env,
                            callee,
                            def,
                            given,
                            rest,
                            names,
                            crate::list::succ_spec(i),
                            false,
                            fill_slot_spec(slots, i, *a),
                        )
                    } else {
                        let st = report_arity_spec(
                            st,
                            env,
                            callee,
                            def,
                            crate::list::list_len_spec(names),
                            given,
                        );
                        (st, None)
                    }
                }
            },
            Some(n) => match name_position_spec(names, &n, 0) {
                None => {
                    let st = crate::unify::report_spec(
                        st,
                        env,
                        *a,
                        crate::list::list5_spec(
                            Part::Text("`"),
                            Part::Path(def),
                            Part::Text("` has no parameter named `"),
                            Part::Name(n),
                            Part::Text("`"),
                        ),
                    );
                    (st, None)
                },
                Some(idx) => {
                    if slot_filled_spec(&slots, idx) {
                        let st = crate::unify::report_spec(
                            st,
                            env,
                            *a,
                            crate::diag::say_name_spec("argument for parameter `", &n, "` supplied twice"),
                        );
                        (st, None)
                    } else {
                        place_args_spec(
                            st,
                            env,
                            callee,
                            def,
                            given,
                            rest,
                            names,
                            crate::list::succ_spec(i),
                            true,
                            fill_slot_spec(slots, idx, *a),
                        )
                    }
                },
            },
        },
    }
}

/// [`Inferer::bind_args`], as a mathematical function.
pub open spec fn bind_args_spec(
    st: InfererV,
    env: &InferCx,
    callee: NodeId,
    def: DefId,
    args: &List<NodeId>,
) -> (InfererV, ArgBinding) {
    let named = !crate::list::is_empty_spec(&written_names_spec(st, env, args));
    if crate::exprs::is_c_variadic_spec(env.tables, def) {
        if named {
            let st = crate::unify::report_spec(
                st,
                env,
                callee,
                crate::diag::say_spec(
                    "a `#c_vararg` call may not name an argument: the variadic tail has no parameter names to bind against",
                ),
            );
            (st, ArgBinding::Failed)
        } else {
            (st, ArgBinding::AsWritten)
        }
    } else {
        match crate::decls::param_names_spec(env.tables, def) {
            Some(names) => {
                let has_default = match crate::decls::param_defaults_spec(env.tables, def) {
                    Some(l) => l,
                    None => List::Nil,
                };
                let total = crate::list::list_len_spec(&names);
                let given = crate::list::list_len_spec(args);
                let required = required_arity_spec(env.tables, def, total);
                if !named && (given == total || required == total) {
                    (st, ArgBinding::AsWritten)
                } else {
                    if !named {
                        if given > total || given < required {
                            let st = report_arity_spec(st, env, callee, def, total, given);
                            (st, ArgBinding::Failed)
                        } else {
                            let slots = padded_spec(crate::lower::written_slots_spec(args), &names);
                            let st = crate::unify::set_arg_order_spec(
                                st,
                                st.file,
                                callee,
                                ArgOrder { args: slots },
                            );
                            (st, ArgBinding::Bound(slots))
                        }
                    } else {
                        let (st, placed) = place_args_spec(
                            st,
                            env,
                            callee,
                            def,
                            given,
                            args,
                            &names,
                            0,
                            false,
                            empty_slots_spec(&names),
                        );
                        match placed {
                            Some(slots) => {
                                let missing = missing_names_spec(&slots, &names, &has_default, 0);
                                if !crate::list::is_empty_spec(&missing) {
                                    let st = crate::unify::report_spec(
                                        st,
                                        env,
                                        callee,
                                        crate::list::append_spec(
                                            crate::diag::say_spec("missing argument for parameter "),
                                            crate::diag::quoted_names_spec(&missing),
                                        ),
                                    );
                                    (st, ArgBinding::Failed)
                                } else {
                                    let st = crate::unify::set_arg_order_spec(
                                        st,
                                        st.file,
                                        callee,
                                        ArgOrder { args: slots },
                                    );
                                    (st, ArgBinding::Bound(slots))
                                }
                            },
                            _ => {
                                (st, ArgBinding::Failed)
                            },
                        }
                    }
                }
            },
            _ => {
                (st, ArgBinding::AsWritten)
            },
        }
    }
}

/// [`Inferer::reject_named_args`], as a mathematical function.
pub open spec fn reject_named_args_spec(
    st: InfererV,
    env: &InferCx,
    args: &List<NodeId>,
    what: &'static str,
) -> InfererV
    decreases args,
{
    match args {
        List::Nil => {
            st
        },
        List::Cons(a, rest) => {
            let st = match arg_name_spec(st, env, *a) {
                Some(n) => {
                    let st = crate::unify::report_spec(
                        st,
                        env,
                        *a,
                        crate::list::list4_spec(
                            Part::Text("cannot pass argument `"),
                            Part::Name(n),
                            Part::Text("` by name: "),
                            Part::Text(what),
                        ),
                    );
                    st
                },
                None => {
                    st
                },
            };
            let st = reject_named_args_spec(st, env, rest, what);
            st
        },
    }
}

/// [`Inferer::infer_slots`], as a mathematical function.
pub open spec fn infer_slots_spec(
    st: InfererV,
    env: &InferCx,
    slots: &List<Option<NodeId>>,
    wanted: &List<Ty>,
    i: u64,
    fuel: u64,
) -> (InfererV, List<Option<Ty>>)
    decreases fuel, slots,
{
    if fuel == 0 {
        (crate::unify::give_up_spec(st), List::Nil)
    } else {
        match slots {
            List::Nil => (st, List::Nil),
            List::Cons(s, rest) => {
                let (st, first) = match s {
                    Some(n) => {
                        let (st, t) = crate::exprs::infer_arg_spec(
                            st,
                            env,
                            *n,
                            opt_nth_spec(wanted, i),
                            (fuel - 1) as u64,
                        );
                        (st, Some(t))
                    },
                    None => (st, None),
                };
                let (st, others) = infer_slots_spec(st, env, rest, wanted, crate::list::succ_spec(i), fuel);
                (st, List::Cons(first, Box::new(others)))
            },
        }
    }
}

/// [`opt_nth`], as a mathematical function.
pub open spec fn opt_nth_spec(l: &List<Ty>, i: u64) -> Option<Ty> {
    match crate::list::nth_spec(l, i) {
        Some(t) => Some((*t)),
        None => None,
    }
}

/// The type at a position of a list.
pub fn opt_nth(l: &List<Ty>, i: u64) -> (r: Option<Ty>)
    ensures
        r == opt_nth_spec(l, i),
{
    match nth(l, i) {
        Some(t) => Some(dup_ty(t)),
        None => None,
    }
}

/// [`Inferer::expect_slots`], as a mathematical function.
pub open spec fn expect_slots_spec(
    st: InfererV,
    env: &InferCx,
    params: &List<Ty>,
    slots: &List<Option<NodeId>>,
    tys: &List<Option<Ty>>,
    fuel: u64,
) -> InfererV
    decreases fuel, slots,
{
    if fuel == 0 {
        crate::unify::give_up_spec(st)
    } else {
        match (slots, tys) {
            (List::Cons(s, ss), List::Cons(t, ts)) => match params {
                List::Cons(p, ps) => {
                    let st = match (s, t) {
                        (Some(node), Some(aty)) => {
                            let st = crate::coerce::expect_spec(st, env, *node, aty, p, (fuel - 1) as u64);
                            st
                        },
                        _ => {
                            st
                        },
                    };
                    let st = expect_slots_spec(st, env, ps, ss, ts, fuel);
                    st
                },
                List::Nil => {
                    let st = match (s, t) {
                        (Some(node), Some(aty)) => {
                            let st = check_vararg_arg_spec(st, env, *node, aty, (fuel - 1) as u64);
                            st
                        },
                        _ => {
                            st
                        },
                    };
                    let st = expect_slots_spec(st, env, &List::Nil, ss, ts, fuel);
                    st
                },
            },
            _ => {
                st
            },
        }
    }
}

/// [`Inferer::apply_call_with`], as a mathematical function.
pub open spec fn apply_call_with_spec(
    st: InfererV,
    env: &InferCx,
    callee: NodeId,
    callee_ty: &Ty,
    slots: &List<Option<NodeId>>,
    variadic: bool,
    fuel: u64,
) -> (InfererV, Ty)
    decreases fuel,
{
    if fuel == 0 {
        (crate::unify::give_up_spec(st), Ty::Error)
    } else {
        let s = crate::unify::shallow_spec(st, callee_ty, DEPTH_LIMIT);
        if !is_func_spec(&s) {
            let (st, sig) = crate::solve::func_value_sig_spec(st, env, &s, (fuel - 1) as u64);
            match sig {
                Some((params, ret)) => {
                    let st = crate::unify::set_func_call_spec(st, st.file, callee, FuncCall);
                    apply_call_with_spec(
                        st,
                        env,
                        callee,
                        &Ty::Func { params: Box::new(params), ret: Box::new(ret), c: false },
                        slots,
                        variadic,
                        (fuel - 1) as u64,
                    )
                },
                None => {
                    let (st, arg_tys) = infer_slots_spec(
                        st,
                        env,
                        slots,
                        &params_of_spec(&s),
                        0,
                        (fuel - 1) as u64,
                    );
                    match crate::unify::shallow_spec(st, callee_ty, DEPTH_LIMIT) {
                        Ty::Func { params, ret, c: _ } => {
                            let given = crate::list::list_len_spec(&arg_tys);
                            let total = crate::list::list_len_spec(&params);
                            let fits = if variadic {
                                given >= total
                            } else {
                                given == total
                            };
                            let st = if fits {
                                let st = expect_slots_spec(
                                    st,
                                    env,
                                    &params,
                                    slots,
                                    &arg_tys,
                                    (fuel - 1) as u64,
                                );
                                st
                            } else if variadic {
                                let st = crate::unify::report_spec(
                                    st,
                                    env,
                                    callee,
                                    crate::list::list5_spec(
                                        Part::Text("this function takes at least "),
                                        Part::Num(total),
                                        Part::Text(" argument(s) but "),
                                        Part::Num(given),
                                        Part::Text(" were supplied"),
                                    ),
                                );
                                st
                            } else {
                                let st = crate::unify::report_spec(
                                    st,
                                    env,
                                    callee,
                                    crate::list::list5_spec(
                                        Part::Text("this function takes "),
                                        Part::Num(total),
                                        Part::Text(" argument(s) but "),
                                        Part::Num(given),
                                        Part::Text(" were supplied"),
                                    ),
                                );
                                st
                            };
                            (st, *ret)
                        },
                        other => {
                            let st = if !crate::subst::is_error_spec(&other)
                                && !crate::subst::is_var_spec(&other) {
                                let st = crate::unify::report_spec(
                                    st,
                                    env,
                                    callee,
                                    crate::diag::say_ty_spec(
                                        "`",
                                        other,
                                        "` is not a function, so it cannot be called",
                                    ),
                                );
                                st
                            } else {
                                st
                            };
                            (st, Ty::Error)
                        },
                    }
                },
            }
        } else {
            let (st, arg_tys) = infer_slots_spec(st, env, slots, &params_of_spec(&s), 0, (fuel - 1) as u64);
            match crate::unify::shallow_spec(st, callee_ty, DEPTH_LIMIT) {
                Ty::Func { params, ret, c: _ } => {
                    let given = crate::list::list_len_spec(&arg_tys);
                    let total = crate::list::list_len_spec(&params);
                    let fits = if variadic {
                        given >= total
                    } else {
                        given == total
                    };
                    let st = if fits {
                        let st = expect_slots_spec(st, env, &params, slots, &arg_tys, (fuel - 1) as u64);
                        st
                    } else if variadic {
                        let st = crate::unify::report_spec(
                            st,
                            env,
                            callee,
                            crate::list::list5_spec(
                                Part::Text("this function takes at least "),
                                Part::Num(total),
                                Part::Text(" argument(s) but "),
                                Part::Num(given),
                                Part::Text(" were supplied"),
                            ),
                        );
                        st
                    } else {
                        let st = crate::unify::report_spec(
                            st,
                            env,
                            callee,
                            crate::list::list5_spec(
                                Part::Text("this function takes "),
                                Part::Num(total),
                                Part::Text(" argument(s) but "),
                                Part::Num(given),
                                Part::Text(" were supplied"),
                            ),
                        );
                        st
                    };
                    (st, *ret)
                },
                other => {
                    let st = if !crate::subst::is_error_spec(&other) && !crate::subst::is_var_spec(&other) {
                        let st = crate::unify::report_spec(
                            st,
                            env,
                            callee,
                            crate::diag::say_ty_spec(
                                "`",
                                other,
                                "` is not a function, so it cannot be called",
                            ),
                        );
                        st
                    } else {
                        st
                    };
                    (st, Ty::Error)
                },
            }
        }
    }
}

/// [`is_func`], as a mathematical function.
pub open spec fn is_func_spec(ty: &Ty) -> bool {
    match ty {
        Ty::Func { .. } => true,
        _ => false,
    }
}

/// Whether a type is a function pointer.
pub fn is_func(ty: &Ty) -> (r: bool)
    ensures
        r == is_func_spec(ty),
{
    match ty {
        Ty::Func { .. } => true,
        _ => false,
    }
}

/// [`params_of`], as a mathematical function.
pub open spec fn params_of_spec(ty: &Ty) -> List<Ty> {
    match ty {
        Ty::Func { params, ret: _, c: _ } => (**params),
        _ => List::Nil,
    }
}

/// What a function pointer takes.
pub fn params_of(ty: &Ty) -> (r: List<Ty>)
    ensures
        r == params_of_spec(ty),
{
    match ty {
        Ty::Func { params, ret: _, c: _ } => dup_tys(&**params),
        _ => List::Nil,
    }
}

/// [`not_c_passable`], as a mathematical function.
pub open spec fn not_c_passable_spec(ty: &Ty) -> Option<&'static str> {
    match ty {
        Ty::Slice { .. } => Some("a slice"),
        Ty::Array { .. } => Some("an array"),
        Ty::Tuple(elems) => if crate::list::is_empty_spec(elems) {
            Some("`void`")
        } else {
            Some("a tuple")
        },
        Ty::Void => Some("`void`"),
        Ty::Never => Some("`never`"),
        Ty::Dyn { .. } => Some("a trait object"),
        Ty::Func { .. } => Some("a function"),
        _ => None,
    }
}

/// What keeps a type out of a C variadic tail.
pub fn not_c_passable(ty: &Ty) -> (r: Option<&'static str>)
    ensures
        r == not_c_passable_spec(ty),
{
    match ty {
        Ty::Slice { .. } => Some("a slice"),
        Ty::Array { .. } => Some("an array"),
        Ty::Tuple(elems) => if is_empty(elems) {
            Some("`void`")
        } else {
            Some("a tuple")
        },
        Ty::Void => Some("`void`"),
        Ty::Never => Some("`never`"),
        Ty::Dyn { .. } => Some("a trait object"),
        Ty::Func { .. } => Some("a function"),
        _ => None,
    }
}

/// [`c_promotion`], as a mathematical function.
pub open spec fn c_promotion_spec(ty: &Ty) -> Option<Ty> {
    match ty {
        Ty::Bool => Some(crate::ty::int_ty_spec(32, true)),
        Ty::Int { signed: _, width } => match crate::ty::const_value_spec(width) {
            Some(b) => if b < 32 {
                Some(crate::ty::int_ty_spec(32, true))
            } else {
                None
            },
            None => None,
        },
        Ty::Float(FloatWidth::F32) => Some(Ty::Float(FloatWidth::F64)),
        _ => None,
    }
}

/// C's default argument promotions: anything narrower than an `int` is read as
/// one, and a `float` as a `double`.
pub fn c_promotion(ty: &Ty) -> (r: Option<Ty>)
    ensures
        r == c_promotion_spec(ty),
{
    match ty {
        Ty::Bool => Some(int_ty(32, true)),
        Ty::Int { signed: _, width } => match const_value(width) {
            Some(b) => if b < 32 {
                Some(int_ty(32, true))
            } else {
                None
            },
            None => None,
        },
        Ty::Float(FloatWidth::F32) => Some(Ty::Float(FloatWidth::F64)),
        _ => None,
    }
}

/// [`Inferer::fits_c_int`], as a mathematical function.
pub open spec fn fits_c_int_spec(st: InfererV, env: &InferCx, node: NodeId) -> bool {
    let n = match crate::def::kind_of_spec(env.tables, st.file, node) {
        Some(NodeKind::Arg { name: _, value }) => *value,
        _ => node,
    };
    match crate::unify::get_int_spec(st, n) {
        Some(v) => crate::bigint::int_le_spec(&crate::bigint::int_neg_spec(&crate::bigint::int_of_spec(0x8000_0000)), &v)
            && crate::bigint::int_le_spec(&v, &crate::bigint::int_of_spec(0x7fff_ffff)),
        None => false,
    }
}

/// [`Inferer::is_stringy`], as a mathematical function.
pub open spec fn is_stringy_spec(st: InfererV, ty: &Ty) -> bool {
    match ty {
        Ty::ComptimeStr => true,
        _ => crate::unify::admits_str_spec(st, ty),
    }
}

/// [`Inferer::check_vararg_arg`], as a mathematical function.
pub open spec fn check_vararg_arg_spec(
    st: InfererV,
    env: &InferCx,
    node: NodeId,
    ty: &Ty,
    fuel: u64,
) -> InfererV
    decreases fuel,
{
    if fuel == 0 {
        crate::unify::give_up_spec(st)
    } else {
        let (st, pinned) = crate::unify::pin_str_spec(st, ty);
        let st = if crate::subst::is_var_spec(&crate::unify::shallow_spec(st, &pinned, DEPTH_LIMIT))
            && fits_c_int_spec(st, env, node) {
            let (st, _clash) = crate::unify::unify_spec(
                st,
                &pinned,
                &crate::ty::int_ty_spec(32, true),
                (fuel - 1) as u64,
            );
            st
        } else {
            st
        };
        let (st, pinned) = crate::unify::pin_numeric_spec(st, &pinned);
        let (st, resolved) = crate::solve::settle_spec(st, env, &pinned, (fuel - 1) as u64);
        if crate::subst::is_error_spec(&resolved) || crate::subst::is_var_spec(&resolved) {
            st
        } else {
            if is_stringy_spec(st, &resolved) {
                let st = crate::unify::report_with_note_spec(
                    st,
                    env,
                    node,
                    crate::diag::say_spec("a `str` cannot be passed in a C variadic tail"),
                    crate::diag::say_spec(
                        "a `str` is a pointer and a length, and C reads one argument — write `c\"...\"` for a literal, or `c.to_cstr(s)` for a value",
                    ),
                );
                st
            } else {
                match not_c_passable_spec(&resolved) {
                    Some(what) => {
                        let st = crate::unify::report_with_note_spec(
                            st,
                            env,
                            node,
                            crate::list::list4_spec(
                                Part::Text(what),
                                Part::Text(" cannot be passed in a C variadic tail: `"),
                                Part::Ty(resolved),
                                Part::Text("` has no C argument convention"),
                            ),
                            crate::diag::say_spec(
                                "the tail is read with `va_arg`, which names a C type — pass the parts this language owns the representation of separately",
                            ),
                        );
                        st
                    },
                    None => {
                        match crate::unify::get_coercion_spec(st, st.file, node) {
                            Some(_) => {
                                st
                            },
                            None => match c_promotion_spec(&resolved) {
                                Some(to) => {
                                    let st = crate::unify::set_coercion_spec(
                                        st,
                                        st.file,
                                        node,
                                        Coercion { to: to },
                                    );
                                    st
                                },
                                None => {
                                    st
                                },
                            },
                        }
                    },
                }
            }
        }
    }
}

// Finding methods.

/// [`Inferer::method_def`], as a mathematical function.
pub open spec fn method_def_spec(st: InfererV, env: &InferCx, recv: &Ty, name: &Symbol) -> Option<DefId> {
    match crate::unify::autoderef_spec(st, recv, DEPTH_LIMIT) {
        Ty::Nominal { def, args: _ } => match crate::def::member_of_spec(env.tables, def, name) {
            Some(m) => if crate::def::def_kind_spec(env.tables, m) == DefKind::Func {
                Some(m)
            } else {
                None
            },
            None => None,
        },
        _ => None,
    }
}

/// [`impl_method`], as a mathematical function.
pub open spec fn impl_method_spec(t: &Tables, imp: &ImplInfo, name: &Symbol) -> Option<DefId> {
    let found = match crate::def::find_member_spec(&imp.members, name) {
        Some(m) => Some(m),
        None => match imp.trait_def {
            Some(td) => crate::decls::trait_default_method_spec(t, td, name),
            None => None,
        },
    };
    match found {
        Some(m) => if crate::def::def_kind_spec(t, m) == DefKind::Func {
            Some(m)
        } else {
            None
        },
        None => None,
    }
}

/// The method an impl supplies under a name. One it does not override is still
/// there where the trait gave it a body.
pub fn impl_method(t: &Tables, imp: &ImplInfo, name: &Symbol) -> (r: Option<DefId>)
    ensures
        r == impl_method_spec(t, imp, name),
{
    let found = match find_member(&imp.members, name) {
        Some(m) => Some(m),
        None => match imp.trait_def {
            Some(td) => trait_default_method(t, td, name),
            None => None,
        },
    };
    match found {
        Some(m) => if def_kind(t, m) == DefKind::Func {
            Some(m)
        } else {
            None
        },
        None => None,
    }
}

/// [`Inferer::consider_methods`], as a mathematical function.
pub open spec fn consider_methods_spec(
    st: InfererV,
    env: &InferCx,
    i: u64,
    s: &Ty,
    name: &Symbol,
    best: Option<BestMember>,
    fuel: u64,
) -> (InfererV, Option<BestMember>)
    decreases fuel, u64::MAX - i,
{
    if fuel == 0 {
        (crate::unify::give_up_spec(st), best)
    } else {
        match crate::solve::get_impl_spec(env, i) {
            Some(imp) => match impl_method_spec(env.tables, imp, name) {
                Some(m) => if crate::exprs::impl_reachable_spec(env, imp) {
                    let (st, fits) = crate::solve::trial_impl_spec(
                        st,
                        env,
                        i,
                        s,
                        &List::Nil,
                        (fuel - 1) as u64,
                    );
                    let next = if fits {
                        crate::exprs::consider_member_spec(best, crate::exprs::impl_score_spec(imp), i, m)
                    } else {
                        best
                    };
                    consider_methods_spec(st, env, crate::list::succ_spec(i), s, name, next, fuel)
                } else {
                    consider_methods_spec(st, env, crate::list::succ_spec(i), s, name, best, fuel)
                },
                None => consider_methods_spec(st, env, crate::list::succ_spec(i), s, name, best, fuel),
            },
            None => (st, best),
        }
    }
}

/// [`Inferer::impl_method_def`], as a mathematical function.
pub open spec fn impl_method_def_spec(
    st: InfererV,
    env: &InferCx,
    recv: &Ty,
    name: &Symbol,
    fuel: u64,
) -> (InfererV, Option<DefId>)
    decreases fuel,
{
    if fuel == 0 {
        (crate::unify::give_up_spec(st), None)
    } else {
        let s = crate::unify::autoderef_spec(st, recv, DEPTH_LIMIT);
        if crate::subst::is_error_spec(&s) || crate::subst::is_var_spec(&s) {
            (st, None)
        } else {
            let (st, best) = consider_methods_spec(st, env, 0, &s, name, None, (fuel - 1) as u64);
            match best {
                Some(b) => if b.tied {
                    (st, None)
                } else {
                    (st, Some(b.member))
                },
                None => (st, None),
            }
        }
    }
}

/// [`bound_method_in`], as a mathematical function.
pub open spec fn bound_method_in_spec(
    cx: &InferCx,
    traits: &List<DefId>,
    name: &Symbol,
) -> Option<(DefId, DefId)>
    decreases traits,
{
    match traits {
        List::Nil => None,
        List::Cons(t, rest) => match crate::def::member_of_spec(cx.tables, *t, name) {
            Some(m) => if crate::def::def_in_spec(cx.in_scope, *t)
                && crate::def::def_kind_spec(cx.tables, m) == DefKind::Func {
                Some((*t, m))
            } else {
                bound_method_in_spec(cx, rest, name)
            },
            None => bound_method_in_spec(cx, rest, name),
        },
    }
}

/// The first trait in scope, among some, with a method called `name`.
pub fn bound_method_in(cx: &InferCx, traits: &List<DefId>, name: &Symbol) -> (r: Option<(DefId, DefId)>)
    ensures
        r == bound_method_in_spec(cx, traits, name),
    decreases traits,
{
    match traits {
        List::Nil => None,
        List::Cons(t, rest) => match member_of(cx.tables, *t, name) {
            Some(m) => if def_in(cx.in_scope, *t) && def_kind(cx.tables, m) == DefKind::Func {
                Some((*t, m))
            } else {
                bound_method_in(cx, rest, name)
            },
            None => bound_method_in(cx, rest, name),
        },
    }
}

/// [`Inferer::bound_method_def`], as a mathematical function.
pub open spec fn bound_method_def_spec(
    st: InfererV,
    env: &InferCx,
    recv: &Ty,
    name: &Symbol,
    fuel: u64,
) -> (InfererV, Option<(DefId, List<Ty>)>)
    decreases fuel,
{
    if fuel == 0 {
        (crate::unify::give_up_spec(st), None)
    } else {
        match crate::exprs::type_param_of_spec(
            env.tables,
            &crate::unify::autoderef_spec(st, recv, DEPTH_LIMIT),
        ) {
            Some(def) => match bound_method_in_spec(
                env,
                &crate::types::param_bound_traits_spec(st, env, def),
                name,
            ) {
                Some((t, m)) => {
                    let (st, args) = crate::types::bound_args_spec(st, env, def, t, (fuel - 1) as u64);
                    (st, Some((m, args)))
                },
                None => (st, None),
            },
            None => (st, None),
        }
    }
}

/// [`Inferer::dyn_method_def`], as a mathematical function.
pub open spec fn dyn_method_def_spec(st: InfererV, env: &InferCx, recv: &Ty, name: &Symbol) -> Option<DefId> {
    let object = match crate::unify::shallow_spec(st, recv, DEPTH_LIMIT) {
        Ty::Dyn { def, assoc: _ } => Some(def),
        Ty::Ptr { mutable: _, inner } => match crate::unify::shallow_spec(st, &inner, DEPTH_LIMIT) {
            Ty::Dyn { def, assoc: _ } => Some(def),
            _ => None,
        },
        _ => None,
    };
    match object {
        Some(d) => match crate::def::member_of_spec(env.tables, d, name) {
            Some(m) => if crate::def::def_kind_spec(env.tables, m) == DefKind::Func {
                Some(m)
            } else {
                None
            },
            None => None,
        },
        None => None,
    }
}

/// [`Inferer::any_method_def`], as a mathematical function.
pub open spec fn any_method_def_spec(
    st: InfererV,
    env: &InferCx,
    recv: &Ty,
    name: &Symbol,
    fuel: u64,
) -> (InfererV, Option<DefId>)
    decreases fuel,
{
    if fuel == 0 {
        (crate::unify::give_up_spec(st), None)
    } else {
        match method_def_spec(st, env, recv, name) {
            Some(m) => (st, Some(m)),
            None => impl_method_def_spec(st, env, recv, name, (fuel - 1) as u64),
        }
    }
}

/// [`Inferer::distinct_method_def`], as a mathematical function.
pub open spec fn distinct_method_def_spec(
    st: InfererV,
    env: &InferCx,
    recv: &Ty,
    name: &Symbol,
    fuel: u64,
) -> (InfererV, Option<(DefId, Ty)>)
    decreases fuel,
{
    if fuel == 0 {
        (crate::unify::give_up_spec(st), None)
    } else {
        let (st, repr) = crate::types::distinct_repr_spec(st, env, recv, (fuel - 1) as u64);
        match repr {
            Some(repr) => {
                let (st, m) = any_method_def_spec(st, env, &repr, name, (fuel - 1) as u64);
                match m {
                    Some(m) => (st, Some((m, repr))),
                    None => (st, None),
                }
            },
            None => (st, None),
        }
    }
}

/// [`Inferer::using_method_def`], as a mathematical function.
pub open spec fn using_method_def_spec(
    st: InfererV,
    env: &InferCx,
    recv: &Ty,
    name: &Symbol,
    fuel: u64,
) -> (InfererV, Option<(DefId, Upcast)>)
    decreases fuel,
{
    if fuel == 0 {
        (crate::unify::give_up_spec(st), None)
    } else {
        let s = crate::unify::shallow_spec(st, recv, DEPTH_LIMIT);
        match crate::types::nominal_head_spec(st, &s) {
            Some((head, _)) => {
                match crate::coerce::using_field_of_spec(env.tables, head) {
                    Some(field) => {
                        if method_def_spec(st, env, &s, name).is_some() {
                            (st, None)
                        } else {
                            let (st, target) = crate::types::field_ty_spec(
                                st,
                                env,
                                &s,
                                &crate::def::def_name_spec(env.tables, field),
                                (fuel - 1) as u64,
                            );
                            match target {
                                Some(target) => {
                                    let (st, m) = any_method_def_spec(
                                        st,
                                        env,
                                        &target,
                                        name,
                                        (fuel - 1) as u64,
                                    );
                                    match m {
                                        Some(m) => (
                                            st,
                                            Some(
                                                (
                                                    m,
                                                    Upcast {
                                                        field: field,
                                                        through_ptr: false,
                                                        target: target,
                                                    },
                                                ),
                                            ),
                                        ),
                                        None => (st, None),
                                    }
                                },
                                _ => {
                                    (st, None)
                                },
                            }
                        }
                    },
                    _ => {
                        (st, None)
                    },
                }
            },
            _ => {
                (st, None)
            },
        }
    }
}

// Method calls.

/// [`Inferer::unify_self_param`], as a mathematical function.
pub open spec fn unify_self_param_spec(st: InfererV, param: &Ty, recv: &Ty) -> InfererV {
    let snap = crate::unify::snapshot_spec(st);
    let (st, direct) = crate::unify::unify_spec(st, recv, param, DEPTH_LIMIT);
    if direct.is_none() {
        st
    } else {
        let st = crate::unify::rollback_spec(st, snap);
        match crate::unify::shallow_spec(st, param, DEPTH_LIMIT) {
            Ty::Ptr { mutable: _, inner } => {
                let snap = crate::unify::snapshot_spec(st);
                let (st, through) = crate::unify::unify_spec(st, recv, &inner, DEPTH_LIMIT);
                if through.is_none() {
                    st
                } else {
                    let st = crate::unify::rollback_spec(st, snap);
                    let st = unify_pointee_spec(st, recv, param);
                    st
                }
            },
            _ => {
                let st = unify_pointee_spec(st, recv, param);
                st
            },
        }
    }
}

/// [`Inferer::unify_pointee`], as a mathematical function.
pub open spec fn unify_pointee_spec(st: InfererV, recv: &Ty, param: &Ty) -> InfererV {
    match crate::unify::shallow_spec(st, recv, DEPTH_LIMIT) {
        Ty::Ptr { mutable: _, inner } => {
            let (st, _clash) = crate::unify::unify_spec(st, &inner, param, DEPTH_LIMIT);
            st
        },
        _ => {
            st
        },
    }
}

/// [`Inferer::recv_adjust`], as a mathematical function.
pub open spec fn recv_adjust_spec(st: InfererV, param: &Ty, recv: &Ty) -> RecvAdjust {
    match (
        crate::unify::shallow_spec(st, param, DEPTH_LIMIT),
        crate::unify::shallow_spec(st, recv, DEPTH_LIMIT),
    ) {
        (Ty::Ptr { .. }, Ty::Ptr { .. }) => RecvAdjust::Keep,
        (Ty::Ptr { mutable, inner: _ }, _) => RecvAdjust::Ref { mutable: mutable },
        (_, Ty::Ptr { .. }) => RecvAdjust::Deref,
        _ => RecvAdjust::Keep,
    }
}

/// [`Inferer::infer_method_call`], as a mathematical function.
pub open spec fn infer_method_call_spec(
    st: InfererV,
    env: &InferCx,
    callee: NodeId,
    recv: &Ty,
    method: DefId,
    dispatch: MethodDispatch,
    args: &List<NodeId>,
    targs: &List<NodeId>,
    fuel: u64,
) -> (InfererV, Ty)
    decreases fuel,
{
    if fuel == 0 {
        (crate::unify::give_up_spec(st), Ty::Error)
    } else {
        infer_method_call_rebound_spec(
            st,
            env,
            callee,
            recv,
            method,
            dispatch,
            args,
            targs,
            None,
            (fuel - 1) as u64,
        )
    }
}

/// [`Inferer::rebound_tys`], as a mathematical function.
pub open spec fn rebound_tys_spec(st: InfererV, l: &List<Ty>, from: &Ty, to: &Ty) -> List<Ty>
    decreases l,
{
    match l {
        List::Nil => List::Nil,
        List::Cons(h, t) => List::Cons(
            crate::subst::rebind_ty_spec(&crate::unify::resolve_spec(st, h, DEPTH_LIMIT), from, to),
            Box::new(rebound_tys_spec(st, t, from, to)),
        ),
    }
}

/// [`rest_tys`], as a mathematical function.
pub open spec fn rest_tys_spec(l: &List<Ty>) -> List<Ty> {
    match l {
        List::Nil => List::Nil,
        List::Cons(_, t) => (**t),
    }
}

/// A list without its first element.
pub fn rest_tys(l: &List<Ty>) -> (r: List<Ty>)
    ensures
        r == rest_tys_spec(l),
{
    match l {
        List::Nil => List::Nil,
        List::Cons(_, t) => dup_tys(&**t),
    }
}

/// [`Inferer::infer_method_call_rebound`], as a mathematical function.
pub open spec fn infer_method_call_rebound_spec(
    st: InfererV,
    env: &InferCx,
    callee: NodeId,
    recv: &Ty,
    method: DefId,
    dispatch: MethodDispatch,
    args: &List<NodeId>,
    targs: &List<NodeId>,
    rebind: Option<(Ty, Ty)>,
    fuel: u64,
) -> (InfererV, Ty)
    decreases fuel,
{
    if fuel == 0 {
        (crate::unify::give_up_spec(st), Ty::Error)
    } else {
        let (st, sig) = crate::types::func_def_ty_spec(st, env, method, (fuel - 1) as u64);
        let (st, opened) = trait_self_subst_spec(st, env, callee, method, recv, (fuel - 1) as u64);
        let seed = match opened {
            Some(s) => s,
            None => crate::subst::no_subst_spec(),
        };
        let (st, (inst, _map)) = instantiate_parts_spec(
            st,
            env,
            callee,
            &sig,
            method,
            targs,
            seed,
            (fuel - 1) as u64,
        );
        let st = crate::unify::set_type_spec(st, callee, inst);
        match crate::unify::shallow_spec(st, &inst, DEPTH_LIMIT) {
            Ty::Func { params, ret, c: _ } => {
                let (st, taken) = match crate::list::nth_spec(&params, 0) {
                    Some(p) => {
                        let st = unify_self_param_spec(st, p, recv);
                        (
                            st,
                            Some(
                                (
                                    recv_adjust_spec(st, p, recv),
                                    crate::unify::resolve_spec(st, p, DEPTH_LIMIT),
                                ),
                            ),
                        )
                    },
                    None => (st, None),
                };
                let file = st.file;
                let (value_params, result) = match &rebind {
                    Some(r) => (
                        rest_tys_spec(&rebound_tys_spec(st, &params, &r.0, &r.1)),
                        crate::subst::rebind_ty_spec(
                            &crate::unify::resolve_spec(st, &ret, DEPTH_LIMIT),
                            &r.0,
                            &r.1,
                        ),
                    ),
                    None => (rest_tys_spec(&params), *ret),
                };
                let (st, binding) = bind_args_spec(st, env, callee, method, args);
                let st = match binding {
                    ArgBinding::Failed => {
                        let st = crate::exprs::infer_exprs_spec(st, env, args, (fuel - 1) as u64).0;
                        st
                    },
                    ArgBinding::AsWritten => {
                        let st = check_method_args_spec(
                            st,
                            env,
                            callee,
                            method,
                            &value_params,
                            &crate::lower::written_slots_spec(args),
                            (fuel - 1) as u64,
                        );
                        st
                    },
                    ArgBinding::Bound(slots) => {
                        let st = check_method_args_spec(
                            st,
                            env,
                            callee,
                            method,
                            &value_params,
                            &slots,
                            (fuel - 1) as u64,
                        );
                        st
                    },
                };
                let st = match taken {
                    Some((adjust, self_ty)) => {
                        let st = crate::unify::set_method_res_spec(
                            st,
                            file,
                            callee,
                            MethodRes {
                                method: method,
                                dispatch: dispatch,
                                adjust: adjust,
                                self_ty: self_ty,
                            },
                        );
                        st
                    },
                    None => {
                        st
                    },
                };
                (st, result)
            },
            _ => (st, Ty::Error),
        }
    }
}

/// [`Inferer::check_method_args`], as a mathematical function.
pub open spec fn check_method_args_spec(
    st: InfererV,
    env: &InferCx,
    callee: NodeId,
    method: DefId,
    params: &List<Ty>,
    slots: &List<Option<NodeId>>,
    fuel: u64,
) -> InfererV
    decreases fuel,
{
    if fuel == 0 {
        crate::unify::give_up_spec(st)
    } else {
        let (st, arg_tys) = infer_slots_spec(st, env, slots, params, 0, (fuel - 1) as u64);
        let total = crate::list::list_len_spec(params);
        let given = crate::list::list_len_spec(&arg_tys);
        if total == given {
            let st = expect_slots_spec(st, env, params, slots, &arg_tys, (fuel - 1) as u64);
            st
        } else {
            let required = required_arity_spec(env.tables, method, total);
            let takes = if required == total {
                crate::list::single_spec(Part::Num(total))
            } else {
                crate::list::list3_spec(Part::Num(required), Part::Text(" to "), Part::Num(total))
            };
            let st = crate::unify::report_spec(
                st,
                env,
                callee,
                crate::list::append_spec(
                    crate::diag::say_name_spec(
                        "`",
                        &crate::def::def_name_spec(env.tables, method),
                        "` takes ",
                    ),
                    crate::list::append_spec(
                        takes,
                        crate::list::list3_spec(
                            Part::Text(" argument(s) but "),
                            Part::Num(given),
                            Part::Text(" were supplied"),
                        ),
                    ),
                ),
            );
            st
        }
    }
}

// `Self` at a call of a trait's own declaration.

/// [`assoc_members`], as a mathematical function.
pub open spec fn assoc_members_spec(t: &Tables, l: &List<(Symbol, DefId)>) -> List<(Symbol, DefId)>
    decreases l,
{
    match l {
        List::Nil => List::Nil,
        List::Cons(h, rest) => if is_assoc_type_spec(t, h.1) {
            List::Cons((h.0, h.1), Box::new(assoc_members_spec(t, rest)))
        } else {
            assoc_members_spec(t, rest)
        },
    }
}

/// The associated types among some members.
pub fn assoc_members(t: &Tables, l: &List<(Symbol, DefId)>) -> (r: List<(Symbol, DefId)>)
    ensures
        r == assoc_members_spec(t, l),
    decreases l,
{
    match l {
        List::Nil => List::Nil,
        List::Cons(h, rest) => if is_assoc_type(t, h.1) {
            List::Cons((dup_sym(&h.0), h.1), Box::new(assoc_members(t, rest)))
        } else {
            assoc_members(t, rest)
        },
    }
}

/// [`is_assoc_type`], as a mathematical function.
pub open spec fn is_assoc_type_spec(t: &Tables, d: DefId) -> bool {
    match crate::def::get_def_spec(t, d) {
        Some(def) => def.assoc_bounds.is_some(),
        None => false,
    }
}

/// Whether a definition is an associated type.
pub fn is_assoc_type(t: &Tables, d: DefId) -> (r: bool)
    ensures
        r == is_assoc_type_spec(t, d),
{
    match get_def(t, d) {
        Some(def) => def.assoc_bounds.is_some(),
        None => false,
    }
}

/// [`assocs_of`], as a mathematical function.
pub open spec fn assocs_of_spec(t: &Tables, trait_def: DefId) -> List<(Symbol, DefId)> {
    match crate::def::get_def_spec(t, trait_def) {
        Some(d) => assoc_members_spec(t, &d.members),
        None => List::Nil,
    }
}

/// The associated types a trait declares.
pub fn assocs_of(t: &Tables, trait_def: DefId) -> (r: List<(Symbol, DefId)>)
    ensures
        r == assocs_of_spec(t, trait_def),
{
    match get_def(t, trait_def) {
        Some(d) => assoc_members(t, &d.members),
        None => List::Nil,
    }
}

/// [`Inferer::open_assocs`], as a mathematical function.
pub open spec fn open_assocs_spec(
    st: InfererV,
    l: &List<(Symbol, DefId)>,
    tys: List<(DefId, Ty)>,
) -> (InfererV, (List<(DefId, Ty)>, List<(Symbol, Ty)>))
    decreases l,
{
    match l {
        List::Nil => (st, (tys, List::Nil)),
        List::Cons(h, rest) => {
            let (st, out) = crate::unify::fresh_spec(st);
            let (st, (tys, outs)) = open_assocs_spec(st, rest, List::Cons((h.1, out), Box::new(tys)));
            (st, (tys, List::Cons((h.0, out), Box::new(outs))))
        },
    }
}

/// [`Inferer::open_trait_self`], as a mathematical function.
pub open spec fn open_trait_self_spec(
    st: InfererV,
    env: &InferCx,
    method: DefId,
) -> (InfererV, Option<OpenedSelf>) {
    match declaring_trait_spec(env.tables, method) {
        Some(trait_def) => {
            let (st, self_ty) = crate::unify::fresh_spec(st);
            let (st, (tys, outs)) = open_assocs_spec(
                st,
                &crate::subst::sort_by_name_spec(assocs_of_spec(env.tables, trait_def)),
                crate::list::single_spec((trait_def, self_ty)),
            );
            (
                st,
                Some(
                    OpenedSelf {
                        trait_def: trait_def,
                        self_ty: self_ty,
                        assocs: outs,
                        subst: crate::subst::of_types_spec(tys),
                    },
                ),
            )
        },
        None => (st, None),
    }
}

/// [`instantiated`], as a mathematical function.
pub open spec fn instantiated_spec(l: &List<DefId>, map: &Subst) -> List<Ty>
    decreases l,
{
    match l {
        List::Nil => List::Nil,
        List::Cons(p, rest) => List::Cons(
            match crate::subst::find_ty_spec(&map.tys, *p) {
                Some(t) => (*t),
                None => crate::ty::nominal_spec(*p),
            },
            Box::new(instantiated_spec(rest, map)),
        ),
    }
}

/// What each parameter was instantiated with, or the parameter itself.
pub fn instantiated(l: &List<DefId>, map: &Subst) -> (r: List<Ty>)
    ensures
        r == instantiated_spec(l, map),
    decreases l,
{
    match l {
        List::Nil => List::Nil,
        List::Cons(p, rest) => List::Cons(
            match find_ty(&map.tys, *p) {
                Some(t) => dup_ty(t),
                None => nominal(*p),
            },
            Box::new(instantiated(rest, map)),
        ),
    }
}

/// [`Inferer::project_assocs`], as a mathematical function.
pub open spec fn project_assocs_spec(
    st: InfererV,
    l: &List<(Symbol, Ty)>,
    self_ty: &Ty,
    trait_def: DefId,
    args: &List<Ty>,
    origin: NodeId,
) -> InfererV
    decreases l,
{
    match l {
        List::Nil => {
            st
        },
        List::Cons(h, rest) => {
            let st = crate::unify::register_spec(
                st,
                Obligation::Projection {
                    self_ty: (*self_ty),
                    trait_def: trait_def,
                    args: (*args),
                    assoc: h.0,
                    out: h.1,
                    origin: origin,
                    method: None,
                },
            );
            let st = project_assocs_spec(st, rest, self_ty, trait_def, args, origin);
            st
        },
    }
}

/// [`Inferer::settle_trait_self`], as a mathematical function.
pub open spec fn settle_trait_self_spec(
    st: InfererV,
    env: &InferCx,
    callee: NodeId,
    method: DefId,
    opened: OpenedSelf,
    map: &Subst,
) -> InfererV {
    let args = instantiated_spec(&crate::decls::declared_generics_spec(st, env, opened.trait_def), map);
    let st = project_assocs_spec(st, &opened.assocs, &opened.self_ty, opened.trait_def, &args, callee);
    let st = crate::unify::register_spec(
        st,
        Obligation::Trait {
            self_ty: opened.self_ty,
            trait_def: opened.trait_def,
            args: args,
            origin: callee,
            stamp: Some(crate::def::def_name_spec(env.tables, method)),
        },
    );
    st
}

/// [`Inferer::self_head`], as a mathematical function.
pub open spec fn self_head_spec(st: InfererV, env: &InferCx, method: DefId, recv: &Ty) -> Ty {
    match crate::unify::shallow_spec(st, recv, DEPTH_LIMIT) {
        Ty::Ptr { mutable, inner } => match crate::unify::shallow_spec(st, &inner, DEPTH_LIMIT) {
            Ty::Dyn { def, assoc } => if crate::lower::sized_self_spec(env.tables, method) {
                Ty::Ptr { mutable: mutable, inner: inner }
            } else {
                Ty::Dyn { def: def, assoc: assoc }
            },
            other => other,
        },
        other => other,
    }
}

/// [`pinned_assocs`], as a mathematical function.
pub open spec fn pinned_assocs_spec(
    t: &Tables,
    trait_def: DefId,
    l: &List<(Symbol, Ty)>,
    tys: List<(DefId, Ty)>,
) -> List<(DefId, Ty)>
    decreases l,
{
    match l {
        List::Nil => tys,
        List::Cons(h, rest) => match crate::def::member_of_spec(t, trait_def, &h.0) {
            Some(adef) => pinned_assocs_spec(
                t,
                trait_def,
                rest,
                List::Cons((crate::def::resolve_alias_spec(t, adef), h.1), Box::new(tys)),
            ),
            None => pinned_assocs_spec(t, trait_def, rest, tys),
        },
    }
}

/// Bind the associated types a trait object pins.
pub fn pinned_assocs(
    t: &Tables,
    trait_def: DefId,
    l: &List<(Symbol, Ty)>,
    tys: List<(DefId, Ty)>,
) -> (r: List<(DefId, Ty)>)
    ensures
        r == pinned_assocs_spec(t, trait_def, l, tys),
    decreases l,
{
    match l {
        List::Nil => tys,
        List::Cons(h, rest) => match member_of(t, trait_def, &h.0) {
            Some(adef) => pinned_assocs(
                t,
                trait_def,
                rest,
                List::Cons((resolve_alias(t, adef), dup_ty(&h.1)), Box::new(tys)),
            ),
            None => pinned_assocs(t, trait_def, rest, tys),
        },
    }
}

/// [`Inferer::minted_assocs`], as a mathematical function.
pub open spec fn minted_assocs_spec(
    st: InfererV,
    env: &InferCx,
    l: &List<(Symbol, DefId)>,
    head: DefId,
    tys: List<(DefId, Ty)>,
    fuel: u64,
) -> (InfererV, List<(DefId, Ty)>)
    decreases fuel, l,
{
    if fuel == 0 {
        (crate::unify::give_up_spec(st), tys)
    } else {
        match l {
            List::Nil => (st, tys),
            List::Cons(h, rest) => match crate::def::member_of_spec(env.tables, head, &h.0) {
                Some(bound) => {
                    let (st, t) = crate::types::param_ty_spec(
                        st,
                        env,
                        crate::def::resolve_alias_spec(env.tables, bound),
                        (fuel - 1) as u64,
                    );
                    minted_assocs_spec(st, env, rest, head, List::Cons((h.1, t), Box::new(tys)), fuel)
                },
                None => minted_assocs_spec(st, env, rest, head, tys, fuel),
            },
        }
    }
}

/// [`is_param_like`], as a mathematical function.
pub open spec fn is_param_like_spec(t: &Tables, ty: &Ty) -> Option<DefId> {
    match ty {
        Ty::Nominal { def, args: _ } => match crate::def::def_kind_spec(t, *def) {
            DefKind::TypeParam => Some(*def),
            DefKind::Trait => Some(*def),
            _ => None,
        },
        _ => None,
    }
}

/// Whether a type is a parameter or a trait, which answer for their associated
/// types from their own namespaces.
pub fn is_param_like(t: &Tables, ty: &Ty) -> (r: Option<DefId>)
    ensures
        r == is_param_like_spec(t, ty),
{
    match ty {
        Ty::Nominal { def, args: _ } => match def_kind(t, *def) {
            DefKind::TypeParam => Some(*def),
            DefKind::Trait => Some(*def),
            _ => None,
        },
        _ => None,
    }
}

/// [`Inferer::trait_self_subst`], as a mathematical function.
pub open spec fn trait_self_subst_spec(
    st: InfererV,
    env: &InferCx,
    at: NodeId,
    method: DefId,
    recv: &Ty,
    fuel: u64,
) -> (InfererV, Option<Subst>)
    decreases fuel,
{
    if fuel == 0 {
        (crate::unify::give_up_spec(st), None)
    } else {
        match declaring_trait_spec(env.tables, method) {
            Some(parent) => {
                let head = self_head_spec(st, env, method, recv);
                if crate::subst::is_error_spec(&head) || crate::subst::is_var_spec(&head) {
                    (st, None)
                } else {
                    let tys = crate::list::single_spec((parent, head));
                    match is_param_like_spec(env.tables, &head) {
                        Some(head_def) => {
                            let (st, tys) = minted_assocs_spec(
                                st,
                                env,
                                &assocs_of_spec(env.tables, parent),
                                head_def,
                                tys,
                                (fuel - 1) as u64,
                            );
                            (st, Some(crate::subst::of_types_spec(tys)))
                        },
                        None => {
                            match &head {
                                Ty::Dyn { def: _, assoc } => (
                                    st,
                                    Some(
                                        crate::subst::of_types_spec(
                                            pinned_assocs_spec(env.tables, parent, assoc, tys),
                                        ),
                                    ),
                                ),
                                Ty::Nominal { .. } => {
                                    let (st, tys) = concrete_assocs_spec(st, env, at, parent, &head, tys);
                                    (st, Some(crate::subst::of_types_spec(tys)))
                                },
                                Ty::Ptr { .. } => {
                                    let (st, tys) = concrete_assocs_spec(st, env, at, parent, &head, tys);
                                    (st, Some(crate::subst::of_types_spec(tys)))
                                },
                                _ => (st, Some(crate::subst::of_types_spec(tys))),
                            }
                        },
                    }
                }
            },
            _ => {
                (st, None)
            },
        }
    }
}

/// [`Inferer::concrete_assocs`], as a mathematical function.
pub open spec fn concrete_assocs_spec(
    st: InfererV,
    env: &InferCx,
    at: NodeId,
    parent: DefId,
    head: &Ty,
    tys: List<(DefId, Ty)>,
) -> (InfererV, List<(DefId, Ty)>) {
    let assocs = assocs_of_spec(env.tables, parent);
    let generics = crate::decls::declared_generics_spec(st, env, parent);
    let (st, args) = crate::unify::fresh_each_spec(st, &generics);
    let (st, (tys, outs)) = open_assocs_spec(st, &assocs, tys);
    let st = project_assocs_spec(st, &outs, head, parent, &args, at);
    (st, tys)
}

// Instantiation.

/// [`is_hole`], as a mathematical function.
pub open spec fn is_hole_spec(k: Option<&NodeKind>) -> bool {
    match k {
        Some(NodeKind::TypeHole) => true,
        _ => false,
    }
}

/// Whether a node leaves its slot to inference.
pub fn is_hole(k: Option<&NodeKind>) -> (r: bool)
    ensures
        r == is_hole_spec(k),
{
    match k {
        Some(NodeKind::TypeHole) => true,
        _ => false,
    }
}

/// [`Inferer::explicit_arg`], as a mathematical function.
pub open spec fn explicit_arg_spec(st: InfererV, env: &InferCx, l: &List<NodeId>, i: u64) -> Option<NodeId> {
    match crate::list::nth_spec(l, i) {
        Some(n) => if is_hole_spec(crate::def::kind_of_spec(env.tables, st.file, *n)) {
            None
        } else {
            Some(*n)
        },
        None => None,
    }
}

/// [`Inferer::bind_params`], as a mathematical function.
pub open spec fn bind_params_spec(
    st: InfererV,
    env: &InferCx,
    params: &List<DefId>,
    explicit: &List<NodeId>,
    i: u64,
    map: Subst,
    fuel: u64,
) -> (InfererV, Subst)
    decreases fuel, params,
{
    if fuel == 0 {
        (crate::unify::give_up_spec(st), map)
    } else {
        match params {
            List::Nil => (st, map),
            List::Cons(p, rest) => {
                let arg = explicit_arg_spec(st, env, explicit, i);
                let (st, next) = if crate::def::def_kind_spec(env.tables, *p) == DefKind::ConstParam {
                    let (st, k) = match arg {
                        Some(a) => crate::types::const_arg_spec(st, env, *p, a, (fuel - 1) as u64),
                        None => crate::unify::fresh_const_spec(st),
                    };
                    (st, crate::subst::bind_const_spec(map, *p, k))
                } else {
                    let (st, t) = match arg {
                        Some(a) => crate::types::ty_from_node_spec(st, env, a, (fuel - 1) as u64),
                        None => crate::unify::fresh_spec(st),
                    };
                    (st, crate::subst::bind_ty_spec(map, *p, t))
                };
                bind_params_spec(st, env, rest, explicit, crate::list::succ_spec(i), next, fuel)
            },
        }
    }
}

/// [`Inferer::open_types`], as a mathematical function.
pub open spec fn open_types_spec(st: InfererV, l: &List<DefId>, map: Subst) -> (InfererV, Subst)
    decreases l,
{
    match l {
        List::Nil => (st, map),
        List::Cons(d, rest) => if crate::subst::find_ty_spec(&map.tys, *d).is_some() {
            open_types_spec(st, rest, map)
        } else {
            let (st, t) = crate::unify::fresh_spec(st);
            open_types_spec(st, rest, crate::subst::bind_ty_spec(map, *d, t))
        },
    }
}

/// [`Inferer::open_consts`], as a mathematical function.
pub open spec fn open_consts_spec(st: InfererV, l: &List<DefId>, map: Subst) -> (InfererV, Subst)
    decreases l,
{
    match l {
        List::Nil => (st, map),
        List::Cons(d, rest) => if crate::subst::find_const_spec(&map.consts, *d).is_some() {
            open_consts_spec(st, rest, map)
        } else {
            let (st, k) = crate::unify::fresh_const_spec(st);
            open_consts_spec(st, rest, crate::subst::bind_const_spec(map, *d, k))
        },
    }
}

/// [`Inferer::register_projections`], as a mathematical function.
pub open spec fn register_projections_spec(
    st: InfererV,
    env: &InferCx,
    l: &List<DefId>,
    at: NodeId,
    map: &Subst,
) -> InfererV
    decreases l,
{
    match l {
        List::Nil => {
            st
        },
        List::Cons(d, rest) => {
            let st = match crate::solve::projection_of_spec(env.tables, *d) {
                Some(p) => match (
                    crate::subst::bound_to_spec(map, p.base),
                    crate::subst::bound_to_spec(map, *d),
                ) {
                    (Some(base), Some(out)) => {
                        let st = crate::unify::register_spec(
                            st,
                            Obligation::Projection {
                                self_ty: base,
                                trait_def: p.trait_def,
                                args: List::Nil,
                                assoc: p.assoc,
                                out: out,
                                origin: at,
                                method: None,
                            },
                        );
                        st
                    },
                    _ => {
                        st
                    },
                },
                None => {
                    st
                },
            };
            let st = register_projections_spec(st, env, rest, at, map);
            st
        },
    }
}

/// [`Inferer::instantiate_parts`], as a mathematical function.
pub open spec fn instantiate_parts_spec(
    st: InfererV,
    env: &InferCx,
    at: NodeId,
    sig: &Ty,
    def: DefId,
    targs: &List<NodeId>,
    seed: Subst,
    fuel: u64,
) -> (InfererV, (Ty, Subst))
    decreases fuel,
{
    if fuel == 0 {
        (crate::unify::give_up_spec(st), (Ty::Error, crate::subst::no_subst_spec()))
    } else {
        let params = crate::decls::declared_generics_spec(st, env, def);
        let explicit = crate::types::plain_args_spec(env.tables, st.file, targs);
        let st = match crate::list::nth_spec(&explicit, crate::list::list_len_spec(&params)) {
            Some(anchor) => {
                let st = crate::unify::report_spec(
                    st,
                    env,
                    *anchor,
                    crate::list::append_spec(
                        crate::list::list3_spec(Part::Text("`"), Part::Path(def), Part::Text("` takes ")),
                        crate::list::list4_spec(
                            Part::Num(crate::list::list_len_spec(&params)),
                            Part::Text(" generic argument(s) but "),
                            Part::Num(crate::list::list_len_spec(&explicit)),
                            Part::Text(" were supplied"),
                        ),
                    ),
                );
                st
            },
            None => {
                st
            },
        };
        let st = crate::types::record_generic_args_in_spec(st, env, st.file, targs, (fuel - 1) as u64);
        let (st, map) = bind_params_spec(st, env, &params, &explicit, 0, seed, (fuel - 1) as u64);
        let (tys, consts) = collect_generic_params_spec(env.tables, sig, List::Nil, List::Nil);
        let (st, map) = open_types_spec(st, &tys, map);
        let (st, map) = open_consts_spec(st, &consts, map);
        let order = instantiation_order_spec(env.tables, &params, sig);
        let (st, map) = open_types_spec(st, &order, map);
        let st = register_projections_spec(st, env, &order, at, &map);
        let st = crate::solve::register_bounds_spec(st, env, at, &params, &map, (fuel - 1) as u64);
        let st = if !crate::list::is_empty_spec(&order) {
            let st = crate::unify::set_instantiation_spec(
                st,
                st.file,
                at,
                Instantiation(crate::exprs::generic_args_spec(&order, &map)),
            );
            st
        } else {
            st
        };
        (st, (crate::subst::subst_ty_spec(sig, &map), map))
    }
}

/// [`instantiation_order`], as a mathematical function.
pub open spec fn instantiation_order_spec(t: &Tables, listed: &List<DefId>, sig: &Ty) -> List<DefId> {
    let (tys, consts) = collect_generic_params_spec(t, sig, List::Nil, List::Nil);
    let mentioned = crate::lower::merge_defs_spec(crate::lower::merge_defs_spec((*listed), &tys), &consts);
    crate::solve::close_over_projections_spec(t, mentioned, 0, DEPTH_LIMIT)
}

/// The parameters a use binds, in order: those the declaration lists, then
/// whatever else its signature mentions, then the associated types of those.
pub fn instantiation_order(t: &Tables, listed: &List<DefId>, sig: &Ty) -> (r: List<DefId>)
    ensures
        r == instantiation_order_spec(t, listed, sig),
{
    let (tys, consts) = collect_generic_params(t, sig, List::Nil, List::Nil);
    let mentioned = merge_defs(merge_defs(dup_defs(listed), &tys), &consts);
    close_over_projections(t, mentioned, 0, DEPTH_LIMIT)
}

/// [`add_def`], as a mathematical function.
pub open spec fn add_def_spec(l: List<DefId>, d: DefId) -> List<DefId> {
    if crate::def::def_in_spec(&l, d) {
        l
    } else {
        crate::list::append_spec(l, crate::list::single_spec(d))
    }
}

/// Add a definition to a list that does not hold it.
pub fn add_def(l: List<DefId>, d: DefId) -> (r: List<DefId>)
    ensures
        r == add_def_spec(l, d),
{
    if def_in(&l, d) {
        l
    } else {
        append(l, single(d))
    }
}

/// [`is_open_param`], as a mathematical function.
pub open spec fn is_open_param_spec(t: &Tables, d: DefId) -> bool {
    match crate::def::get_def_spec(t, d) {
        Some(def) => def.kind == DefKind::TypeParam && !def.opaque,
        None => false,
    }
}

/// Whether a definition is a type parameter that an instantiation binds: one an
/// `impl` return type stands for is not.
pub fn is_open_param(t: &Tables, d: DefId) -> (r: bool)
    ensures
        r == is_open_param_spec(t, d),
{
    match get_def(t, d) {
        Some(def) => def.kind == DefKind::TypeParam && !def.opaque,
        None => false,
    }
}

/// [`collect_generic_params`], as a mathematical function.
pub open spec fn collect_generic_params_spec(
    t: &Tables,
    ty: &Ty,
    out: List<DefId>,
    consts: List<DefId>,
) -> (List<DefId>, List<DefId>)
    decreases ty,
{
    match ty {
        Ty::Nominal { def, args } => {
            let next = if crate::list::is_empty_spec(args) && is_open_param_spec(t, *def) {
                add_def_spec(out, *def)
            } else {
                out
            };
            collect_in_tys_spec(t, args, next, consts)
        },
        Ty::Array { len, mutable: _, inner } => {
            let next = match len {
                Const::Param(d) => add_def_spec(consts, *d),
                _ => consts,
            };
            collect_generic_params_spec(t, inner, out, next)
        },
        Ty::Int { signed: _, width } => match width {
            Const::Param(d) => (out, add_def_spec(consts, *d)),
            _ => (out, consts),
        },
        Ty::Ptr { mutable: _, inner } => collect_generic_params_spec(t, inner, out, consts),
        Ty::Slice { mutable: _, inner } => collect_generic_params_spec(t, inner, out, consts),
        Ty::Tuple(elems) => collect_in_tys_spec(t, elems, out, consts),
        Ty::Func { params, ret, c: _ } => {
            let (o, k) = collect_in_tys_spec(t, params, out, consts);
            collect_generic_params_spec(t, ret, o, k)
        },
        Ty::Dyn { def: _, assoc } => collect_in_named_spec(t, assoc, out, consts),
        Ty::Struct(fields) => collect_in_named_spec(t, fields, out, consts),
        _ => (out, consts),
    }
}

/// Every generic parameter a type mentions, split by kind and in first-seen
/// order.
pub fn collect_generic_params(
    t: &Tables,
    ty: &Ty,
    out: List<DefId>,
    consts: List<DefId>,
) -> (r: (List<DefId>, List<DefId>))
    ensures
        r == collect_generic_params_spec(t, ty, out, consts),
    decreases ty,
{
    match ty {
        Ty::Nominal { def, args } => {
            let next = if is_empty(args) && is_open_param(t, *def) {
                add_def(out, *def)
            } else {
                out
            };
            collect_in_tys(t, args, next, consts)
        },
        Ty::Array { len, mutable: _, inner } => {
            let next = match len {
                Const::Param(d) => add_def(consts, *d),
                _ => consts,
            };
            collect_generic_params(t, inner, out, next)
        },
        Ty::Int { signed: _, width } => match width {
            Const::Param(d) => (out, add_def(consts, *d)),
            _ => (out, consts),
        },
        Ty::Ptr { mutable: _, inner } => collect_generic_params(t, inner, out, consts),
        Ty::Slice { mutable: _, inner } => collect_generic_params(t, inner, out, consts),
        Ty::Tuple(elems) => collect_in_tys(t, elems, out, consts),
        Ty::Func { params, ret, c: _ } => {
            let (o, k) = collect_in_tys(t, params, out, consts);
            collect_generic_params(t, ret, o, k)
        },
        Ty::Dyn { def: _, assoc } => collect_in_named(t, assoc, out, consts),
        Ty::Struct(fields) => collect_in_named(t, fields, out, consts),
        _ => (out, consts),
    }
}

/// [`collect_in_tys`], as a mathematical function.
pub open spec fn collect_in_tys_spec(
    t: &Tables,
    l: &List<Ty>,
    out: List<DefId>,
    consts: List<DefId>,
) -> (List<DefId>, List<DefId>)
    decreases l,
{
    match l {
        List::Nil => (out, consts),
        List::Cons(h, rest) => {
            let (o, k) = collect_generic_params_spec(t, h, out, consts);
            collect_in_tys_spec(t, rest, o, k)
        },
    }
}

/// The same over a list of types.
pub fn collect_in_tys(
    t: &Tables,
    l: &List<Ty>,
    out: List<DefId>,
    consts: List<DefId>,
) -> (r: (List<DefId>, List<DefId>))
    ensures
        r == collect_in_tys_spec(t, l, out, consts),
    decreases l,
{
    match l {
        List::Nil => (out, consts),
        List::Cons(h, rest) => {
            let (o, k) = collect_generic_params(t, h, out, consts);
            collect_in_tys(t, rest, o, k)
        },
    }
}

/// [`collect_in_named`], as a mathematical function.
pub open spec fn collect_in_named_spec(
    t: &Tables,
    l: &List<(Symbol, Ty)>,
    out: List<DefId>,
    consts: List<DefId>,
) -> (List<DefId>, List<DefId>)
    decreases l,
{
    match l {
        List::Nil => (out, consts),
        List::Cons(h, rest) => {
            let (o, k) = collect_generic_params_spec(t, &h.1, out, consts);
            collect_in_named_spec(t, rest, o, k)
        },
    }
}

/// The same over a list of named types.
pub fn collect_in_named(
    t: &Tables,
    l: &List<(Symbol, Ty)>,
    out: List<DefId>,
    consts: List<DefId>,
) -> (r: (List<DefId>, List<DefId>))
    ensures
        r == collect_in_named_spec(t, l, out, consts),
    decreases l,
{
    match l {
        List::Nil => (out, consts),
        List::Cons(h, rest) => {
            let (o, k) = collect_generic_params(t, &h.1, out, consts);
            collect_in_named(t, rest, o, k)
        },
    }
}

/// [`Inferer::intrinsic_result`], as a mathematical function.
pub open spec fn intrinsic_result_spec(
    st: InfererV,
    env: &InferCx,
    def: DefId,
    result: Ty,
    slots: &List<Option<NodeId>>,
    fuel: u64,
) -> (InfererV, Ty)
    decreases fuel,
{
    if fuel == 0 {
        (crate::unify::give_up_spec(st), Ty::Error)
    } else {
        match special_of_spec(env.tables, def) {
            Some(Special::MutableArg) => match crate::unify::shallow_spec(st, &result, DEPTH_LIMIT) {
                Ty::Slice { mutable: _, inner } => (st, Ty::Slice { mutable: true, inner: inner }),
                Ty::Ptr { mutable: _, inner } => (st, Ty::Ptr { mutable: true, inner: inner }),
                other => (st, other),
            },
            Some(Special::SequenceArg) => {
                let st = match only_slot_spec(slots) {
                    Some(arg) => {
                        let (st, arg_ty) = crate::solve::node_ty_spec(st, env, arg, (fuel - 1) as u64);
                        let ty = crate::unify::autoderef_spec(st, &arg_ty, DEPTH_LIMIT);
                        if !crate::subst::has_len_spec(&ty)
                            && !crate::subst::is_error_spec(&ty)
                            && !crate::subst::is_var_spec(&ty) {
                            let st = crate::unify::report_spec(
                                st,
                                env,
                                arg,
                                crate::diag::say_ty_spec(
                                    "`len` needs an array or a slice, not `",
                                    crate::unify::resolve_spec(st, &ty, DEPTH_LIMIT),
                                    "`",
                                ),
                            );
                            st
                        } else {
                            st
                        }
                    },
                    None => {
                        st
                    },
                };
                (st, result)
            },
            None => (st, result),
        }
    }
}

/// [`only_slot`], as a mathematical function.
pub open spec fn only_slot_spec(l: &List<Option<NodeId>>) -> Option<NodeId> {
    match l {
        List::Cons(Some(n), t) => if crate::list::is_empty_spec(t) {
            Some(*n)
        } else {
            None
        },
        _ => None,
    }
}

/// The one filled slot of a list that has one.
pub fn only_slot(l: &List<Option<NodeId>>) -> (r: Option<NodeId>)
    ensures
        r == only_slot_spec(l),
{
    match l {
        List::Cons(Some(n), t) => if is_empty(t) {
            Some(*n)
        } else {
            None
        },
        _ => None,
    }
}

/// [`special_of`], as a mathematical function.
pub open spec fn special_of_spec(t: &Tables, def: DefId) -> Option<Special> {
    match crate::def::intrinsic_of_spec(t, def) {
        Some(tag) => crate::intrinsics::special_rule_spec(&tag),
        None => None,
    }
}

/// The rule an intrinsic definition needs.
pub fn special_of(t: &Tables, def: DefId) -> (r: Option<Special>)
    ensures
        r == special_of_spec(t, def),
{
    match intrinsic_of(t, def) {
        Some(tag) => special_rule(&tag),
        None => None,
    }
}

impl Inferer {
    /// Type a call. A callee that names a type constructs it, a member access on a
    /// value is a method call, a resolved function is called directly, and anything
    /// else is called through its value.
    pub fn infer_call(&mut self, env: &InferCx, callee: NodeId, args: &List<NodeId>, fuel: u64) -> (r: Ty)
        ensures
            (final(self)@, r) == infer_call_spec(old(self)@, env, callee, args, fuel),
            crate::keeping::kept(old(self)@, final(self)@),
        decreases fuel,
    {
        if fuel == 0 {
            self.give_up();
            return Ty::Error;
        }
        let (callee, targs) = peel_generics(env.tables, self.file, callee);
        match self.callee_type_def(env, callee) {
            Some(def) => {
                let nominal_ty = self.nominal_of(env, def);
                self.check_construction(env, callee, &nominal_ty, args, (fuel - 1) as u64);
                self.set_type(callee, dup_ty(&nominal_ty));
                return nominal_ty;
            },
            None => {},
        }
        match kind_of(env.tables, self.file, callee) {
            Some(NodeKind::FieldAccess { base, name }) => {
                if self.failed_resolution(callee) {
                    let _ = self.infer_exprs(env, args, (fuel - 1) as u64);
                    return Ty::Error;
                }
                if self.resolved_def(env, callee).is_none() {
                    let done = self.infer_member_call(
                        env,
                        callee,
                        *base,
                        name,
                        args,
                        &targs,
                        (fuel - 1) as u64,
                    );
                    return match done {
                        Some(t) => t,
                        None => self.infer_value_call(env, callee, args, (fuel - 1) as u64),
                    };
                }
                return self.infer_named_call(env, callee, args, &targs, (fuel - 1) as u64);
            },
            _ => {},
        }
        self.infer_named_call(env, callee, args, &targs, (fuel - 1) as u64)
    }

    /// A call through a value: what it is called as is decided by its type.
    pub fn infer_value_call(
        &mut self,
        env: &InferCx,
        callee: NodeId,
        args: &List<NodeId>,
        fuel: u64,
    ) -> (r: Ty)
        ensures
            (final(self)@, r) == infer_value_call_spec(old(self)@, env, callee, args, fuel),
            crate::keeping::kept(old(self)@, final(self)@),
        decreases fuel,
    {
        if fuel == 0 {
            self.give_up();
            return Ty::Error;
        }
        let cty = self.infer_expr(env, callee, (fuel - 1) as u64);
        let cty = self.settle(env, &cty, (fuel - 1) as u64);
        self.reject_named_args(
            env,
            args,
            "this call goes through a function value, which has parameter types but no parameter names",
        );
        self.apply_call_with(env, callee, &cty, &written_slots(args), false, (fuel - 1) as u64)
    }

    /// A call of whatever a name resolved to.
    pub fn infer_named_call(
        &mut self,
        env: &InferCx,
        callee: NodeId,
        args: &List<NodeId>,
        targs: &List<NodeId>,
        fuel: u64,
    ) -> (r: Ty)
        ensures
            (final(self)@, r) == infer_named_call_spec(old(self)@, env, callee, args, targs, fuel),
            crate::keeping::kept(old(self)@, final(self)@),
        decreases fuel,
    {
        if fuel == 0 {
            self.give_up();
            return Ty::Error;
        }
        match self.resolved_def(env, callee) {
            Some(named) => {
                let chosen = if def_kind(env.tables, named) == DefKind::Overload {
                    self.select_overload(env, callee, named, args, (fuel - 1) as u64)
                } else {
                    Some(named)
                };
                match chosen {
                    Some(def) => if def_kind(env.tables, def) == DefKind::Func {
                        self.infer_func_call(env, callee, def, args, targs, (fuel - 1) as u64)
                    } else {
                        self.infer_value_call(env, callee, args, (fuel - 1) as u64)
                    },
                    None => {
                        let _ = self.infer_exprs(env, args, (fuel - 1) as u64);
                        Ty::Error
                    },
                }
            },
            None => self.infer_value_call(env, callee, args, (fuel - 1) as u64),
        }
    }

    /// A direct call: the signature is instantiated, the arguments are bound to its
    /// parameters, and then held to them.
    pub fn infer_func_call(
        &mut self,
        env: &InferCx,
        callee: NodeId,
        def: DefId,
        args: &List<NodeId>,
        targs: &List<NodeId>,
        fuel: u64,
    ) -> (r: Ty)
        ensures
            (final(self)@, r) == infer_func_call_spec(old(self)@, env, callee, def, args, targs, fuel),
            crate::keeping::kept(old(self)@, final(self)@),
        decreases fuel,
    {
        if fuel == 0 {
            self.give_up();
            return Ty::Error;
        }
        let sig = self.func_def_ty(env, def, (fuel - 1) as u64);
        let opened = self.open_trait_self(env, def);
        let seed = match &opened {
            Some(o) => dup_subst(&o.subst),
            None => no_subst(),
        };
        let (inst, map) = self.instantiate_parts(env, callee, &sig, def, targs, seed, (fuel - 1) as u64);
        match opened {
            Some(o) => {
                self.settle_trait_self(env, callee, def, o, &map);
            },
            None => {},
        }
        self.set_type(callee, dup_ty(&inst));
        let binding = self.bind_args(env, callee, def, args);
        match binding {
            ArgBinding::Failed => {
                let _ = self.infer_exprs(env, args, (fuel - 1) as u64);
                ret_of(self.shallow(&inst, DEPTH_LIMIT))
            },
            ArgBinding::AsWritten => self.finish_func_call(
                env,
                callee,
                def,
                &inst,
                written_slots(args),
                (fuel - 1) as u64,
            ),
            ArgBinding::Bound(slots) => self.finish_func_call(
                env,
                callee,
                def,
                &inst,
                slots,
                (fuel - 1) as u64,
            ),
        }
    }

    /// Hold a direct call's arguments to its signature.
    pub fn finish_func_call(
        &mut self,
        env: &InferCx,
        callee: NodeId,
        def: DefId,
        inst: &Ty,
        slots: List<Option<NodeId>>,
        fuel: u64,
    ) -> (r: Ty)
        ensures
            (final(self)@, r) == finish_func_call_spec(old(self)@, env, callee, def, inst, slots, fuel),
            crate::keeping::kept(old(self)@, final(self)@),
        decreases fuel,
    {
        if fuel == 0 {
            self.give_up();
            return Ty::Error;
        }
        let result = self.apply_call_with(
            env,
            callee,
            inst,
            &slots,
            is_c_variadic(env.tables, def),
            (fuel - 1) as u64,
        );
        self.intrinsic_result(env, def, result, &slots, (fuel - 1) as u64)
    }

    /// A method called on a value. It is looked for in this order, and the first place
    /// that has one answers: the namespace of the type itself, the bounds of a type
    /// parameter, the trait of a trait object, the impls, the `@using` field, and last
    /// the type it is distinct from. `None` where there is no such method but there
    /// may be a field to call.
    pub fn infer_member_call(
        &mut self,
        env: &InferCx,
        callee: NodeId,
        base: NodeId,
        name: &Symbol,
        args: &List<NodeId>,
        targs: &List<NodeId>,
        fuel: u64,
    ) -> (r: Option<Ty>)
        ensures
            (final(self)@, r) == infer_member_call_spec(
                old(self)@,
                env,
                callee,
                base,
                name,
                args,
                targs,
                fuel,
            ),
            crate::keeping::kept(old(self)@, final(self)@),
        decreases fuel,
    {
        if fuel == 0 {
            self.give_up();
            return None;
        }
        let recv = self.infer_expr(env, base, (fuel - 1) as u64);
        let recv = self.pin_str(&recv);
        let recv = self.settle(env, &recv, (fuel - 1) as u64);
        let settled_lit = self.var_kind(&recv);
        let recv = self.pin_numeric(&recv);
        match self.method_def(env, &recv, name) {
            Some(m) => {
                let t = self.infer_method_call(
                    env,
                    callee,
                    &recv,
                    m,
                    MethodDispatch::Static,
                    args,
                    targs,
                    (fuel - 1) as u64,
                );
                return Some(t);
            },
            None => {},
        }
        let bound = self.bound_method_def(env, &recv, name, (fuel - 1) as u64);
        match bound {
            Some((m, bound_args)) => {
                let d = bound_dispatch(env.tables, m, bound_args);
                let t = self.infer_method_call(env, callee, &recv, m, d, args, targs, (fuel - 1) as u64);
                return Some(t);
            },
            None => {},
        }
        // Before the impls: a blanket impl matches a trait object as happily as
        // anything else.
        match self.dyn_method_def(env, &recv, name) {
            Some(m) => {
                let t = self.infer_dyn_call(env, callee, &recv, m, name, args, targs, (fuel - 1) as u64);
                return Some(t);
            },
            None => {},
        }
        self.infer_supplied_call(env, callee, base, recv, name, args, targs, settled_lit, (fuel - 1) as u64)
    }

    /// A method the type itself says nothing of: an impl's, the `@using` field's, and
    /// last the one of the type it is distinct from.
    pub fn infer_supplied_call(
        &mut self,
        env: &InferCx,
        callee: NodeId,
        base: NodeId,
        recv: Ty,
        name: &Symbol,
        args: &List<NodeId>,
        targs: &List<NodeId>,
        settled_lit: Option<TyVarKind>,
        fuel: u64,
    ) -> (r: Option<Ty>)
        ensures
            (final(self)@, r) == infer_supplied_call_spec(
                old(self)@,
                env,
                callee,
                base,
                recv,
                name,
                args,
                targs,
                settled_lit,
                fuel,
            ),
            crate::keeping::kept(old(self)@, final(self)@),
        decreases fuel,
    {
        if fuel == 0 {
            self.give_up();
            return None;
        }
        let written = self.impl_method_def(env, &recv, name, (fuel - 1) as u64);
        match written {
            Some(m) => {
                let t = self.infer_method_call(
                    env,
                    callee,
                    &recv,
                    m,
                    MethodDispatch::Static,
                    args,
                    targs,
                    (fuel - 1) as u64,
                );
                return Some(t);
            },
            None => {},
        }
        let using = self.using_method_def(env, &recv, name, (fuel - 1) as u64);
        match using {
            Some((m, up)) => {
                self.set_upcast(self.file, base, dup_upcast(&up));
                let t = self.infer_method_call(
                    env,
                    callee,
                    &up.target,
                    m,
                    MethodDispatch::Static,
                    args,
                    targs,
                    (fuel - 1) as u64,
                );
                return Some(t);
            },
            None => {},
        }
        let inherited = self.distinct_method_def(env, &recv, name, (fuel - 1) as u64);
        match inherited {
            Some((m, repr)) => {
                self.set_distinct_recv(self.file, base, DistinctRecv { repr: dup_ty(&repr) });
                let distinct = self.shallow(&recv, DEPTH_LIMIT);
                let t = self.infer_method_call_rebound(
                    env,
                    callee,
                    &repr,
                    m,
                    MethodDispatch::Static,
                    args,
                    targs,
                    Some((dup_ty(&repr), distinct)),
                    (fuel - 1) as u64,
                );
                return Some(t);
            },
            None => {},
        }
        self.no_such_method(env, callee, &recv, name, args, settled_lit, (fuel - 1) as u64)
    }

    /// Nothing found. A field holding a function is still a valid callee, so only
    /// complain where there is no such member at all.
    pub fn no_such_method(
        &mut self,
        env: &InferCx,
        callee: NodeId,
        recv: &Ty,
        name: &Symbol,
        args: &List<NodeId>,
        settled_lit: Option<TyVarKind>,
        fuel: u64,
    ) -> (r: Option<Ty>)
        ensures
            (final(self)@, r) == no_such_method_spec(
                old(self)@,
                env,
                callee,
                recv,
                name,
                args,
                settled_lit,
                fuel,
            ),
            crate::keeping::kept(old(self)@, final(self)@),
        decreases fuel,
    {
        if fuel == 0 {
            self.give_up();
            return None;
        }
        let field = self.field_ty(env, recv, name, (fuel - 1) as u64);
        if field.is_some() {
            return None;
        }
        let r = self.resolve(recv, DEPTH_LIMIT);
        if is_error(&r) {
            let _ = self.infer_exprs(env, args, (fuel - 1) as u64);
            return Some(Ty::Error);
        }
        if is_var(&r) {
            return None;
        }
        let _ = self.infer_exprs(env, args, (fuel - 1) as u64);
        let msg = match self.get_format_call(self.file, callee) {
            Some(f) => list3(Part::Chars(f.before), Part::Ty(dup_ty(&r)), Part::Chars(f.after)),
            None => list5(
                Part::Text("no method `"),
                Part::Name(dup_sym(name)),
                Part::Text("` on `"),
                Part::Ty(dup_ty(&r)),
                Part::Text("`"),
            ),
        };
        if settled_lit == Some(TyVarKind::Int) || settled_lit == Some(TyVarKind::Float) {
            self.report_with_note(
                env,
                callee,
                msg,
                say_ty(
                    "a literal with nothing to constrain it is `",
                    r,
                    "`; write the type you meant, as in `cast.<i32>(..)`",
                ),
            );
        } else {
            self.report(env, callee, msg);
        }
        Some(Ty::Error)
    }

    /// A method on a trait object. One that needs its receiver's size has no slot,
    /// and is reachable only where the pointer itself implements the trait.
    pub fn infer_dyn_call(
        &mut self,
        env: &InferCx,
        callee: NodeId,
        recv: &Ty,
        m: DefId,
        name: &Symbol,
        args: &List<NodeId>,
        targs: &List<NodeId>,
        fuel: u64,
    ) -> (r: Ty)
        ensures
            (final(self)@, r) == infer_dyn_call_spec(
                old(self)@,
                env,
                callee,
                recv,
                m,
                name,
                args,
                targs,
                fuel,
            ),
            crate::keeping::kept(old(self)@, final(self)@),
        decreases fuel,
    {
        if fuel == 0 {
            self.give_up();
            return Ty::Error;
        }
        if !sized_self(env.tables, m) {
            return self.infer_method_call(
                env,
                callee,
                recv,
                m,
                virtual_dispatch(env.tables, m),
                args,
                targs,
                (fuel - 1) as u64,
            );
        }
        let through_ptr = match (self.shallow(recv, DEPTH_LIMIT), def_parent(env.tables, m)) {
            (Ty::Ptr { .. }, Some(t)) => {
                let s = self.select(env, recv, t, &List::Nil, (fuel - 1) as u64);
                is_found(s)
            },
            _ => false,
        };
        if through_ptr {
            return self.infer_method_call(
                env,
                callee,
                recv,
                m,
                MethodDispatch::Static,
                args,
                targs,
                (fuel - 1) as u64,
            );
        }
        self.report(
            env,
            callee,
            list5(
                Part::Text("`"),
                Part::Name(dup_sym(name)),
                Part::Text("` cannot be called on `"),
                Part::Ty(self.resolve(recv, DEPTH_LIMIT)),
                Part::Text("`: it is bounded `Self: Sized`, and a trait object's size is not known"),
            ),
        );
        let _ = self.infer_exprs(env, args, (fuel - 1) as u64);
        Ty::Error
    }

    /// The type a bare path callee names.
    pub fn callee_type_def(&self, env: &InferCx, callee: NodeId) -> (r: Option<DefId>)
        ensures
            r == callee_type_def_spec(self@, env, callee),
    {
        match kind_of(env.tables, self.file, callee) {
            Some(NodeKind::Path { .. }) => match self.resolved_def(env, callee) {
                Some(def) => match def_kind(env.tables, def) {
                    DefKind::Struct => Some(def),
                    DefKind::Enum => Some(def),
                    _ => None,
                },
                None => None,
            },
            _ => None,
        }
    }

    /// The name an argument was written with.
    pub fn arg_name(&self, env: &InferCx, arg: NodeId) -> (r: Option<Symbol>)
        ensures
            r == arg_name_spec(self@, env, arg),
    {
        match kind_of(env.tables, self.file, arg) {
            Some(NodeKind::Arg { name, value: _ }) => dup_opt_sym(name),
            _ => None,
        }
    }

    /// The names among a call's arguments.
    pub fn written_names(&self, env: &InferCx, args: &List<NodeId>) -> (r: List<Symbol>)
        ensures
            r == written_names_spec(self@, env, args),
        decreases args,
    {
        match args {
            List::Nil => List::Nil,
            List::Cons(h, t) => match self.arg_name(env, *h) {
                Some(n) => List::Cons(n, Box::new(self.written_names(env, t))),
                None => self.written_names(env, t),
            },
        }
    }

    /// Candidates as they read in a complaint.
    pub fn declaration_lines(&mut self, env: &InferCx, l: &List<DefId>, fuel: u64) -> (r: List<Part>)
        ensures
            (final(self)@, r) == declaration_lines_spec(old(self)@, env, l, fuel),
            crate::keeping::kept(old(self)@, final(self)@),
        decreases fuel, l,
    {
        if fuel == 0 {
            self.give_up();
            return List::Nil;
        }
        match l {
            List::Nil => List::Nil,
            List::Cons(h, t) => {
                let sig = self.func_def_ty(env, *h, (fuel - 1) as u64);
                let line = say_ty("`", self.resolve(&sig, DEPTH_LIMIT), "`");
                let rest = self.declaration_lines(env, t, fuel);
                if is_empty(t) {
                    line
                } else {
                    append(line, List::Cons(Part::Text(", "), Box::new(rest)))
                }
            },
        }
    }

    /// Which function of an overload set a call means: by its shape, and where that
    /// leaves several, by its arguments' types. The choice is recorded on the
    /// callee.
    pub fn select_overload(
        &mut self,
        env: &InferCx,
        callee: NodeId,
        def: DefId,
        args: &List<NodeId>,
        fuel: u64,
    ) -> (r: Option<DefId>)
        ensures
            (final(self)@, r) == select_overload_spec(old(self)@, env, callee, def, args, fuel),
            crate::keeping::kept(old(self)@, final(self)@),
        decreases fuel,
    {
        if fuel == 0 {
            self.give_up();
            return None;
        }
        let candidates = self.overload_candidates(env, def, DEPTH_LIMIT);
        if is_empty(&candidates) {
            return None;
        }
        let by_shape = shaped(env.tables, &candidates, list_len(args), &self.written_names(env, args));
        let fit = if list_len(&by_shape) > 1 {
            self.overloads_matching(env, callee, &by_shape, args, (fuel - 1) as u64)
        } else {
            by_shape
        };
        match &fit {
            List::Nil => {
                self.report_overloads(
                    env,
                    callee,
                    def,
                    "no overload of `",
                    "` takes these arguments; it has ",
                    &candidates,
                    (fuel - 1) as u64,
                );
                None
            },
            List::Cons(first, rest) => {
                self.report_ambiguous_call(env, callee, def, *first, rest, &fit, (fuel - 1) as u64);
                self.stamp_overload(callee, *first);
                Some(*first)
            },
        }
    }

    /// Complain about a call of an overload set, listing some of its functions.
    pub fn report_overloads(
        &mut self,
        env: &InferCx,
        callee: NodeId,
        def: DefId,
        before: &'static str,
        after: &'static str,
        l: &List<DefId>,
        fuel: u64,
    )
        ensures
            final(self)@ == report_overloads_spec(old(self)@, env, callee, def, before, after, l, fuel),
            crate::keeping::kept(old(self)@, final(self)@),
        decreases fuel,
    {
        if fuel == 0 {
            self.give_up();
            return;
        }
        let how = self.declaration_lines(env, l, (fuel - 1) as u64);
        self.report(env, callee, append(say_name(before, &def_name(env.tables, def), after), how));
    }

    /// Complain where more than one function takes a call, unless they take the same
    /// parameters: that is a mistake in the set, complained of where it is written.
    pub fn report_ambiguous_call(
        &mut self,
        env: &InferCx,
        callee: NodeId,
        def: DefId,
        first: DefId,
        rest: &List<DefId>,
        fit: &List<DefId>,
        fuel: u64,
    )
        ensures
            final(self)@ == report_ambiguous_call_spec(old(self)@, env, callee, def, first, rest, fit, fuel),
            crate::keeping::kept(old(self)@, final(self)@),
        decreases fuel,
    {
        if fuel == 0 {
            self.give_up();
            return;
        }
        if !is_empty(rest) {
            let same = self.overloads_are_duplicates(env, first, rest, (fuel - 1) as u64);
            if !same {
                self.report_overloads(
                    env,
                    callee,
                    def,
                    "this call to `",
                    "` matches more than one of its overloads: ",
                    fit,
                    (fuel - 1) as u64,
                );
            }
        }
    }

    /// Record which function a call of an overload set chose.
    pub fn stamp_overload(&mut self, callee: NodeId, def: DefId)
        ensures
            final(self)@ == stamp_overload_spec(old(self)@, callee, def),
            crate::keeping::kept(old(self)@, final(self)@),
    {
        self.set_resolution(self.file, callee, Resolution::Def(def));
    }

    /// A call's arguments, each with the name it was given and its type.
    pub fn labelled(
        &self,
        env: &InferCx,
        args: &List<NodeId>,
        tys: &List<Ty>,
    ) -> (r: List<(Option<Symbol>, Ty)>)
        ensures
            r == labelled_spec(self@, env, args, tys),
        decreases args,
    {
        match (args, tys) {
            (List::Cons(a, s), List::Cons(ty, u)) => {
                List::Cons((self.arg_name(env, *a), dup_ty(ty)), Box::new(self.labelled(env, s, u)))
            },
            _ => List::Nil,
        }
    }

    /// Unify each argument with its parameter until one does not fit. One past the
    /// last parameter is part of a variadic tail.
    pub fn unify_written(
        &mut self,
        args: &List<(Option<Symbol>, Ty)>,
        names: &List<Symbol>,
        params: &List<Ty>,
        i: u64,
        fuel: u64,
    ) -> (r: bool)
        ensures
            (final(self)@, r) == unify_written_spec(old(self)@, args, names, params, i, fuel),
            crate::keeping::kept(old(self)@, final(self)@),
        decreases fuel, args,
    {
        if fuel == 0 {
            self.give_up();
            return false;
        }
        match args {
            List::Nil => true,
            List::Cons(a, rest) => match param_of(names, &a.0, i) {
                Some(k) => match nth(params, k) {
                    Some(p) => {
                        let c = self.unify(&a.1, p, (fuel - 1) as u64);
                        if c.is_none() {
                            self.unify_written(rest, names, params, succ(i), fuel)
                        } else {
                            false
                        }
                    },
                    None => self.unify_written(rest, names, params, succ(i), fuel),
                },
                None => false,
            },
        }
    }

    /// Whether one candidate takes a call's arguments, tried and undone.
    pub fn overload_takes(
        &mut self,
        env: &InferCx,
        callee: NodeId,
        c: DefId,
        args: &List<(Option<Symbol>, Ty)>,
        fuel: u64,
    ) -> (r: bool)
        ensures
            (final(self)@, r) == overload_takes_spec(old(self)@, env, callee, c, args, fuel),
            crate::unify::undone(old(self)@, final(self)@),
            crate::keeping::kept(old(self)@, final(self)@),
        decreases fuel,
    {
        if fuel == 0 {
            self.give_up();
            return false;
        }
        proof {
            reveal(crate::keeping::kept);
        }
        let snap = self.snapshot();
        let sig = self.func_def_ty(env, c, (fuel - 1) as u64);
        let (inst, map) = self.instantiate_parts(
            env,
            callee,
            &sig,
            c,
            &List::Nil,
            no_subst(),
            (fuel - 1) as u64,
        );
        let fits = match self.shallow(&inst, DEPTH_LIMIT) {
            Ty::Func { params, ret: _, c: _ } => if arity_takes(env.tables, c, list_len(&params), args) {
                let ok = self.unify_written(
                    args,
                    &names_or_none(env.tables, c),
                    &params,
                    0,
                    (fuel - 1) as u64,
                );
                if ok {
                    self.bounds_hold(env, &self.declared_generics(env, c), &map, (fuel - 1) as u64)
                } else {
                    false
                }
            } else {
                false
            },
            _ => false,
        };
        self.rollback(snap);
        fits
    }

    /// The candidates that take a call's arguments.
    pub fn overloads_taking(
        &mut self,
        env: &InferCx,
        callee: NodeId,
        l: &List<DefId>,
        args: &List<(Option<Symbol>, Ty)>,
        fuel: u64,
    ) -> (r: List<DefId>)
        ensures
            (final(self)@, r) == overloads_taking_spec(old(self)@, env, callee, l, args, fuel),
            crate::unify::undone(old(self)@, final(self)@),
            crate::keeping::kept(old(self)@, final(self)@),
        decreases fuel, l,
    {
        if fuel == 0 {
            self.give_up();
            return List::Nil;
        }
        proof {
            reveal(crate::keeping::kept);
        }
        match l {
            List::Nil => List::Nil,
            List::Cons(c, rest) => {
                let fits = self.overload_takes(env, callee, *c, args, (fuel - 1) as u64);
                let others = self.overloads_taking(env, callee, rest, args, fuel);
                if fits {
                    List::Cons(*c, Box::new(others))
                } else {
                    others
                }
            },
        }
    }

    /// The candidates that are not generic.
    pub fn concrete_ones(&self, env: &InferCx, l: &List<DefId>) -> (r: List<DefId>)
        ensures
            r == concrete_ones_spec(self@, env, l),
        decreases l,
    {
        match l {
            List::Nil => List::Nil,
            List::Cons(h, t) => if is_empty(&self.declared_generics(env, *h)) {
                List::Cons(*h, Box::new(self.concrete_ones(env, t)))
            } else {
                self.concrete_ones(env, t)
            },
        }
    }

    /// The candidates every argument's type fits, the arguments inferred once in a
    /// trial that is undone, complaints and all.
    #[verifier::rlimit(30)]
    pub fn overload_trial(
        &mut self,
        env: &InferCx,
        callee: NodeId,
        fit: &List<DefId>,
        args: &List<NodeId>,
        fuel: u64,
    ) -> (r: List<DefId>)
        ensures
            (final(self)@, r) == overload_trial_spec(old(self)@, env, callee, fit, args, fuel),
            crate::unify::undone(old(self)@, final(self)@),
            final(self)@.diags == old(self)@.diags,
            crate::keeping::kept(old(self)@, final(self)@),
        decreases fuel,
    {
        if fuel == 0 {
            self.give_up();
            return List::Nil;
        }
        proof {
            reveal(crate::keeping::kept);
        }
        let mark = self.diag_count();
        let outer = self.snapshot();
        let arg_tys = self.infer_exprs(env, args, (fuel - 1) as u64);
        let matched = self.overloads_taking(
            env,
            callee,
            fit,
            &self.labelled(env, args, &arg_tys),
            (fuel - 1) as u64,
        );
        self.rollback(outer);
        self.forget_since(mark);
        proof {
            assert(self@.diags =~= old(self)@.diags);
        }
        matched
    }

    /// The candidates every argument's type fits. A concrete signature beats a
    /// generic one.
    pub fn overloads_matching(
        &mut self,
        env: &InferCx,
        callee: NodeId,
        fit: &List<DefId>,
        args: &List<NodeId>,
        fuel: u64,
    ) -> (r: List<DefId>)
        ensures
            (final(self)@, r) == overloads_matching_spec(old(self)@, env, callee, fit, args, fuel),
            crate::unify::undone(old(self)@, final(self)@),
            final(self)@.diags == old(self)@.diags,
            crate::keeping::kept(old(self)@, final(self)@),
        decreases fuel,
    {
        if fuel == 0 {
            self.give_up();
            return List::Nil;
        }
        proof {
            reveal(crate::keeping::kept);
        }
        let matched = self.overload_trial(env, callee, fit, args, (fuel - 1) as u64);
        let concrete = self.concrete_ones(env, &matched);
        if is_empty(&concrete) {
            matched
        } else {
            concrete
        }
    }

    /// The parameters of a definition's signature.
    pub fn signature_params(&mut self, env: &InferCx, d: DefId, fuel: u64) -> (r: Option<List<Ty>>)
        ensures
            (final(self)@, r) == signature_params_spec(old(self)@, env, d, fuel),
            crate::keeping::kept(old(self)@, final(self)@),
        decreases fuel,
    {
        if fuel == 0 {
            self.give_up();
            return None;
        }
        let sig = self.func_def_ty(env, d, (fuel - 1) as u64);
        match self.shallow(&sig, DEPTH_LIMIT) {
            Ty::Func { params, ret: _, c: _ } => Some(*params),
            _ => None,
        }
    }

    /// Whether each of some candidates takes the given parameters.
    pub fn all_take(&mut self, env: &InferCx, l: &List<DefId>, first: &List<Ty>, fuel: u64) -> (r: bool)
        ensures
            (final(self)@, r) == all_take_spec(old(self)@, env, l, first, fuel),
            crate::keeping::kept(old(self)@, final(self)@),
        decreases fuel, l,
    {
        if fuel == 0 {
            self.give_up();
            return true;
        }
        match l {
            List::Nil => true,
            List::Cons(c, rest) => {
                let ps = self.signature_params(env, *c, (fuel - 1) as u64);
                match ps {
                    Some(ps) => if tys_eq(first, &ps) {
                        self.all_take(env, rest, first, fuel)
                    } else {
                        false
                    },
                    None => false,
                }
            },
        }
    }

    /// Whether every candidate left takes the same parameters, which is a mistake in
    /// the declarations rather than in the call.
    pub fn overloads_are_duplicates(
        &mut self,
        env: &InferCx,
        first: DefId,
        rest: &List<DefId>,
        fuel: u64,
    ) -> (r: bool)
        ensures
            (final(self)@, r) == overloads_are_duplicates_spec(old(self)@, env, first, rest, fuel),
            crate::keeping::kept(old(self)@, final(self)@),
        decreases fuel,
    {
        if fuel == 0 {
            self.give_up();
            return false;
        }
        let ps = self.signature_params(env, first, (fuel - 1) as u64);
        match ps {
            Some(ps) => self.all_take(env, rest, &ps, (fuel - 1) as u64),
            None => false,
        }
    }

    /// Whether what a trial bound a candidate's parameters to meets their bounds.
    /// One not known yet is left alone.
    pub fn bounds_hold(&mut self, env: &InferCx, generics: &List<DefId>, map: &Subst, fuel: u64) -> (r: bool)
        ensures
            (final(self)@, r) == bounds_hold_spec(old(self)@, env, generics, map, fuel),
            crate::keeping::kept(old(self)@, final(self)@),
        decreases fuel, generics,
    {
        if fuel == 0 {
            self.give_up();
            return true;
        }
        match generics {
            List::Nil => true,
            List::Cons(g, rest) => match (recorded_bounds(env.tables, *g), bound_to(map, *g)) {
                (Some(bounds), Some(arg)) => {
                    let arg = self.resolve(&arg, DEPTH_LIMIT);
                    if is_var(&arg) || is_error(&arg) {
                        self.bounds_hold(env, rest, map, fuel)
                    } else {
                        let ok = self.bounds_may_hold(env, &arg, &bounds, (fuel - 1) as u64);
                        if ok {
                            self.bounds_hold(env, rest, map, fuel)
                        } else {
                            false
                        }
                    }
                },
                _ => self.bounds_hold(env, rest, map, fuel),
            },
        }
    }

    /// Hold each argument, inferred now, to the field at its position.
    pub fn construct_fields(&mut self, env: &InferCx, args: &List<NodeId>, fields: &List<Ty>, fuel: u64)
        ensures
            final(self)@ == construct_fields_spec(old(self)@, env, args, fields, fuel),
            crate::keeping::kept(old(self)@, final(self)@),
        decreases fuel, args,
    {
        if fuel == 0 {
            self.give_up();
            return;
        }
        match (args, fields) {
            (List::Cons(a, s), List::Cons(want, t)) => {
                let got = self.infer_expr(env, *a, (fuel - 1) as u64);
                self.expect(env, *a, &got, want, (fuel - 1) as u64);
                self.construct_fields(env, s, t, fuel);
            },
            _ => {},
        }
    }

    /// A call whose callee names a type builds a value of it: only a tuple struct is
    /// built this way, and its arguments are its fields.
    pub fn check_construction(
        &mut self,
        env: &InferCx,
        callee: NodeId,
        nominal_ty: &Ty,
        args: &List<NodeId>,
        fuel: u64,
    )
        ensures
            final(self)@ == check_construction_spec(old(self)@, env, callee, nominal_ty, args, fuel),
            crate::keeping::kept(old(self)@, final(self)@),
        decreases fuel,
    {
        if fuel == 0 {
            self.give_up();
            return;
        }
        self.reject_named_args(
            env,
            args,
            "a tuple struct's fields are positions — use a composite literal to build one by field name",
        );
        let fields = self.tuple_struct_tys(env, nominal_ty, (fuel - 1) as u64);
        match fields {
            None => {
                let _ = self.infer_exprs(env, args, (fuel - 1) as u64);
                if !is_empty(args) {
                    self.report(
                        env,
                        callee,
                        say_ty(
                            "`",
                            dup_ty(nominal_ty),
                            "` is not a tuple struct, so it cannot be constructed by a call — use a composite literal",
                        ),
                    );
                }
            },
            Some(fields) => if list_len(&fields) != list_len(args) {
                let _ = self.infer_exprs(env, args, (fuel - 1) as u64);
                self.report(
                    env,
                    callee,
                    list7(
                        Part::Text("`"),
                        Part::Ty(dup_ty(nominal_ty)),
                        Part::Text("` has "),
                        Part::Num(list_len(&fields)),
                        Part::Text(" field(s) but "),
                        Part::Num(list_len(args)),
                        Part::Text(" were supplied"),
                    ),
                );
            } else {
                self.construct_fields(env, args, &fields, (fuel - 1) as u64);
            },
        }
    }

    /// Complain that a call supplies a number of arguments a function does not take.
    pub fn report_arity(&mut self, env: &InferCx, callee: NodeId, def: DefId, total: u64, given: u64)
        ensures
            final(self)@ == report_arity_spec(old(self)@, env, callee, def, total, given),
            crate::keeping::kept(old(self)@, final(self)@),
    {
        let required = required_arity(env.tables, def, total);
        let takes = if required == total {
            single(Part::Num(total))
        } else {
            list3(Part::Num(required), Part::Text(" to "), Part::Num(total))
        };
        self.report(
            env,
            callee,
            append(
                say("this function takes "),
                append(
                    takes,
                    list3(Part::Text(" argument(s) but "), Part::Num(given), Part::Text(" were supplied")),
                ),
            ),
        );
    }

    /// Put each argument in its slot: positional ones by position, named ones by
    /// name, and none of the first kind after one of the second. `None` once a
    /// complaint was made.
    pub fn place_args(
        &mut self,
        env: &InferCx,
        callee: NodeId,
        def: DefId,
        given: u64,
        args: &List<NodeId>,
        names: &List<Symbol>,
        i: u64,
        seen_named: bool,
        slots: List<Option<NodeId>>,
    ) -> (r: Option<List<Option<NodeId>>>)
        ensures
            (final(self)@, r) == place_args_spec(
                old(self)@,
                env,
                callee,
                def,
                given,
                args,
                names,
                i,
                seen_named,
                slots,
            ),
            crate::keeping::kept(old(self)@, final(self)@),
        decreases args,
    {
        match args {
            List::Nil => Some(slots),
            List::Cons(a, rest) => match self.arg_name(env, *a) {
                None => {
                    if seen_named {
                        self.report(
                            env,
                            *a,
                            say(
                                "a positional argument cannot follow a named one — once a call names an argument, the rest must be named too",
                            ),
                        );
                        return None;
                    }
                    if i < list_len(names) {
                        self.place_args(
                            env,
                            callee,
                            def,
                            given,
                            rest,
                            names,
                            succ(i),
                            false,
                            fill_slot(slots, i, *a),
                        )
                    } else {
                        self.report_arity(env, callee, def, list_len(names), given);
                        None
                    }
                },
                Some(n) => match name_position(names, &n, 0) {
                    None => {
                        self.report(
                            env,
                            *a,
                            list5(
                                Part::Text("`"),
                                Part::Path(def),
                                Part::Text("` has no parameter named `"),
                                Part::Name(n),
                                Part::Text("`"),
                            ),
                        );
                        None
                    },
                    Some(idx) => {
                        if slot_filled(&slots, idx) {
                            self.report(
                                env,
                                *a,
                                say_name("argument for parameter `", &n, "` supplied twice"),
                            );
                            return None;
                        }
                        self.place_args(
                            env,
                            callee,
                            def,
                            given,
                            rest,
                            names,
                            succ(i),
                            true,
                            fill_slot(slots, idx, *a),
                        )
                    },
                },
            },
        }
    }

    /// Bind a call's arguments to a function's parameters, in parameter order, and
    /// record the order on the callee where it differs from what was written.
    pub fn bind_args(
        &mut self,
        env: &InferCx,
        callee: NodeId,
        def: DefId,
        args: &List<NodeId>,
    ) -> (r: ArgBinding)
        ensures
            (final(self)@, r) == bind_args_spec(old(self)@, env, callee, def, args),
            crate::keeping::kept(old(self)@, final(self)@),
    {
        let named = !is_empty(&self.written_names(env, args));
        // A variadic tail has no parameter names to bind against.
        if is_c_variadic(env.tables, def) {
            if named {
                self.report(
                    env,
                    callee,
                    say(
                        "a `#c_vararg` call may not name an argument: the variadic tail has no parameter names to bind against",
                    ),
                );
                return ArgBinding::Failed;
            }
            return ArgBinding::AsWritten;
        }
        match param_names(env.tables, def) {
            Some(names) => {
                let has_default = match param_defaults(env.tables, def) {
                    Some(l) => l,
                    None => List::Nil,
                };
                let total = list_len(&names);
                let given = list_len(args);
                let required = required_arity(env.tables, def, total);
                if !named && (given == total || required == total) {
                    return ArgBinding::AsWritten;
                }
                if !named {
                    if given > total || given < required {
                        self.report_arity(env, callee, def, total, given);
                        return ArgBinding::Failed;
                    }
                    let slots = padded(written_slots(args), &names);
                    self.set_arg_order(self.file, callee, ArgOrder { args: dup_slots(&slots) });
                    return ArgBinding::Bound(slots);
                }
                let placed = self.place_args(
                    env,
                    callee,
                    def,
                    given,
                    args,
                    &names,
                    0,
                    false,
                    empty_slots(&names),
                );
                match placed {
                    Some(slots) => {
                        let missing = missing_names(&slots, &names, &has_default, 0);
                        if !is_empty(&missing) {
                            self.report(
                                env,
                                callee,
                                append(say("missing argument for parameter "), quoted_names(&missing)),
                            );
                            return ArgBinding::Failed;
                        }
                        self.set_arg_order(self.file, callee, ArgOrder { args: dup_slots(&slots) });
                        ArgBinding::Bound(slots)
                    },
                    _ => {
                        ArgBinding::Failed
                    },
                }
            },
            _ => {
                ArgBinding::AsWritten
            },
        }
    }

    /// Complain about each named argument of a call that cannot accept one.
    pub fn reject_named_args(&mut self, env: &InferCx, args: &List<NodeId>, what: &'static str)
        ensures
            final(self)@ == reject_named_args_spec(old(self)@, env, args, what),
            crate::keeping::kept(old(self)@, final(self)@),
        decreases args,
    {
        match args {
            List::Nil => {},
            List::Cons(a, rest) => {
                match self.arg_name(env, *a) {
                    Some(n) => {
                        self.report(
                            env,
                            *a,
                            list4(
                                Part::Text("cannot pass argument `"),
                                Part::Name(n),
                                Part::Text("` by name: "),
                                Part::Text(what),
                            ),
                        );
                    },
                    None => {},
                }
                self.reject_named_args(env, rest, what);
            },
        }
    }

    /// Infer the argument in each filled slot, against the parameter it fills.
    pub fn infer_slots(
        &mut self,
        env: &InferCx,
        slots: &List<Option<NodeId>>,
        wanted: &List<Ty>,
        i: u64,
        fuel: u64,
    ) -> (r: List<Option<Ty>>)
        ensures
            (final(self)@, r) == infer_slots_spec(old(self)@, env, slots, wanted, i, fuel),
            crate::keeping::kept(old(self)@, final(self)@),
        decreases fuel, slots,
    {
        if fuel == 0 {
            self.give_up();
            return List::Nil;
        }
        match slots {
            List::Nil => List::Nil,
            List::Cons(s, rest) => {
                let first = match s {
                    Some(n) => {
                        let t = self.infer_arg(env, *n, opt_nth(wanted, i), (fuel - 1) as u64);
                        Some(t)
                    },
                    None => None,
                };
                let others = self.infer_slots(env, rest, wanted, succ(i), fuel);
                List::Cons(first, Box::new(others))
            },
        }
    }

    /// Hold each filled slot to its parameter; whatever is past the parameters is a
    /// C variadic tail.
    pub fn expect_slots(
        &mut self,
        env: &InferCx,
        params: &List<Ty>,
        slots: &List<Option<NodeId>>,
        tys: &List<Option<Ty>>,
        fuel: u64,
    )
        ensures
            final(self)@ == expect_slots_spec(old(self)@, env, params, slots, tys, fuel),
            crate::keeping::kept(old(self)@, final(self)@),
        decreases fuel, slots,
    {
        if fuel == 0 {
            self.give_up();
            return;
        }
        match (slots, tys) {
            (List::Cons(s, ss), List::Cons(t, ts)) => match params {
                List::Cons(p, ps) => {
                    match (s, t) {
                        (Some(node), Some(aty)) => {
                            self.expect(env, *node, aty, p, (fuel - 1) as u64);
                        },
                        _ => {},
                    }
                    self.expect_slots(env, ps, ss, ts, fuel);
                },
                List::Nil => {
                    match (s, t) {
                        (Some(node), Some(aty)) => {
                            self.check_vararg_arg(env, *node, aty, (fuel - 1) as u64);
                        },
                        _ => {},
                    }
                    self.expect_slots(env, &List::Nil, ss, ts, fuel);
                },
            },
            _ => {},
        }
    }

    /// Infer the arguments and hold them to a callee's type. A value that implements
    /// `Func` without being a function pointer is called like one, and marked.
    pub fn apply_call_with(
        &mut self,
        env: &InferCx,
        callee: NodeId,
        callee_ty: &Ty,
        slots: &List<Option<NodeId>>,
        variadic: bool,
        fuel: u64,
    ) -> (r: Ty)
        ensures
            (final(self)@, r) == apply_call_with_spec(
                old(self)@,
                env,
                callee,
                callee_ty,
                slots,
                variadic,
                fuel,
            ),
            crate::keeping::kept(old(self)@, final(self)@),
        decreases fuel,
    {
        if fuel == 0 {
            self.give_up();
            return Ty::Error;
        }
        let s = self.shallow(callee_ty, DEPTH_LIMIT);
        if !is_func(&s) {
            let sig = self.func_value_sig(env, &s, (fuel - 1) as u64);
            match sig {
                Some((params, ret)) => {
                    self.set_func_call(self.file, callee, FuncCall);
                    return self.apply_call_with(
                        env,
                        callee,
                        &Ty::Func { params: Box::new(params), ret: Box::new(ret), c: false },
                        slots,
                        variadic,
                        (fuel - 1) as u64,
                    );
                },
                None => {},
            }
        }
        // A closure is typed against the parameter it fills, and arguments may settle
        // what the callee is.
        let arg_tys = self.infer_slots(env, slots, &params_of(&s), 0, (fuel - 1) as u64);
        match self.shallow(callee_ty, DEPTH_LIMIT) {
            Ty::Func { params, ret, c: _ } => {
                let given = list_len(&arg_tys);
                let total = list_len(&params);
                let fits = if variadic {
                    given >= total
                } else {
                    given == total
                };
                if fits {
                    self.expect_slots(env, &params, slots, &arg_tys, (fuel - 1) as u64);
                } else if variadic {
                    self.report(
                        env,
                        callee,
                        list5(
                            Part::Text("this function takes at least "),
                            Part::Num(total),
                            Part::Text(" argument(s) but "),
                            Part::Num(given),
                            Part::Text(" were supplied"),
                        ),
                    );
                } else {
                    self.report(
                        env,
                        callee,
                        list5(
                            Part::Text("this function takes "),
                            Part::Num(total),
                            Part::Text(" argument(s) but "),
                            Part::Num(given),
                            Part::Text(" were supplied"),
                        ),
                    );
                }
                *ret
            },
            other => {
                if !is_error(&other) && !is_var(&other) {
                    self.report(
                        env,
                        callee,
                        say_ty("`", other, "` is not a function, so it cannot be called"),
                    );
                }
                Ty::Error
            },
        }
    }

    /// Whether a node is an integer literal whose value an `int` holds.
    pub fn fits_c_int(&self, env: &InferCx, node: NodeId) -> (r: bool)
        ensures
            r == fits_c_int_spec(self@, env, node),
    {
        let n = match kind_of(env.tables, self.file, node) {
            Some(NodeKind::Arg { name: _, value }) => *value,
            _ => node,
        };
        match self.get_int(n) {
            Some(v) => int_le(&int_neg(&int_of(0x8000_0000)), &v) && int_le(&v, &int_of(0x7fff_ffff)),
            None => false,
        }
    }

    /// Whether a type is a string, settled or still open.
    pub fn is_stringy(&self, ty: &Ty) -> (r: bool)
        ensures
            r == is_stringy_spec(self@, ty),
    {
        match ty {
            Ty::ComptimeStr => true,
            _ => self.admits_str(ty),
        }
    }

    /// One argument of a C variadic tail: what cannot cross is refused, and the
    /// promotion C would apply is recorded. A literal settles as C's `int` where
    /// that holds it.
    pub fn check_vararg_arg(&mut self, env: &InferCx, node: NodeId, ty: &Ty, fuel: u64)
        ensures
            final(self)@ == check_vararg_arg_spec(old(self)@, env, node, ty, fuel),
            crate::keeping::kept(old(self)@, final(self)@),
        decreases fuel,
    {
        if fuel == 0 {
            self.give_up();
            return;
        }
        let pinned = self.pin_str(ty);
        if is_var(&self.shallow(&pinned, DEPTH_LIMIT)) && self.fits_c_int(env, node) {
            let _clash = self.unify(&pinned, &int_ty(32, true), (fuel - 1) as u64);
        }
        let pinned = self.pin_numeric(&pinned);
        let resolved = self.settle(env, &pinned, (fuel - 1) as u64);
        if is_error(&resolved) || is_var(&resolved) {
            return;
        }
        if self.is_stringy(&resolved) {
            self.report_with_note(
                env,
                node,
                say("a `str` cannot be passed in a C variadic tail"),
                say(
                    "a `str` is a pointer and a length, and C reads one argument — write `c\"...\"` for a literal, or `c.to_cstr(s)` for a value",
                ),
            );
            return;
        }
        match not_c_passable(&resolved) {
            Some(what) => {
                self.report_with_note(
                    env,
                    node,
                    list4(
                        Part::Text(what),
                        Part::Text(" cannot be passed in a C variadic tail: `"),
                        Part::Ty(resolved),
                        Part::Text("` has no C argument convention"),
                    ),
                    say(
                        "the tail is read with `va_arg`, which names a C type — pass the parts this language owns the representation of separately",
                    ),
                );
                return;
            },
            None => {},
        }
        match self.get_coercion(self.file, node) {
            Some(_) => {},
            None => match c_promotion(&resolved) {
                Some(to) => {
                    self.set_coercion(self.file, node, Coercion { to: to });
                },
                None => {},
            },
        }
    }

    /// The method a type's own namespace holds.
    pub fn method_def(&self, env: &InferCx, recv: &Ty, name: &Symbol) -> (r: Option<DefId>)
        ensures
            r == method_def_spec(self@, env, recv, name),
    {
        match self.autoderef(recv, DEPTH_LIMIT) {
            Ty::Nominal { def, args: _ } => match member_of(env.tables, def, name) {
                Some(m) => if def_kind(env.tables, m) == DefKind::Func {
                    Some(m)
                } else {
                    None
                },
                None => None,
            },
            _ => None,
        }
    }

    /// Weigh every impl that supplies a method for a type.
    pub fn consider_methods(
        &mut self,
        env: &InferCx,
        i: u64,
        s: &Ty,
        name: &Symbol,
        best: Option<BestMember>,
        fuel: u64,
    ) -> (r: Option<BestMember>)
        ensures
            (final(self)@, r) == consider_methods_spec(old(self)@, env, i, s, name, best, fuel),
            crate::unify::undone(old(self)@, final(self)@),
            crate::keeping::kept(old(self)@, final(self)@),
        decreases fuel, u64::MAX - i,
    {
        if fuel == 0 {
            self.give_up();
            return best;
        }
        proof {
            reveal(crate::keeping::kept);
        }
        match get_impl(env, i) {
            Some(imp) => match impl_method(env.tables, imp, name) {
                Some(m) => if impl_reachable(env, imp) {
                    let fits = self.trial_impl(env, i, s, &List::Nil, (fuel - 1) as u64);
                    let next = if fits {
                        consider_member(best, impl_score(imp), i, m)
                    } else {
                        best
                    };
                    self.consider_methods(env, succ(i), s, name, next, fuel)
                } else {
                    self.consider_methods(env, succ(i), s, name, best, fuel)
                },
                None => self.consider_methods(env, succ(i), s, name, best, fuel),
            },
            None => best,
        }
    }

    /// The method some impl supplies for a type: the only way to one on a type with
    /// no namespace of its own. A tie is unresolved.
    pub fn impl_method_def(
        &mut self,
        env: &InferCx,
        recv: &Ty,
        name: &Symbol,
        fuel: u64,
    ) -> (r: Option<DefId>)
        ensures
            (final(self)@, r) == impl_method_def_spec(old(self)@, env, recv, name, fuel),
            crate::unify::undone(old(self)@, final(self)@),
            crate::keeping::kept(old(self)@, final(self)@),
        decreases fuel,
    {
        if fuel == 0 {
            self.give_up();
            return None;
        }
        proof {
            reveal(crate::keeping::kept);
        }
        let s = self.autoderef(recv, DEPTH_LIMIT);
        if is_error(&s) || is_var(&s) {
            return None;
        }
        let best = self.consider_methods(env, 0, &s, name, None, (fuel - 1) as u64);
        match best {
            Some(b) => if b.tied {
                None
            } else {
                Some(b.member)
            },
            None => None,
        }
    }

    /// A method found through a type parameter's bounds, with the arguments the
    /// bound was written with.
    pub fn bound_method_def(
        &mut self,
        env: &InferCx,
        recv: &Ty,
        name: &Symbol,
        fuel: u64,
    ) -> (r: Option<(DefId, List<Ty>)>)
        ensures
            (final(self)@, r) == bound_method_def_spec(old(self)@, env, recv, name, fuel),
            crate::keeping::kept(old(self)@, final(self)@),
        decreases fuel,
    {
        if fuel == 0 {
            self.give_up();
            return None;
        }
        match type_param_of(env.tables, &self.autoderef(recv, DEPTH_LIMIT)) {
            Some(def) => match bound_method_in(env, &self.param_bound_traits(env, def), name) {
                Some((t, m)) => {
                    let args = self.bound_args(env, def, t, (fuel - 1) as u64);
                    Some((m, args))
                },
                None => None,
            },
            None => None,
        }
    }

    /// The method a trait object's own trait declares.
    pub fn dyn_method_def(&self, env: &InferCx, recv: &Ty, name: &Symbol) -> (r: Option<DefId>)
        ensures
            r == dyn_method_def_spec(self@, env, recv, name),
    {
        let object = match self.shallow(recv, DEPTH_LIMIT) {
            Ty::Dyn { def, assoc: _ } => Some(def),
            Ty::Ptr { mutable: _, inner } => match self.shallow(&inner, DEPTH_LIMIT) {
                Ty::Dyn { def, assoc: _ } => Some(def),
                _ => None,
            },
            _ => None,
        };
        match object {
            Some(d) => match member_of(env.tables, d, name) {
                Some(m) => if def_kind(env.tables, m) == DefKind::Func {
                    Some(m)
                } else {
                    None
                },
                None => None,
            },
            None => None,
        }
    }

    /// A method of a type's own namespace, or of an impl.
    pub fn any_method_def(&mut self, env: &InferCx, recv: &Ty, name: &Symbol, fuel: u64) -> (r: Option<DefId>)
        ensures
            (final(self)@, r) == any_method_def_spec(old(self)@, env, recv, name, fuel),
            crate::keeping::kept(old(self)@, final(self)@),
        decreases fuel,
    {
        if fuel == 0 {
            self.give_up();
            return None;
        }
        match self.method_def(env, recv, name) {
            Some(m) => Some(m),
            None => self.impl_method_def(env, recv, name, (fuel - 1) as u64),
        }
    }

    /// A method reached through what a `distinct` type is distinct from.
    pub fn distinct_method_def(
        &mut self,
        env: &InferCx,
        recv: &Ty,
        name: &Symbol,
        fuel: u64,
    ) -> (r: Option<(DefId, Ty)>)
        ensures
            (final(self)@, r) == distinct_method_def_spec(old(self)@, env, recv, name, fuel),
            crate::keeping::kept(old(self)@, final(self)@),
        decreases fuel,
    {
        if fuel == 0 {
            self.give_up();
            return None;
        }
        let repr = self.distinct_repr(env, recv, (fuel - 1) as u64);
        match repr {
            Some(repr) => {
                let m = self.any_method_def(env, &repr, name, (fuel - 1) as u64);
                match m {
                    Some(m) => Some((m, repr)),
                    None => None,
                }
            },
            None => None,
        }
    }

    /// A method of the `@using` field's type, where the receiver's own has none.
    pub fn using_method_def(
        &mut self,
        env: &InferCx,
        recv: &Ty,
        name: &Symbol,
        fuel: u64,
    ) -> (r: Option<(DefId, Upcast)>)
        ensures
            (final(self)@, r) == using_method_def_spec(old(self)@, env, recv, name, fuel),
            crate::keeping::kept(old(self)@, final(self)@),
        decreases fuel,
    {
        if fuel == 0 {
            self.give_up();
            return None;
        }
        let s = self.shallow(recv, DEPTH_LIMIT);
        match self.nominal_head(&s) {
            Some((head, _)) => {
                match using_field_of(env.tables, head) {
                    Some(field) => {
                        if self.method_def(env, &s, name).is_some() {
                            return None;
                        }
                        let target = self.field_ty(env, &s, &def_name(env.tables, field), (fuel - 1) as u64);
                        match target {
                            Some(target) => {
                                let m = self.any_method_def(env, &target, name, (fuel - 1) as u64);
                                match m {
                                    Some(m) => Some(
                                        (m, Upcast { field: field, through_ptr: false, target: target }),
                                    ),
                                    None => None,
                                }
                            },
                            _ => {
                                None
                            },
                        }
                    },
                    _ => {
                        None
                    },
                }
            },
            _ => {
                None
            },
        }
    }

    /// Unify a method's `self` parameter with the receiver: directly, else with the
    /// receiver's address taken, else with the receiver read through.
    pub fn unify_self_param(&mut self, param: &Ty, recv: &Ty)
        ensures
            final(self)@ == unify_self_param_spec(old(self)@, param, recv),
            crate::keeping::kept(old(self)@, final(self)@),
    {
        let snap = self.snapshot();
        let direct = self.unify(recv, param, DEPTH_LIMIT);
        if direct.is_none() {
            return;
        }
        self.rollback(snap);
        match self.shallow(param, DEPTH_LIMIT) {
            Ty::Ptr { mutable: _, inner } => {
                let snap = self.snapshot();
                let through = self.unify(recv, &inner, DEPTH_LIMIT);
                if through.is_none() {
                    return;
                }
                self.rollback(snap);
                self.unify_pointee(recv, param);
            },
            _ => {
                self.unify_pointee(recv, param);
            },
        }
    }

    /// Unify what a receiver points at with a parameter.
    pub fn unify_pointee(&mut self, recv: &Ty, param: &Ty)
        ensures
            final(self)@ == unify_pointee_spec(old(self)@, recv, param),
            crate::keeping::kept(old(self)@, final(self)@),
    {
        match self.shallow(recv, DEPTH_LIMIT) {
            Ty::Ptr { mutable: _, inner } => {
                let _clash = self.unify(&inner, param, DEPTH_LIMIT);
            },
            _ => {},
        }
    }

    /// Which adjustment brings a receiver to its parameter.
    pub fn recv_adjust(&self, param: &Ty, recv: &Ty) -> (r: RecvAdjust)
        ensures
            r == recv_adjust_spec(self@, param, recv),
    {
        match (self.shallow(param, DEPTH_LIMIT), self.shallow(recv, DEPTH_LIMIT)) {
            (Ty::Ptr { .. }, Ty::Ptr { .. }) => RecvAdjust::Keep,
            (Ty::Ptr { mutable, inner: _ }, _) => RecvAdjust::Ref { mutable: mutable },
            (_, Ty::Ptr { .. }) => RecvAdjust::Deref,
            _ => RecvAdjust::Keep,
        }
    }

    /// Type a method call.
    pub fn infer_method_call(
        &mut self,
        env: &InferCx,
        callee: NodeId,
        recv: &Ty,
        method: DefId,
        dispatch: MethodDispatch,
        args: &List<NodeId>,
        targs: &List<NodeId>,
        fuel: u64,
    ) -> (r: Ty)
        ensures
            (final(self)@, r) == infer_method_call_spec(
                old(self)@,
                env,
                callee,
                recv,
                method,
                dispatch,
                args,
                targs,
                fuel,
            ),
            crate::keeping::kept(old(self)@, final(self)@),
        decreases fuel,
    {
        if fuel == 0 {
            self.give_up();
            return Ty::Error;
        }
        self.infer_method_call_rebound(
            env,
            callee,
            recv,
            method,
            dispatch,
            args,
            targs,
            None,
            (fuel - 1) as u64,
        )
    }

    /// Replace one type by another in a list, with every solved variable replaced
    /// first.
    pub fn rebound_tys(&self, l: &List<Ty>, from: &Ty, to: &Ty) -> (r: List<Ty>)
        ensures
            r == rebound_tys_spec(self@, l, from, to),
        decreases l,
    {
        match l {
            List::Nil => List::Nil,
            List::Cons(h, t) => List::Cons(
                rebind_ty(&self.resolve(h, DEPTH_LIMIT), from, to),
                Box::new(self.rebound_tys(t, from, to)),
            ),
        }
    }

    /// Type a method call: instantiate the signature, unify its `self` parameter
    /// with the receiver, and hold the arguments to the rest. A method inherited by
    /// a `distinct` type is seen by the caller with the representation replaced by
    /// the distinct type.
    pub fn infer_method_call_rebound(
        &mut self,
        env: &InferCx,
        callee: NodeId,
        recv: &Ty,
        method: DefId,
        dispatch: MethodDispatch,
        args: &List<NodeId>,
        targs: &List<NodeId>,
        rebind: Option<(Ty, Ty)>,
        fuel: u64,
    ) -> (r: Ty)
        ensures
            (final(self)@, r) == infer_method_call_rebound_spec(
                old(self)@,
                env,
                callee,
                recv,
                method,
                dispatch,
                args,
                targs,
                rebind,
                fuel,
            ),
            crate::keeping::kept(old(self)@, final(self)@),
        decreases fuel,
    {
        if fuel == 0 {
            self.give_up();
            return Ty::Error;
        }
        let sig = self.func_def_ty(env, method, (fuel - 1) as u64);
        let opened = self.trait_self_subst(env, callee, method, recv, (fuel - 1) as u64);
        let seed = match opened {
            Some(s) => s,
            None => no_subst(),
        };
        let (inst, _map) = self.instantiate_parts(env, callee, &sig, method, targs, seed, (fuel - 1) as u64);
        self.set_type(callee, dup_ty(&inst));
        match self.shallow(&inst, DEPTH_LIMIT) {
            Ty::Func { params, ret, c: _ } => {
                let taken = match nth(&params, 0) {
                    Some(p) => {
                        self.unify_self_param(p, recv);
                        Some((self.recv_adjust(p, recv), self.resolve(p, DEPTH_LIMIT)))
                    },
                    None => None,
                };
                let file = self.file;
                let (value_params, result) = match &rebind {
                    Some(r) => (
                        rest_tys(&self.rebound_tys(&params, &r.0, &r.1)),
                        rebind_ty(&self.resolve(&ret, DEPTH_LIMIT), &r.0, &r.1),
                    ),
                    None => (rest_tys(&params), *ret),
                };
                let binding = self.bind_args(env, callee, method, args);
                match binding {
                    ArgBinding::Failed => {
                        let _ = self.infer_exprs(env, args, (fuel - 1) as u64);
                    },
                    ArgBinding::AsWritten => {
                        self.check_method_args(
                            env,
                            callee,
                            method,
                            &value_params,
                            &written_slots(args),
                            (fuel - 1) as u64,
                        );
                    },
                    ArgBinding::Bound(slots) => {
                        self.check_method_args(env, callee, method, &value_params, &slots, (fuel - 1) as u64);
                    },
                }
                match taken {
                    Some((adjust, self_ty)) => {
                        self.set_method_res(
                            file,
                            callee,
                            MethodRes {
                                method: method,
                                dispatch: dispatch,
                                adjust: adjust,
                                self_ty: self_ty,
                            },
                        );
                    },
                    None => {},
                }
                result
            },
            _ => Ty::Error,
        }
    }

    /// Hold a method call's arguments to its parameters.
    pub fn check_method_args(
        &mut self,
        env: &InferCx,
        callee: NodeId,
        method: DefId,
        params: &List<Ty>,
        slots: &List<Option<NodeId>>,
        fuel: u64,
    )
        ensures
            final(self)@ == check_method_args_spec(old(self)@, env, callee, method, params, slots, fuel),
            crate::keeping::kept(old(self)@, final(self)@),
        decreases fuel,
    {
        if fuel == 0 {
            self.give_up();
            return;
        }
        let arg_tys = self.infer_slots(env, slots, params, 0, (fuel - 1) as u64);
        let total = list_len(params);
        let given = list_len(&arg_tys);
        if total == given {
            self.expect_slots(env, params, slots, &arg_tys, (fuel - 1) as u64);
        } else {
            let required = required_arity(env.tables, method, total);
            let takes = if required == total {
                single(Part::Num(total))
            } else {
                list3(Part::Num(required), Part::Text(" to "), Part::Num(total))
            };
            self.report(
                env,
                callee,
                append(
                    say_name("`", &def_name(env.tables, method), "` takes "),
                    append(
                        takes,
                        list3(
                            Part::Text(" argument(s) but "),
                            Part::Num(given),
                            Part::Text(" were supplied"),
                        ),
                    ),
                ),
            );
        }
    }

    /// A variable for each associated type: what it is bound to, and by what name.
    pub fn open_assocs(
        &mut self,
        l: &List<(Symbol, DefId)>,
        tys: List<(DefId, Ty)>,
    ) -> (r: (List<(DefId, Ty)>, List<(Symbol, Ty)>))
        ensures
            (final(self)@, r) == open_assocs_spec(old(self)@, l, tys),
            crate::keeping::kept(old(self)@, final(self)@),
        decreases l,
    {
        match l {
            List::Nil => (tys, List::Nil),
            List::Cons(h, rest) => {
                let out = self.fresh();
                let (tys, outs) = self.open_assocs(rest, List::Cons((h.1, dup_ty(&out)), Box::new(tys)));
                (tys, List::Cons((dup_sym(&h.0), out), Box::new(outs)))
            },
        }
    }

    /// Open up a trait method named through its trait: `Self` is decided by the
    /// context, so it and each associated type become variables.
    pub fn open_trait_self(&mut self, env: &InferCx, method: DefId) -> (r: Option<OpenedSelf>)
        ensures
            (final(self)@, r) == open_trait_self_spec(old(self)@, env, method),
            crate::keeping::kept(old(self)@, final(self)@),
    {
        match declaring_trait(env.tables, method) {
            Some(trait_def) => {
                let self_ty = self.fresh();
                let (tys, outs) = self.open_assocs(
                    &sort_by_name(assocs_of(env.tables, trait_def)),
                    single((trait_def, dup_ty(&self_ty))),
                );
                Some(
                    OpenedSelf { trait_def: trait_def, self_ty: self_ty, assocs: outs, subst: of_types(tys) },
                )
            },
            None => None,
        }
    }

    /// Register the projection of each associated type.
    pub fn project_assocs(
        &mut self,
        l: &List<(Symbol, Ty)>,
        self_ty: &Ty,
        trait_def: DefId,
        args: &List<Ty>,
        origin: NodeId,
    )
        ensures
            final(self)@ == project_assocs_spec(old(self)@, l, self_ty, trait_def, args, origin),
            crate::keeping::kept(old(self)@, final(self)@),
        decreases l,
    {
        match l {
            List::Nil => {},
            List::Cons(h, rest) => {
                self.register(
                    Obligation::Projection {
                        self_ty: dup_ty(self_ty),
                        trait_def: trait_def,
                        args: dup_tys(args),
                        assoc: dup_sym(&h.0),
                        out: dup_ty(&h.1),
                        origin: origin,
                        method: None,
                    },
                );
                self.project_assocs(rest, self_ty, trait_def, args, origin);
            },
        }
    }

    /// Register what decides an opened `Self`: which impl it is, and what that impl's
    /// associated types are.
    pub fn settle_trait_self(
        &mut self,
        env: &InferCx,
        callee: NodeId,
        method: DefId,
        opened: OpenedSelf,
        map: &Subst,
    )
        ensures
            final(self)@ == settle_trait_self_spec(old(self)@, env, callee, method, opened, map),
            crate::keeping::kept(old(self)@, final(self)@),
    {
        let args = instantiated(&self.declared_generics(env, opened.trait_def), map);
        self.project_assocs(&opened.assocs, &opened.self_ty, opened.trait_def, &args, callee);
        self.register(
            Obligation::Trait {
                self_ty: opened.self_ty,
                trait_def: opened.trait_def,
                args: args,
                origin: callee,
                stamp: Some(def_name(env.tables, method)),
            },
        );
    }

    /// The `Self` a receiver stands for: what a pointer points at, except that a
    /// method needing its receiver's size is never a trait object's.
    pub fn self_head(&self, env: &InferCx, method: DefId, recv: &Ty) -> (r: Ty)
        ensures
            r == self_head_spec(self@, env, method, recv),
    {
        match self.shallow(recv, DEPTH_LIMIT) {
            Ty::Ptr { mutable, inner } => match self.shallow(&inner, DEPTH_LIMIT) {
                Ty::Dyn { def, assoc } => if sized_self(env.tables, method) {
                    Ty::Ptr { mutable: mutable, inner: inner }
                } else {
                    Ty::Dyn { def: def, assoc: assoc }
                },
                other => other,
            },
            other => other,
        }
    }

    /// Bind the associated types a parameter's own namespace names.
    pub fn minted_assocs(
        &mut self,
        env: &InferCx,
        l: &List<(Symbol, DefId)>,
        head: DefId,
        tys: List<(DefId, Ty)>,
        fuel: u64,
    ) -> (r: List<(DefId, Ty)>)
        ensures
            (final(self)@, r) == minted_assocs_spec(old(self)@, env, l, head, tys, fuel),
            crate::keeping::kept(old(self)@, final(self)@),
        decreases fuel, l,
    {
        if fuel == 0 {
            self.give_up();
            return tys;
        }
        match l {
            List::Nil => tys,
            List::Cons(h, rest) => match member_of(env.tables, head, &h.0) {
                Some(bound) => {
                    let t = self.param_ty(env, resolve_alias(env.tables, bound), (fuel - 1) as u64);
                    self.minted_assocs(env, rest, head, List::Cons((h.1, t), Box::new(tys)), fuel)
                },
                None => self.minted_assocs(env, rest, head, tys, fuel),
            },
        }
    }

    /// What a trait declaration's `Self` is at a call: the receiver, and each of the
    /// trait's associated types what the receiver binds it to. `None` where the
    /// method is no trait's own, or the receiver is not known.
    pub fn trait_self_subst(
        &mut self,
        env: &InferCx,
        at: NodeId,
        method: DefId,
        recv: &Ty,
        fuel: u64,
    ) -> (r: Option<Subst>)
        ensures
            (final(self)@, r) == trait_self_subst_spec(old(self)@, env, at, method, recv, fuel),
            crate::keeping::kept(old(self)@, final(self)@),
        decreases fuel,
    {
        if fuel == 0 {
            self.give_up();
            return None;
        }
        match declaring_trait(env.tables, method) {
            Some(parent) => {
                let head = self.self_head(env, method, recv);
                if is_error(&head) || is_var(&head) {
                    return None;
                }
                let tys = single((parent, dup_ty(&head)));
                match is_param_like(env.tables, &head) {
                    Some(head_def) => {
                        let tys = self.minted_assocs(
                            env,
                            &assocs_of(env.tables, parent),
                            head_def,
                            tys,
                            (fuel - 1) as u64,
                        );
                        return Some(of_types(tys));
                    },
                    None => {},
                }
                match &head {
                    Ty::Dyn { def: _, assoc } => Some(
                        of_types(pinned_assocs(env.tables, parent, assoc, tys)),
                    ),
                    Ty::Nominal { .. } => {
                        let tys = self.concrete_assocs(env, at, parent, &head, tys);
                        Some(of_types(tys))
                    },
                    Ty::Ptr { .. } => {
                        let tys = self.concrete_assocs(env, at, parent, &head, tys);
                        Some(of_types(tys))
                    },
                    _ => Some(of_types(tys)),
                }
            },
            _ => {
                None
            },
        }
    }

    /// A variable for each associated type of a concrete type, with the projection
    /// that solves it.
    pub fn concrete_assocs(
        &mut self,
        env: &InferCx,
        at: NodeId,
        parent: DefId,
        head: &Ty,
        tys: List<(DefId, Ty)>,
    ) -> (r: List<(DefId, Ty)>)
        ensures
            (final(self)@, r) == concrete_assocs_spec(old(self)@, env, at, parent, head, tys),
            crate::keeping::kept(old(self)@, final(self)@),
    {
        let assocs = assocs_of(env.tables, parent);
        let generics = self.declared_generics(env, parent);
        let args = self.fresh_each(&generics);
        let (tys, outs) = self.open_assocs(&assocs, tys);
        self.project_assocs(&outs, head, parent, &args, at);
        tys
    }

    /// The explicit argument at a position, where one is written.
    pub fn explicit_arg(&self, env: &InferCx, l: &List<NodeId>, i: u64) -> (r: Option<NodeId>)
        ensures
            r == explicit_arg_spec(self@, env, l, i),
    {
        match nth(l, i) {
            Some(n) => if is_hole(kind_of(env.tables, self.file, *n)) {
                None
            } else {
                Some(*n)
            },
            None => None,
        }
    }

    /// Bind each declared parameter to its explicit argument, or to a variable.
    pub fn bind_params(
        &mut self,
        env: &InferCx,
        params: &List<DefId>,
        explicit: &List<NodeId>,
        i: u64,
        map: Subst,
        fuel: u64,
    ) -> (r: Subst)
        ensures
            (final(self)@, r) == bind_params_spec(old(self)@, env, params, explicit, i, map, fuel),
            crate::keeping::kept(old(self)@, final(self)@),
        decreases fuel, params,
    {
        if fuel == 0 {
            self.give_up();
            return map;
        }
        match params {
            List::Nil => map,
            List::Cons(p, rest) => {
                let arg = self.explicit_arg(env, explicit, i);
                let next = if def_kind(env.tables, *p) == DefKind::ConstParam {
                    let k = match arg {
                        Some(a) => self.const_arg(env, *p, a, (fuel - 1) as u64),
                        None => self.fresh_const(),
                    };
                    bind_const(map, *p, k)
                } else {
                    let t = match arg {
                        Some(a) => self.ty_from_node(env, a, (fuel - 1) as u64),
                        None => self.fresh(),
                    };
                    bind_ty(map, *p, t)
                };
                self.bind_params(env, rest, explicit, succ(i), next, fuel)
            },
        }
    }

    /// Bind each parameter that is not bound yet to a type variable.
    pub fn open_types(&mut self, l: &List<DefId>, map: Subst) -> (r: Subst)
        ensures
            (final(self)@, r) == open_types_spec(old(self)@, l, map),
            crate::keeping::kept(old(self)@, final(self)@),
        decreases l,
    {
        match l {
            List::Nil => map,
            List::Cons(d, rest) => if find_ty(&map.tys, *d).is_some() {
                self.open_types(rest, map)
            } else {
                let t = self.fresh();
                self.open_types(rest, bind_ty(map, *d, t))
            },
        }
    }

    /// Bind each parameter that is not bound yet to a compile-time variable.
    pub fn open_consts(&mut self, l: &List<DefId>, map: Subst) -> (r: Subst)
        ensures
            (final(self)@, r) == open_consts_spec(old(self)@, l, map),
            crate::keeping::kept(old(self)@, final(self)@),
        decreases l,
    {
        match l {
            List::Nil => map,
            List::Cons(d, rest) => if find_const(&map.consts, *d).is_some() {
                self.open_consts(rest, map)
            } else {
                let k = self.fresh_const();
                self.open_consts(rest, bind_const(map, *d, k))
            },
        }
    }

    /// Register the equation of each associated-type parameter of a signature.
    pub fn register_projections(&mut self, env: &InferCx, l: &List<DefId>, at: NodeId, map: &Subst)
        ensures
            final(self)@ == register_projections_spec(old(self)@, env, l, at, map),
            crate::keeping::kept(old(self)@, final(self)@),
        decreases l,
    {
        match l {
            List::Nil => {},
            List::Cons(d, rest) => {
                match projection_of(env.tables, *d) {
                    Some(p) => match (bound_to(map, p.base), bound_to(map, *d)) {
                        (Some(base), Some(out)) => {
                            self.register(
                                Obligation::Projection {
                                    self_ty: base,
                                    trait_def: p.trait_def,
                                    args: List::Nil,
                                    assoc: p.assoc,
                                    out: out,
                                    origin: at,
                                    method: None,
                                },
                            );
                        },
                        _ => {},
                    },
                    None => {},
                }
                self.register_projections(env, rest, at, map);
            },
        }
    }

    /// Instantiate a signature: its own parameters take the explicit arguments, and
    /// everything else a variable. What each was bound to is recorded on the use,
    /// in the order the declaration lists them, followed by whatever else the
    /// signature mentions.
    pub fn instantiate_parts(
        &mut self,
        env: &InferCx,
        at: NodeId,
        sig: &Ty,
        def: DefId,
        targs: &List<NodeId>,
        seed: Subst,
        fuel: u64,
    ) -> (r: (Ty, Subst))
        ensures
            (final(self)@, r) == instantiate_parts_spec(old(self)@, env, at, sig, def, targs, seed, fuel),
            crate::keeping::kept(old(self)@, final(self)@),
        decreases fuel,
    {
        if fuel == 0 {
            self.give_up();
            return (Ty::Error, no_subst());
        }
        let params = self.declared_generics(env, def);
        let explicit = plain_args(env.tables, self.file, targs);
        match nth(&explicit, list_len(&params)) {
            Some(anchor) => {
                self.report(
                    env,
                    *anchor,
                    append(
                        list3(Part::Text("`"), Part::Path(def), Part::Text("` takes ")),
                        list4(
                            Part::Num(list_len(&params)),
                            Part::Text(" generic argument(s) but "),
                            Part::Num(list_len(&explicit)),
                            Part::Text(" were supplied"),
                        ),
                    ),
                );
            },
            None => {},
        }
        self.record_generic_args_in(env, self.file, targs, (fuel - 1) as u64);
        let map = self.bind_params(env, &params, &explicit, 0, seed, (fuel - 1) as u64);
        let (tys, consts) = collect_generic_params(env.tables, sig, List::Nil, List::Nil);
        let map = self.open_types(&tys, map);
        let map = self.open_consts(&consts, map);
        let order = instantiation_order(env.tables, &params, sig);
        let map = self.open_types(&order, map);
        self.register_projections(env, &order, at, &map);
        self.register_bounds(env, at, &params, &map, (fuel - 1) as u64);
        if !is_empty(&order) {
            self.set_instantiation(self.file, at, Instantiation(generic_args(&order, &map)));
        }
        (subst_ty(sig, &map), map)
    }

    /// Apply the one rule an intrinsic needs beyond its declared signature.
    pub fn intrinsic_result(
        &mut self,
        env: &InferCx,
        def: DefId,
        result: Ty,
        slots: &List<Option<NodeId>>,
        fuel: u64,
    ) -> (r: Ty)
        ensures
            (final(self)@, r) == intrinsic_result_spec(old(self)@, env, def, result, slots, fuel),
            crate::keeping::kept(old(self)@, final(self)@),
        decreases fuel,
    {
        if fuel == 0 {
            self.give_up();
            return Ty::Error;
        }
        match special_of(env.tables, def) {
            Some(Special::MutableArg) => match self.shallow(&result, DEPTH_LIMIT) {
                Ty::Slice { mutable: _, inner } => Ty::Slice { mutable: true, inner: inner },
                Ty::Ptr { mutable: _, inner } => Ty::Ptr { mutable: true, inner: inner },
                other => other,
            },
            Some(Special::SequenceArg) => {
                match only_slot(slots) {
                    Some(arg) => {
                        let arg_ty = self.node_ty(env, arg, (fuel - 1) as u64);
                        let ty = self.autoderef(&arg_ty, DEPTH_LIMIT);
                        if !has_len(&ty) && !is_error(&ty) && !is_var(&ty) {
                            self.report(
                                env,
                                arg,
                                say_ty(
                                    "`len` needs an array or a slice, not `",
                                    self.resolve(&ty, DEPTH_LIMIT),
                                    "`",
                                ),
                            );
                        }
                    },
                    None => {},
                }
                result
            },
            None => result,
        }
    }
}

} // verus!
